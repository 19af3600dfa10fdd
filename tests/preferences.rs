use mudband_ui::preferences::{default_user_tos_agreed, Preferences};

#[test]
fn load_absent_file() {
    assert!(!Preferences::load(None).user_tos_agreed);
    assert!(!default_user_tos_agreed());
    assert!(!Preferences::default().is_user_tos_agreed());
}

#[test]
fn save_then_load() {
    let p = Preferences { user_tos_agreed: true };
    let text = p.save_text();
    assert_eq!(text, "{\"user_tos_agreed\":true}");
    assert!(Preferences::load(Some(&text)).user_tos_agreed);
    let q = Preferences { user_tos_agreed: false };
    assert!(!Preferences::load(Some(&q.save_text())).user_tos_agreed);
}

#[test]
fn load_corrupted_file() {
    assert!(!Preferences::load(Some("{\"user_tos_agreed\": tr")).user_tos_agreed);
    assert!(!Preferences::load(Some("")).user_tos_agreed);
    assert!(!Preferences::load(Some("{\"user_tos_agreed\":\"yes\"}")).user_tos_agreed);
    assert!(!Preferences::load(Some("{}")).user_tos_agreed);
}

#[test]
fn load_pretty_file() {
    assert!(Preferences::load(Some("{\n  \"user_tos_agreed\": true\n}")).user_tos_agreed);
}

#[test]
fn set_flag() {
    let mut p = Preferences::default();
    let text = p.set_user_tos_agreed(true);
    assert!(p.is_user_tos_agreed());
    assert_eq!(text, "{\"user_tos_agreed\":true}");
    let text = p.set_user_tos_agreed(false);
    assert!(!p.user_tos_agreed);
    assert_eq!(text, "{\"user_tos_agreed\":false}");
}
