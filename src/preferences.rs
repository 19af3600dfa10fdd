//! The persisted UI preferences: one flag, stored as a JSON object.
//!
//! Reading the file and writing it back are left to the caller, who holds
//! the preferences under a lock; this module says what a file's text means
//! and what text a state is saved as.
use vstd::prelude::*;
use crate::json::{
    Field, FieldView, Members, flat_members, keys_ascending, members_view, nested_members,
    object_members_of, object_text, parse_object, write_object,
};
use crate::protocol::{find, lookup};

verus! {

/// The flag's value when the file does not give it.
pub fn default_user_tos_agreed() -> (r: bool)
    ensures
        r == false,
{
    false
}

/// The UI preferences.
pub struct Preferences {
    /// Whether the user agreed to the terms of service.
    pub user_tos_agreed: bool,
}

impl Default for Preferences {
    fn default() -> (r: Preferences)
        ensures
            r.user_tos_agreed == false,
    {
        Preferences { user_tos_agreed: default_user_tos_agreed() }
    }
}

/// The flag as a file's text gives it: `false` when there is no file, when
/// its text is not a JSON object, or when the member is absent or not a
/// boolean.
pub open spec fn loaded_flag(text: Option<Seq<char>>) -> bool {
    match text {
        None => false,
        Some(t) => match object_members_of(t) {
            Some(ms) => lookup(ms, "user_tos_agreed"@) == Some(FieldView::Bool(true)),
            None => false,
        },
    }
}

/// The members that preferences are saved as.
pub open spec fn saved_members(flag: bool) -> Members {
    seq![("user_tos_agreed"@, FieldView::Bool(flag))]
}

/// The text that preferences are saved as.
pub open spec fn saved_text(flag: bool) -> Seq<char> {
    object_text(saved_members(flag))
}

impl Preferences {
    /// The preferences that a file's text gives; `None` stands for a file
    /// that could not be read. Never fails: anything unreadable gives the
    /// defaults.
    pub fn load(text: Option<&str>) -> (r: Preferences)
        ensures
            r.user_tos_agreed == loaded_flag(
                match text {
                    Some(t) => Some(t@),
                    None => None,
                },
            ),
            forall|flag: bool|
                (text matches Some(t) && t@ == #[trigger] saved_text(flag)) ==> r.user_tos_agreed
                    == flag,
    {
        proof { reveal_strlit("user_tos_agreed"); }
        let t = match text {
            Some(t) => t,
            None => return Preferences::default(),
        };
        let parsed = parse_object(t);
        proof {
            assert forall|flag: bool| t@ == #[trigger] saved_text(flag) implies parsed matches Some(
                v,
            ) && lookup(members_view(v@), "user_tos_agreed"@) == Some(FieldView::Bool(flag)) by {
                let ms = saved_members(flag);
                assert(keys_ascending(ms));
                assert(flat_members(ms));
                assert(nested_members(ms));
                assert(object_text(ms) == t@);
            }
        }
        match parsed {
            Some(ms) => {
                let key = String::from_str("user_tos_agreed");
                match find(&ms, &key) {
                    Some(Field::Bool(b)) => Preferences { user_tos_agreed: *b },
                    _ => Preferences::default(),
                }
            },
            None => Preferences::default(),
        }
    }

    /// The text to write to the file for these preferences.
    pub fn save_text(&self) -> (r: String)
        ensures
            r@ == saved_text(self.user_tos_agreed),
    {
        let mut v: Vec<(String, Field)> = Vec::new();
        v.push((String::from_str("user_tos_agreed"), Field::Bool(self.user_tos_agreed)));
        assert(members_view(v@) =~= saved_members(self.user_tos_agreed));
        write_object(&v)
    }

    /// Whether the user agreed to the terms of service.
    pub fn is_user_tos_agreed(&self) -> (r: bool)
        ensures
            r == self.user_tos_agreed,
    {
        self.user_tos_agreed
    }

    /// Records the user's answer, and gives the text to save for it.
    pub fn set_user_tos_agreed(&mut self, agreed: bool) -> (r: String)
        ensures
            final(self).user_tos_agreed == agreed,
            r@ == saved_text(agreed),
    {
        self.user_tos_agreed = agreed;
        self.save_text()
    }
}

} // verus!
