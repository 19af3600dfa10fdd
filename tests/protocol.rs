use mudband_ui::dispatch::{
    band_name, enrollment_count, pass_through, receive, request,
    tunnel_command_code, tunnel_command_succeeded, tunnel_is_running, CallError, TransportError,
};
use mudband_ui::framing::Framing;
use mudband_ui::json::{write_object, Field};
use mudband_ui::number::parse_i64;
use mudband_ui::protocol::{decode_reply, Command, ProtocolError};

fn reply(text: &str) -> Result<mudband_ui::protocol::Reply, CallError> {
    receive(Framing::Stream, Ok(text.to_string()))
}

fn unreachable() -> Result<mudband_ui::protocol::Reply, CallError> {
    receive(
        Framing::Stream,
        Err(TransportError::Connect("No such file or directory".to_string())),
    )
}

fn all_commands() -> Vec<Command> {
    vec![
        Command::TunnelConnect,
        Command::TunnelDisconnect,
        Command::TunnelGetStatus,
        Command::GetEnrollmentCount,
        Command::GetBandName,
        Command::GetActiveBand,
        Command::GetActiveConf,
        Command::GetBandAdmin,
        Command::GetEnrollmentList,
        Command::Enroll {
            enrollment_token: "tok\"en".to_string(),
            device_name: "my\ndevice".to_string(),
            enrollment_secret: Some("s3cr\\et".to_string()),
        },
        Command::Enroll {
            enrollment_token: "token".to_string(),
            device_name: "laptop".to_string(),
            enrollment_secret: None,
        },
        Command::SaveBandAdmin { band_uuid: "u-1".to_string(), jwt: "a.b.c".to_string() },
        Command::Unenroll { band_uuid: "u-2".to_string() },
        Command::ChangeEnrollment { band_uuid: "u-3".to_string() },
    ]
}

#[test]
fn encode_without_args() {
    assert_eq!(Command::TunnelGetStatus.encode(), "{\"cmd\":\"tunnel_get_status\"}");
    assert_eq!(Command::GetBandAdmin.encode(), "{\"cmd\":\"get_band_admin\"}");
}

#[test]
fn encode_with_args() {
    let c = Command::Enroll {
        enrollment_token: "t".to_string(),
        device_name: "d".to_string(),
        enrollment_secret: Some("s".to_string()),
    };
    assert_eq!(
        c.encode(),
        "{\"args\":{\"device_name\":\"d\",\"enrollment_secret\":\"s\",\"enrollment_token\":\"t\"},\"cmd\":\"enroll\"}"
    );
    let c = Command::Unenroll { band_uuid: "b".to_string() };
    assert_eq!(c.encode(), "{\"args\":{\"band_uuid\":\"b\"},\"cmd\":\"unenroll\"}");
}

#[test]
fn encode_escapes_strings() {
    let c = Command::SaveBandAdmin { band_uuid: "a\"b".to_string(), jwt: "x\ny".to_string() };
    let text = c.encode();
    assert_eq!(text, "{\"args\":{\"band_uuid\":\"a\\\"b\",\"jwt\":\"x\\ny\"},\"cmd\":\"save_band_admin\"}");
    assert!(!text.contains('\n'));
}

#[test]
fn request_round_trip_every_command() {
    for c in all_commands() {
        let text = c.encode();
        let parsed: serde_json::Value = serde_json::from_str(&text).unwrap();
        assert_eq!(parsed.get("cmd").and_then(|v| v.as_str()), Some(c.name()));
        match c.args() {
            Some(args) => {
                let got = parsed.get("args").and_then(|v| v.as_object()).unwrap();
                assert_eq!(got.len(), args.len());
                for (k, v) in args.iter() {
                    match v {
                        Field::Text(s) => assert_eq!(got.get(k).and_then(|x| x.as_str()), Some(s.as_str())),
                        _ => panic!("argument that is not a string"),
                    }
                }
            }
            None => assert!(parsed.get("args").is_none()),
        }
        assert_eq!(serde_json::to_string(&parsed).unwrap(), text);
    }
}

#[test]
fn line_framed_request_ends_once() {
    for c in all_commands() {
        let framed = request(Framing::Line, &c);
        assert!(framed.ends_with('\n'));
        assert_eq!(framed.matches('\n').count(), 1);
        assert_eq!(request(Framing::Stream, &c), c.encode());
    }
}

#[test]
fn tunnel_status_running() {
    assert!(tunnel_is_running(&reply("{\"status\":200,\"tunnel_is_running\":true}")));
}

#[test]
fn tunnel_status_refused() {
    assert!(!tunnel_is_running(&reply("{\"status\":404}")));
    assert!(!tunnel_is_running(&reply("{\"status\":404,\"tunnel_is_running\":true}")));
    assert!(!tunnel_is_running(&reply("{\"status\":200,\"tunnel_is_running\":\"yes\"}")));
    assert!(!tunnel_is_running(&reply("{\"status\":200}")));
}

#[test]
fn enrollment_count_missing_field() {
    assert_eq!(enrollment_count(&reply("{\"status\":200}")), 0);
    assert_eq!(enrollment_count(&unreachable()), -1);
}

#[test]
fn enrollment_count_values() {
    assert_eq!(enrollment_count(&reply("{\"status\":200,\"enrollment_count\":3}")), 3);
    assert_eq!(enrollment_count(&reply("{\"status\":500,\"enrollment_count\":3}")), 0);
    assert_eq!(enrollment_count(&reply("{\"status\":200,\"enrollment_count\":2.5}")), 0);
    assert_eq!(enrollment_count(&reply("{\"status\":200,\"enrollment_count\":-4}")), -4);
    assert_eq!(enrollment_count(&reply("garbage")), -1);
}

#[test]
fn unreachable_service_defaults() {
    assert!(!tunnel_is_running(&unreachable()));
    assert_eq!(enrollment_count(&unreachable()), -1);
    assert!(!tunnel_command_succeeded(&unreachable()));
    assert_eq!(tunnel_command_code(&unreachable()), 500);
    let text = pass_through(&unreachable());
    let v: serde_json::Value = serde_json::from_str(&text).unwrap();
    assert_eq!(v.get("status").and_then(|s| s.as_i64()), Some(500));
    let msg = v.get("msg").and_then(|m| m.as_str()).unwrap();
    assert!(!msg.is_empty());
    assert_eq!(msg, "failed to connect: No such file or directory");
}

#[test]
fn tunnel_commands() {
    assert!(tunnel_command_succeeded(&reply("{\"status\":200}")));
    assert!(!tunnel_command_succeeded(&reply("{\"status\":409}")));
    assert_eq!(tunnel_command_code(&reply("{\"status\":409}")), 409);
    assert_eq!(tunnel_command_code(&reply("{\"status\":\"x\"}")), 500);
}

#[test]
fn band_name_results() {
    assert_eq!(band_name(&reply("{\"band_name\":\"home\",\"status\":200}")), "home");
    assert_eq!(band_name(&reply("{\"band_name\":\"home\",\"status\":403}")), "");
    assert_eq!(band_name(&reply("{\"status\":200,\"band_name\":7}")), "");
    let io = receive(Framing::Stream, Err(TransportError::Io("broken pipe".to_string())));
    assert_eq!(band_name(&io), "failed to exchange: broken pipe");
    let slow = receive(Framing::Line, Err(TransportError::Timeout("10 s".to_string())));
    assert_eq!(band_name(&slow), "timed out: 10 s");
    assert_eq!(enrollment_count(&slow), -1);
    assert_eq!(band_name(&reply("[1,2]")), "reply is not a JSON object");
}

#[test]
fn pass_through_verbatim() {
    let r = reply("{ \"status\": 403, \"msg\": \"no\", \"list\": [1, 2], \"o\": {\"b\": null, \"a\": 1.5} }");
    assert_eq!(pass_through(&r), "{\"list\":[1,2],\"msg\":\"no\",\"o\":{\"a\":1.5,\"b\":null},\"status\":403}");
    let bad = reply("{\"ok\":true}");
    assert_eq!(pass_through(&bad), "{\"msg\":\"reply has no integer status\",\"status\":500}");
}

#[test]
fn decode_errors() {
    assert!(matches!(decode_reply("not json"), Err(ProtocolError::NotAnObject)));
    assert!(matches!(decode_reply("[1]"), Err(ProtocolError::NotAnObject)));
    assert!(matches!(decode_reply("{\"x\":1}"), Err(ProtocolError::NoStatus)));
    assert!(matches!(decode_reply("{\"status\":\"200\"}"), Err(ProtocolError::NoStatus)));
    assert!(matches!(decode_reply("{\"status\":200.0}"), Err(ProtocolError::NoStatus)));
    let ok = decode_reply("{\"status\":200,\"a\":null}").unwrap();
    assert_eq!(ok.status, 200);
    assert!(ok.is_ok());
    assert_eq!(ok.members.len(), 2);
    let refused = decode_reply("{\"status\":-3}").unwrap();
    assert_eq!(refused.status, -3);
    assert!(!refused.is_ok());
}

#[test]
fn line_framing_back_to_back() {
    let replies = ["{\"status\":200,\"enrollment_count\":1}", "{\"status\":200,\"enrollment_count\":2}"];
    for (i, r) in replies.iter().enumerate() {
        let received = format!("{}\n{}\n", r, "{\"status\":500}");
        let rep = receive(Framing::Line, Ok(received));
        assert_eq!(enrollment_count(&rep), i as i64 + 1);
    }
    assert_eq!(Framing::Line.unframe("abc\ndef\n"), "abc");
    assert_eq!(Framing::Line.unframe("abc"), "abc");
    assert_eq!(Framing::Line.unframe(""), "");
    assert_eq!(Framing::Stream.unframe("abc\ndef\n"), "abc\ndef\n");
    assert_eq!(Framing::Line.frame("x"), "x\n");
    assert_eq!(Framing::Stream.frame("x"), "x");
}

#[test]
fn stream_framing_whole_reply() {
    let rep = receive(Framing::Stream, Ok("{\"status\":200,\n\"tunnel_is_running\":true}\n".to_string()));
    assert!(tunnel_is_running(&rep));
    let cut = receive(Framing::Line, Ok("{\"status\":200,\n\"tunnel_is_running\":true}\n".to_string()));
    assert_eq!(enrollment_count(&cut), -1);
}

#[test]
fn integers_from_text() {
    assert_eq!(parse_i64("200"), Some(200));
    assert_eq!(parse_i64("0"), Some(0));
    assert_eq!(parse_i64("-5"), Some(-5));
    assert_eq!(parse_i64("9223372036854775807"), Some(i64::MAX));
    assert_eq!(parse_i64("-9223372036854775808"), Some(i64::MIN));
    assert_eq!(parse_i64("9223372036854775808"), None);
    assert_eq!(parse_i64("-9223372036854775809"), None);
    assert_eq!(parse_i64("18446744073709551615"), None);
    assert_eq!(parse_i64("1.5"), None);
    assert_eq!(parse_i64("1e3"), None);
    assert_eq!(parse_i64(""), None);
    assert_eq!(parse_i64("-"), None);
    assert_eq!(parse_i64("12a"), None);
}

#[test]
fn objects_written_and_parsed() {
    let v = vec![
        ("a".to_string(), Field::Null),
        ("b".to_string(), Field::Bool(false)),
        ("c".to_string(), Field::Number("12".to_string())),
        ("d".to_string(), Field::Text("q\"\\\u{1}".to_string())),
        ("e".to_string(), Field::Compound("[true]".to_string())),
    ];
    let text = write_object(&v);
    assert_eq!(text, "{\"a\":null,\"b\":false,\"c\":12,\"d\":\"q\\\"\\\\\\u0001\",\"e\":[true]}");
    let with_status = format!("{{\"status\":1,{}", &text[1..]);
    let back = decode_reply(&with_status).unwrap().members;
    assert_eq!(back.len(), 6);
    assert!(matches!(&back[3].1, Field::Text(s) if s == "q\"\\\u{1}"));
    assert!(matches!(&back[4].1, Field::Compound(s) if s == "[true]"));
    assert!(matches!(&back[2].1, Field::Number(s) if s == "12"));
    assert_eq!(write_object(&Vec::new()), "{}");
    assert!(matches!(decode_reply("{"), Err(ProtocolError::NotAnObject)));
}

fn same_args(a: &Option<Vec<(String, Field)>>, b: &Option<Vec<(String, Field)>>) -> bool {
    match (a, b) {
        (None, None) => true,
        (Some(x), Some(y)) => {
            x.len() == y.len()
                && x.iter().zip(y.iter()).all(|((k1, v1), (k2, v2))| {
                    k1 == k2
                        && match (v1, v2) {
                            (Field::Text(s1), Field::Text(s2)) => s1 == s2,
                            _ => false,
                        }
                })
        }
        _ => false,
    }
}

#[test]
fn decode_inverts_encode() {
    for c in all_commands() {
        let d = Command::decode(&c.encode()).unwrap();
        assert_eq!(d.name(), c.name());
        assert!(same_args(&d.args(), &c.args()));
    }
}

#[test]
fn decode_requests_written_elsewhere() {
    let d = Command::decode(
        "{ \"cmd\": \"enroll\", \"args\": {\"enrollment_token\": \"t\", \"device_name\": \"d\", \"enrollment_secret\": null} }",
    )
    .unwrap();
    match d {
        Command::Enroll { enrollment_token, device_name, enrollment_secret } => {
            assert_eq!(enrollment_token, "t");
            assert_eq!(device_name, "d");
            assert!(enrollment_secret.is_none());
        }
        _ => panic!("not an enroll command"),
    }
    assert!(matches!(Command::decode("{\"cmd\":\"tunnel_connect\"}"), Some(Command::TunnelConnect)));
    assert!(Command::decode("{\"cmd\":\"reboot\"}").is_none());
    assert!(Command::decode("{\"cmd\":\"unenroll\"}").is_none());
    assert!(Command::decode("{\"cmd\":\"unenroll\",\"args\":{\"band_uuid\":1}}").is_none());
    assert!(Command::decode("{\"cmd\":7}").is_none());
    assert!(Command::decode("tunnel_connect").is_none());
}
