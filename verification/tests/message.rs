use portapi::message::{DeserializeError, Message, ParseError, Payload};

#[derive(Debug, PartialEq)]
struct Test {
    a: i64,
    s: String,
}

impl<'de> serde::Deserialize<'de> for Test {
    fn deserialize<D: serde::Deserializer<'de>>(deserializer: D) -> Result<Self, D::Error> {
        let value = <serde_json::Value as serde::Deserialize>::deserialize(deserializer)?;
        let a = value
            .get("a")
            .and_then(|a| a.as_i64())
            .ok_or_else(|| <D::Error as serde::de::Error>::missing_field("a"))?;
        let s = value
            .get("s")
            .and_then(|s| s.as_str())
            .ok_or_else(|| <D::Error as serde::de::Error>::missing_field("s"))?;
        Ok(Test { a, s: s.to_string() })
    }
}

#[test]
fn payload_to_string() {
    let p = Payload::JSON("{}".to_string());
    assert_eq!(p.to_string(), "J{}");

    let p = Payload::UNKNOWN("some unknown content".to_string());
    assert_eq!(p.to_string(), "some unknown content");
}

#[test]
fn payload_from_string() {
    let p: Payload = "J{}".to_string().into();
    assert_eq!(p, Payload::JSON("{}".to_string()));

    let p: Payload = "some unknown content".to_string().into();
    assert_eq!(p, Payload::UNKNOWN("some unknown content".to_string()));
}

#[test]
fn payload_parse() {
    let p: Payload = "J{\"a\": 100, \"s\": \"string\"}".to_string().into();

    let t: Test = p
        .parse(|blob| serde_json::from_str(blob))
        .expect("Expected payload parsing to work");

    assert_eq!(
        t,
        Test {
            a: 100,
            s: "string".to_string(),
        }
    );
}

#[test]
fn parse_message() {
    let m = "10|insert|some:key|J{}"
        .parse::<Message>()
        .expect("Expected message to parse");

    assert_eq!(
        m,
        Message {
            id: 10,
            cmd: "insert".to_string(),
            key: Some("some:key".to_string()),
            payload: Some(Payload::JSON("{}".to_string())),
        }
    );

    let m = "1|done".parse::<Message>().expect("Expected message to parse");

    assert_eq!(
        m,
        Message {
            id: 1,
            cmd: "done".to_string(),
            key: None,
            payload: None
        }
    );

    let m = "".parse::<Message>().expect_err("Expected parsing to fail");
    if let DeserializeError::InvalidID = m {
    } else {
        panic!("unexpected error value: {}", m.to_string())
    }

    let m = "1".parse::<Message>().expect_err("Expected parsing to fail");

    if let DeserializeError::MissingCommand = m {
    } else {
        panic!("unexpected error value: {}", m.to_string())
    }
}

#[test]
fn payload_parse_of_unknown_content_fails() {
    let p = Payload::UNKNOWN("{\"a\": 1}".to_string());
    let r: Result<Test, ParseError> = p.parse(|blob| serde_json::from_str(blob));
    assert!(matches!(r, Err(ParseError::UNKNOWN)));
}

#[test]
fn payload_parse_reports_the_parser_error() {
    let p = Payload::JSON("{\"a\": ".to_string());
    let r: Result<Test, ParseError> = p.parse(|blob| serde_json::from_str(blob));
    assert!(matches!(r, Err(ParseError::JSON(_))));
}

#[test]
fn message_to_line_has_two_three_or_four_fields() {
    let m = Message {
        id: 7,
        cmd: "cancel".to_string(),
        key: None,
        payload: None,
    };
    assert_eq!(String::from(m), "7|cancel");

    let m = Message {
        id: 12,
        cmd: "get".to_string(),
        key: Some("config:spn/enable".to_string()),
        payload: None,
    };
    assert_eq!(String::from(m), "12|get|config:spn/enable");

    let m = Message {
        id: 10,
        cmd: "insert".to_string(),
        key: Some("some:key".to_string()),
        payload: Some(Payload::JSON("{}".to_string())),
    };
    let line: String = m.into();
    assert_eq!(line, "10|insert|some:key|J{}");
}

#[test]
fn message_to_line_writes_the_largest_id() {
    let m = Message {
        id: usize::MAX,
        cmd: "done".to_string(),
        key: None,
        payload: None,
    };
    assert_eq!(String::from(m), format!("{}|done", usize::MAX));
    let m = Message {
        id: 0,
        cmd: "done".to_string(),
        key: None,
        payload: None,
    };
    assert_eq!(String::from(m), "0|done");
}

#[test]
fn message_round_trip() {
    let messages = vec![
        Message {
            id: 0,
            cmd: "success".to_string(),
            key: None,
            payload: None,
        },
        Message {
            id: 4711,
            cmd: "qsub".to_string(),
            key: Some("query runtime:subsystems/".to_string()),
            payload: None,
        },
        Message {
            id: 90210,
            cmd: "upd".to_string(),
            key: Some("core:status".to_string()),
            payload: Some(Payload::JSON("{\"a\": [1, 2], \"b\": \"x\"}".to_string())),
        },
        Message {
            id: 3,
            cmd: "new".to_string(),
            key: Some("".to_string()),
            payload: Some(Payload::UNKNOWN("".to_string())),
        },
        Message {
            id: 5,
            cmd: "".to_string(),
            key: Some("k".to_string()),
            payload: Some(Payload::UNKNOWN("opaque bytes".to_string())),
        },
        Message {
            id: 1,
            cmd: "ok".to_string(),
            key: Some("k".to_string()),
            payload: Some(Payload::JSON("{\"a\":\"x|y\"}".to_string())),
        },
        Message {
            id: 6,
            cmd: "upd".to_string(),
            key: Some("".to_string()),
            payload: Some(Payload::UNKNOWN("|a||b|".to_string())),
        },
        Message {
            id: 7,
            cmd: "new".to_string(),
            key: Some("k".to_string()),
            payload: Some(Payload::JSON("|".to_string())),
        },
    ];
    for m in messages {
        let line = String::from(m.clone());
        assert_eq!(line.parse::<Message>().expect("a written line is read"), m);
    }
}

#[test]
fn message_with_payload_and_no_key_is_not_representable() {
    let m = Message {
        id: 1,
        cmd: "ok".to_string(),
        key: None,
        payload: Some(Payload::JSON("{}".to_string())),
    };
    let read = String::from(m.clone()).parse::<Message>().unwrap();
    assert_ne!(read, m);
    assert_eq!(
        read,
        Message {
            id: 1,
            cmd: "ok".to_string(),
            key: Some("J{}".to_string()),
            payload: None,
        }
    );
}

#[test]
fn message_with_a_delimiter_in_its_key_or_command_does_not_come_back() {
    let m = Message {
        id: 1,
        cmd: "ok".to_string(),
        key: Some("a|b".to_string()),
        payload: None,
    };
    let read = String::from(m.clone()).parse::<Message>().unwrap();
    assert_eq!(
        read,
        Message {
            id: 1,
            cmd: "ok".to_string(),
            key: Some("a".to_string()),
            payload: Some(Payload::UNKNOWN("b".to_string())),
        }
    );
    let m = Message {
        id: 1,
        cmd: "o|k".to_string(),
        key: Some("a".to_string()),
        payload: Some(Payload::JSON("{}".to_string())),
    };
    let read = String::from(m.clone()).parse::<Message>().unwrap();
    assert_eq!(
        read,
        Message {
            id: 1,
            cmd: "o".to_string(),
            key: Some("k".to_string()),
            payload: Some(Payload::UNKNOWN("a|J{}".to_string())),
        }
    );
}

#[test]
fn parse_line_with_four_fields() {
    let m: Message = "10|insert|some:key|J{}".parse().unwrap();
    assert_eq!(m.id, 10);
    assert_eq!(m.cmd, "insert");
    assert_eq!(m.key, Some("some:key".to_string()));
    assert_eq!(m.payload, Some(Payload::JSON("{}".to_string())));
}

#[test]
fn parse_line_with_two_fields() {
    let m: Message = "1|done".parse().unwrap();
    assert_eq!(
        m,
        Message {
            id: 1,
            cmd: "done".to_string(),
            key: None,
            payload: None
        }
    );
}

#[test]
fn parse_line_without_id_or_command() {
    assert!(matches!(
        "".parse::<Message>(),
        Err(DeserializeError::InvalidID)
    ));
    assert!(matches!(
        "1".parse::<Message>(),
        Err(DeserializeError::MissingCommand)
    ));
}

#[test]
fn parse_judges_the_id_before_the_command() {
    assert!(matches!(
        "x".parse::<Message>(),
        Err(DeserializeError::InvalidID)
    ));
    assert!(matches!(
        "|get|k".parse::<Message>(),
        Err(DeserializeError::InvalidID)
    ));
    assert!(matches!(
        "-1|get|k".parse::<Message>(),
        Err(DeserializeError::InvalidID)
    ));
    assert!(matches!(
        "1 |get|k".parse::<Message>(),
        Err(DeserializeError::InvalidID)
    ));
    assert!(matches!(
        "+|get|k".parse::<Message>(),
        Err(DeserializeError::InvalidID)
    ));
    assert!(matches!(
        "1_0|get|k".parse::<Message>(),
        Err(DeserializeError::InvalidID)
    ));
}

#[test]
fn parse_reads_ids_as_the_standard_library_does() {
    for text in ["0", "007", "+15", "18446744073709551615", "18446744073709551616", "99999999999999999999999", "١٢", "0x10", "", "+", "++1", " 1", "1 "] {
        let line = format!("{}|done", text);
        let read = line.parse::<Message>();
        match text.parse::<usize>() {
            Ok(id) => assert_eq!(read.expect("a valid id is read").id, id),
            Err(_) => assert!(matches!(read, Err(DeserializeError::InvalidID))),
        }
    }
}

#[test]
fn parse_keeps_empty_fields() {
    let m: Message = "2|".parse().unwrap();
    assert_eq!(
        m,
        Message {
            id: 2,
            cmd: "".to_string(),
            key: None,
            payload: None
        }
    );
    let m: Message = "2|ok||".parse().unwrap();
    assert_eq!(
        m,
        Message {
            id: 2,
            cmd: "ok".to_string(),
            key: Some("".to_string()),
            payload: Some(Payload::UNKNOWN("".to_string())),
        }
    );
}

#[test]
fn parse_keeps_the_delimiters_of_the_payload() {
    let m: Message = "2|ok|k|Ja|b|c".parse().unwrap();
    assert_eq!(
        m,
        Message {
            id: 2,
            cmd: "ok".to_string(),
            key: Some("k".to_string()),
            payload: Some(Payload::JSON("a|b|c".to_string())),
        }
    );
    let m: Message = "1|ok|k|J{\"a\":\"x|y\"}".parse().unwrap();
    assert_eq!(
        m,
        Message {
            id: 1,
            cmd: "ok".to_string(),
            key: Some("k".to_string()),
            payload: Some(Payload::JSON("{\"a\":\"x|y\"}".to_string())),
        }
    );
    assert_eq!(String::from(m), "1|ok|k|J{\"a\":\"x|y\"}");
    let m: Message = "3|new|k|||".parse().unwrap();
    assert_eq!(m.payload, Some(Payload::UNKNOWN("||".to_string())));
    let m: Message = "3|new|k||J".parse().unwrap();
    assert_eq!(m.payload, Some(Payload::UNKNOWN("|J".to_string())));
    let m: Message = "3|new|k|J|".parse().unwrap();
    assert_eq!(m.payload, Some(Payload::JSON("|".to_string())));
}

#[test]
fn parse_cuts_a_line_into_four_fields_at_most() {
    for line in [
        "7",
        "7|",
        "7|cmd",
        "7|cmd|",
        "7|cmd|key",
        "7|cmd|key|",
        "7|cmd|key|payload",
        "7|cmd|key|pay|load",
        "7|cmd|key||",
        "7||||||",
        "7|cmd|key|J{\"a\": \"|\"}|",
    ] {
        let fields: Vec<&str> = line.splitn(4, '|').collect();
        let read = line.parse::<Message>();
        if fields.len() < 2 {
            assert!(matches!(read, Err(DeserializeError::MissingCommand)));
            continue;
        }
        let m = read.expect("a line with an id and a command is read");
        assert_eq!(m.id, 7);
        assert_eq!(m.cmd, fields[1]);
        assert_eq!(m.key.as_deref(), fields.get(2).copied());
        assert_eq!(m.payload.as_ref().map(|p| p.to_string()), fields.get(3).map(|f| f.to_string()));
        assert_eq!(String::from(m), line);
    }
}

#[test]
fn parse_reads_text_beyond_ascii() {
    let m: Message = "8|upd|schlüssel:ключ|Jپیام".parse().unwrap();
    assert_eq!(
        m,
        Message {
            id: 8,
            cmd: "upd".to_string(),
            key: Some("schlüssel:ключ".to_string()),
            payload: Some(Payload::JSON("پیام".to_string())),
        }
    );
    assert_eq!(String::from(m), "8|upd|schlüssel:ключ|Jپیام");
}

#[test]
fn payload_round_trip() {
    for p in [
        Payload::JSON("{}".to_string()),
        Payload::JSON("".to_string()),
        Payload::JSON("J".to_string()),
        Payload::UNKNOWN("".to_string()),
        Payload::UNKNOWN("some unknown content".to_string()),
        Payload::UNKNOWN("jlower".to_string()),
    ] {
        assert_eq!(Payload::from(p.to_string()), p);
    }
}

#[test]
fn payload_of_unknown_content_that_starts_with_the_mark_comes_back_as_json() {
    let p = Payload::UNKNOWN("Jabc".to_string());
    assert_eq!(Payload::from(p.to_string()), Payload::JSON("abc".to_string()));
}

#[test]
fn payload_text_is_kept() {
    for text in ["", "J", "J{}", "JJ", "x", "some unknown content", "Ünïcode", "J\u{1F600}"] {
        let p = Payload::from(text.to_string());
        assert_eq!(p.to_string(), text);
    }
}

#[test]
fn payload_from_empty_text() {
    assert_eq!(Payload::from(String::new()), Payload::UNKNOWN(String::new()));
    assert_eq!(Payload::from("J".to_string()), Payload::JSON(String::new()));
}

#[test]
fn deserialize_error_descriptions() {
    assert_eq!(DeserializeError::InvalidID.to_string(), "invalid id");
    assert_eq!(DeserializeError::MissingID.to_string(), "missing id");
    assert_eq!(DeserializeError::MissingCommand.to_string(), "missing command");
    assert_eq!(DeserializeError::MissingKey.to_string(), "missing key");
    assert_eq!(DeserializeError::MissingPayload.to_string(), "missing payload");
    assert_eq!(DeserializeError::UnknownCommand.to_string(), "unknown command");
    let err = serde_json::from_str::<serde_json::Value>("{").unwrap_err();
    let text = err.to_string();
    assert_eq!(
        DeserializeError::InvalidPayload(err).to_string(),
        format!("invalid payload: {}", text)
    );
}

#[test]
fn parse_error_from_json_error() {
    let err = serde_json::from_str::<serde_json::Value>("[1,").unwrap_err();
    let text = err.to_string();
    match ParseError::from(err) {
        ParseError::JSON(inner) => assert_eq!(inner.to_string(), text),
        ParseError::UNKNOWN => panic!("a parser error stays one"),
    }
}
