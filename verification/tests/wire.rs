use ibrus::wire::{Mr, MrF, MrT, Ms, MsC, MsK, MsS, MsT};

#[test]
fn serialize_lifecycle_message() {
    let m = Ms::S(MsS("ok".to_string()));
    assert_eq!(m.to_string(), "S \"ok\"");
}

#[test]
fn serialize_key_message() {
    // key down: release bit clear -> trailing 1
    let m = Ms::K(MsK::new(0x61, 38, 0));
    assert_eq!(m.to_string(), "K [97,38,0,1]");
    // key up: release bit set -> trailing 0
    let m = Ms::K(MsK::new(0x61, 38, 0x4000_0000));
    assert_eq!(m.to_string(), "K [97,38,1073741824,0]");
}

#[test]
fn serialize_cursor_message() {
    let m = Ms::C(MsC::new(10, -20, 3, 4));
    assert_eq!(m.to_string(), "C [10,-20,3,4]");
}

#[test]
fn serialize_buffer_snapshot() {
    let m = Ms::T(MsT("nihao".to_string()));
    assert_eq!(m.to_string(), "T \"nihao\"");
}

#[test]
fn outbound_round_trip() {
    let messages = vec![
        Ms::S(MsS("focus_in".to_string())),
        Ms::S(MsS("".to_string())),
        Ms::K(MsK::new(0xff0d, 36, 0x4000_0001)),
        Ms::C(MsC::new(i32::MIN, i32::MAX, 0, -1)),
        Ms::T(MsT("with space \" quote \\ and \n newline".to_string())),
    ];
    for m in messages {
        let line = m.to_string();
        assert!(!line.contains('\n'));
        assert_eq!(Ms::parse(&line), Some(m));
    }
}

#[test]
fn inbound_round_trip() {
    let messages = vec![
        Mr::T(MrT("你好".to_string())),
        Mr::T(MrT("a b".to_string())),
        Mr::F(MrF(0)),
        Mr::F(MrF(-3)),
        Mr::F(MrF(i32::MAX)),
    ];
    for m in messages {
        let line = m.to_string();
        assert_eq!(Mr::from(line), Some(m));
    }
}

#[test]
fn parse_commit_text() {
    assert_eq!(
        Mr::from("t \"hello\"".to_string()),
        Some(Mr::T(MrT("hello".to_string())))
    );
    // escapes are decoded, not handed through
    assert_eq!(
        Mr::from("t \"a\\nb\"".to_string()),
        Some(Mr::T(MrT("a\nb".to_string())))
    );
}

#[test]
fn parse_feedback_code() {
    assert_eq!(Mr::from("f 2".to_string()), Some(Mr::F(MrF(2))));
    assert_eq!(Mr::from("f -1".to_string()), Some(Mr::F(MrF(-1))));
}

#[test]
fn parse_rejects_malformed_lines() {
    assert_eq!(Mr::from("".to_string()), None);
    assert_eq!(Mr::from("t".to_string()), None);
    assert_eq!(Mr::from("f2".to_string()), None);
    assert_eq!(Mr::from("x \"hello\"".to_string()), None);
    assert_eq!(Mr::from("t nojson".to_string()), None);
    assert_eq!(Mr::from("f 1.5".to_string()), None);
    assert_eq!(Mr::from("f \"text\"".to_string()), None);
    assert_eq!(Ms::parse(""), None);
    assert_eq!(Ms::parse("K"), None);
    assert_eq!(Ms::parse("K [1,2"), None);
    assert_eq!(Ms::parse("K [1,-2,3,4]"), None);
    assert_eq!(Ms::parse("Z \"x\""), None);
}

#[test]
fn key_payload_layout() {
    let k = MsK::new(1, 2, 3, );
    // state 3 has the release bit clear, so the event counts as a key press
    assert_eq!(k.0, vec![1, 2, 3, 1]);
    let c = MsC::new(-1, -2, -3, -4);
    assert_eq!(c.0, vec![-1, -2, -3, -4]);
}
