use node_cache::{decide, param_text, Lookup, Method};

#[test]
fn address_parameters_are_lower_cased() {
    let mixed = "0xAbCdEf0123456789aBcDeF0123456789AbCdEf01";
    assert_eq!(param_text(Some(mixed), format!("\"{}\"", mixed)), "\"0xabcdef0123456789abcdef0123456789abcdef01\"");
    let bare = "ABCDEF0123456789ABCDEF0123456789ABCDEF01";
    assert_eq!(param_text(Some(bare), format!("\"{}\"", bare)), "\"0xabcdef0123456789abcdef0123456789abcdef01\"");
}

#[test]
fn hash_parameters_are_lower_cased() {
    let h = "0x00000000000000000000000000000000000000000000000000000000000000AA";
    assert_eq!(
        param_text(Some(h), format!("\"{}\"", h)),
        "\"0x00000000000000000000000000000000000000000000000000000000000000aa\""
    );
}

#[test]
fn other_parameters_keep_their_json() {
    assert_eq!(param_text(Some("latest"), "\"latest\"".to_string()), "\"latest\"");
    assert_eq!(param_text(Some("0x5"), "\"0x5\"".to_string()), "\"0x5\"");
    assert_eq!(param_text(None, "{\"a\":1}".to_string()), "{\"a\":1}");
    assert_eq!(param_text(None, "null".to_string()), "null");
}

#[test]
fn hex_of_the_wrong_length_keeps_its_json() {
    let short = "0xabcdef0123456789abcdef0123456789abcdef0";
    assert_eq!(param_text(Some(short), format!("\"{}\"", short)), format!("\"{}\"", short));
    let upper_prefix = "0XABCDEF0123456789ABCDEF0123456789ABCDEF01";
    assert_eq!(param_text(Some(upper_prefix), "x".to_string()), "\"0xabcdef0123456789abcdef0123456789abcdef01\"");
}

#[test]
fn decide_on_what_was_read() {
    assert!(matches!(decide(Method::Balance, true, Some("\"0x1\"".to_string())), Lookup::Hit(v) if v == "\"0x1\""));
    assert!(matches!(decide(Method::Balance, true, None), Lookup::Fetch));
    assert!(matches!(decide(Method::Balance, false, None), Lookup::Answer(v) if v == "\"0x0\""));
    assert!(matches!(decide(Method::BlockNumber, false, None), Lookup::Unavailable));
    assert!(matches!(decide(Method::ChainId, true, None), Lookup::Answer(v) if v == "\"0x1\""));
}
