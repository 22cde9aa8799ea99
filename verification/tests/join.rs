use ezbrowsergameserver::join::{parse_join_target, JoinTarget};

#[test]
fn new_literal_selects_new() {
    assert!(matches!(parse_join_target(b"new"), JoinTarget::New));
}

#[test]
fn zero_selects_slot_zero() {
    assert!(matches!(parse_join_target(b"0"), JoinTarget::Slot(0)));
}

#[test]
fn lowercase_hex_parses() {
    assert!(matches!(parse_join_target(b"ff"), JoinTarget::Slot(255)));
    assert!(matches!(parse_join_target(b"a"), JoinTarget::Slot(10)));
    assert!(matches!(parse_join_target(b"10"), JoinTarget::Slot(16)));
}

#[test]
fn uppercase_and_mixed_hex_parse() {
    assert!(matches!(parse_join_target(b"FF"), JoinTarget::Slot(255)));
    assert!(matches!(
        parse_join_target(b"deadBEEF"),
        JoinTarget::Slot(0xdead_beef)
    ));
}

#[test]
fn empty_selector_is_invalid() {
    assert!(matches!(parse_join_target(b""), JoinTarget::Invalid));
}

#[test]
fn stray_characters_are_invalid() {
    assert!(matches!(parse_join_target(b"xyz"), JoinTarget::Invalid));
    assert!(matches!(parse_join_target(b"0x10"), JoinTarget::Invalid));
    assert!(matches!(parse_join_target(b" 1"), JoinTarget::Invalid));
    assert!(matches!(parse_join_target(b"+1"), JoinTarget::Invalid));
    assert!(matches!(parse_join_target(b"NEW"), JoinTarget::Invalid));
}

#[test]
fn largest_index_parses() {
    assert!(matches!(
        parse_join_target(b"ffffffffffffffff"),
        JoinTarget::Slot(usize::MAX)
    ));
}

#[test]
fn overflowing_index_is_invalid() {
    assert!(matches!(
        parse_join_target(b"1ffffffffffffffff"),
        JoinTarget::Invalid
    ));
}
