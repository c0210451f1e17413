use ocg_duel::script::{check_script, find_nul, script_outcome};
use ocg_duel::DuelError;

#[test]
fn test_load_script_duel() {
    // The engine's answers are 0 for the script it cannot compile and 1 for
    // those it can.
    assert_eq!(check_script("invalid script", "invalid_script").ok(), Some(14));
    assert!(script_outcome(0, "invalid_script").is_err());
    assert_eq!(check_script("Debug.ReloadFieldEnd()", " ").ok(), Some(22));
    assert!(script_outcome(1, " ").is_ok());
    let constants = "CARD_CYBER_DRAGON = 70095154\nEFFECT_TYPE_FIELD = 0x2\nEFFECT_TYPE_CONTINUOUS = 0x800\nEVENT_STARTUP = 1000";
    assert_eq!(check_script(constants, "constants.lua").ok(), Some(constants.len() as u32));
    assert!(script_outcome(1, "constants.lua").is_ok());
    assert!(check_script("local s,id=GetID()", "c511005093.lua").is_ok());
    assert!(script_outcome(1, "c511005093.lua").is_ok());
}

#[test]
fn failed_script_is_reported_by_name() {
    match script_outcome(0, "name") {
        Err(DuelError::ScriptLoadFailure(name)) => assert_eq!(name, "name"),
        other => panic!("unexpected outcome: {:?}", other),
    }
}

#[test]
fn any_answer_but_zero_is_a_success() {
    assert!(script_outcome(1, "name").is_ok());
    assert!(script_outcome(-1, "name").is_ok());
    assert!(script_outcome(i32::MAX, "name").is_ok());
}

#[test]
fn nul_in_the_script_is_reported_with_its_index() {
    match check_script("ab\0cd\0", "name") {
        Err(DuelError::NulError(at)) => assert_eq!(at, 2),
        other => panic!("unexpected outcome: {:?}", other),
    }
}

#[test]
fn nul_in_the_name_is_reported_with_its_index() {
    match check_script("abcd", "\0name") {
        Err(DuelError::NulError(at)) => assert_eq!(at, 0),
        other => panic!("unexpected outcome: {:?}", other),
    }
}

#[test]
fn the_script_is_checked_before_the_name() {
    match check_script("abcd\0", "n\0") {
        Err(DuelError::NulError(at)) => assert_eq!(at, 4),
        other => panic!("unexpected outcome: {:?}", other),
    }
}

#[test]
fn length_is_counted_in_bytes() {
    assert_eq!(check_script("", "empty").ok(), Some(0));
    assert_eq!(check_script("-- \u{e9}t\u{e9}", "accents").ok(), Some(8));
}

#[test]
fn find_nul_gives_the_first_zero_byte() {
    assert_eq!(find_nul(b"abc"), None);
    assert_eq!(find_nul(b""), None);
    assert_eq!(find_nul(b"\0"), Some(0));
    assert_eq!(find_nul(b"ab\0c\0"), Some(2));
}
