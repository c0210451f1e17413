use ocg_duel::buffer::{buffer_len, copy_buffer, copy_result};
use ocg_duel::ocg::OcgQueryInfo;
use ocg_duel::QueryInfo;

#[test]
fn test_get_message_duel() {
    // What the engine queues on its first step: a message of one record.
    let queued: [u8; 6] = [5, 0, 0, 0, 162, 1];
    let message = copy_buffer(&queued);
    assert!(!message.is_empty());
    assert_eq!(message, queued.to_vec());
}

#[test]
fn test_query_field_duel() {
    let field: [u8; 4] = [8, 0, 0, 0];
    assert!(copy_result(Some(&field[..])).is_some());
}

#[test]
fn test_query_location_duel() {
    let selector = OcgQueryInfo::from(QueryInfo::default());
    assert_eq!(selector, OcgQueryInfo { flags: 0, con: 0, loc: 0, seq: 0, overlay_seq: 0 });
    // A zone with no cards still gives a buffer: its length, and nothing else.
    let empty_zone: [u8; 4] = [0, 0, 0, 0];
    assert!(copy_result(Some(&empty_zone[..])).is_some());
}

#[test]
fn test_query_duel() {
    let selector = OcgQueryInfo::from(QueryInfo::default());
    assert_eq!(selector.loc, 0);
    // No card matches the selector: the engine gives no buffer.
    assert!(copy_result(None).is_none());
}

#[test]
fn copy_is_equal_and_independent() {
    let mut source = vec![1u8, 2, 3, 255, 0, 7];
    let copy = copy_buffer(&source);
    source[0] = 9;
    source.clear();
    assert_eq!(copy, vec![1u8, 2, 3, 255, 0, 7]);
}

#[test]
fn copy_of_nothing_is_empty() {
    assert_eq!(copy_buffer(&[]), Vec::<u8>::new());
    assert_eq!(copy_result(Some(&[][..])), Some(Vec::new()));
}

#[test]
fn copied_result_holds_the_bytes() {
    let found = [10u8, 20, 30];
    assert_eq!(copy_result(Some(&found[..])), Some(vec![10u8, 20, 30]));
}

#[test]
fn buffer_len_is_the_number_of_bytes() {
    assert_eq!(buffer_len(&[]), Some(0));
    assert_eq!(buffer_len(&[1, 2, 3]), Some(3));
    assert_eq!(buffer_len(&vec![0u8; 70_000]), Some(70_000));
}

#[test]
fn selector_goes_into_the_layout_field_by_field() {
    let info = QueryInfo { flags: 0x1801, con: 1, loc: 0x04, seq: 3, overlay_seq: 2 };
    assert_eq!(
        OcgQueryInfo::from(info),
        OcgQueryInfo { flags: 0x1801, con: 1, loc: 0x04, seq: 3, overlay_seq: 2 }
    );
}
