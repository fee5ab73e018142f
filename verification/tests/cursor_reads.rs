use gstat_core::cursor::ByteCursor;

#[test]
fn new_cursor_starts_at_the_beginning() {
    let cursor = ByteCursor::new(vec![10, 20, 30]);
    assert_eq!(cursor.position(), 0);
    assert_eq!(cursor.remaining(), 3);
}

#[test]
fn read_byte_consumes_positionally() {
    let mut cursor = ByteCursor::new(vec![10, 20, 30]);
    assert_eq!(cursor.read_byte(), Some(10));
    assert_eq!(cursor.read_byte(), Some(20));
    assert_eq!(cursor.position(), 2);
    assert_eq!(cursor.remaining(), 1);
    assert_eq!(cursor.read_byte(), Some(30));
    assert_eq!(cursor.read_byte(), None);
    assert_eq!(cursor.position(), 3);
}

#[test]
fn read_byte_on_empty_buffer_returns_none() {
    let mut cursor = ByteCursor::new(vec![]);
    assert_eq!(cursor.read_byte(), None);
    assert_eq!(cursor.position(), 0);
    assert_eq!(cursor.remaining(), 0);
}

#[test]
fn read_bytes_returns_the_requested_slice() {
    let mut cursor = ByteCursor::new(vec![1, 2, 3, 4, 5]);
    assert_eq!(cursor.read_bytes(2), Some(vec![1, 2]));
    assert_eq!(cursor.read_bytes(3), Some(vec![3, 4, 5]));
    assert_eq!(cursor.remaining(), 0);
}

#[test]
fn read_bytes_of_zero_length_is_empty() {
    let mut cursor = ByteCursor::new(vec![1, 2]);
    assert_eq!(cursor.read_bytes(0), Some(vec![]));
    assert_eq!(cursor.position(), 0);
}

#[test]
fn read_bytes_past_the_end_leaves_the_cursor_unchanged() {
    let mut cursor = ByteCursor::new(vec![1, 2, 3]);
    assert_eq!(cursor.read_byte(), Some(1));
    assert_eq!(cursor.read_bytes(3), None);
    assert_eq!(cursor.position(), 1);
    assert_eq!(cursor.read_bytes(2), Some(vec![2, 3]));
}
