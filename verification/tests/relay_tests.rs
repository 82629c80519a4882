use pty_exec::relay::RelayBuffer;

#[test]
fn bytes_come_out_in_order() {
    let mut b = RelayBuffer::new(8);
    b.accept(&vec![1, 2, 3]);
    b.accept(&vec![4, 5]);
    assert_eq!(b.to_flush().clone(), vec![1, 2, 3, 4, 5]);
    b.flushed(2);
    assert_eq!(b.to_flush().clone(), vec![3, 4, 5]);
    b.accept(&vec![6]);
    b.flushed(4);
    assert_eq!(b.to_flush().clone(), Vec::<u8>::new());
}

#[test]
fn short_write_keeps_the_rest() {
    let mut b = RelayBuffer::new(4);
    b.accept(&vec![9, 8, 7, 6]);
    b.flushed(1);
    assert_eq!(b.to_flush().clone(), vec![8, 7, 6]);
    assert_eq!(b.space_left(), 1);
}

#[test]
fn backpressure_deregisters_full_and_empty_sides() {
    let mut b = RelayBuffer::new(2);
    assert!(b.wants_read());
    assert!(!b.wants_write());
    b.accept(&vec![1, 2]);
    assert!(!b.wants_read());
    assert!(b.wants_write());
    b.flushed(2);
    assert!(b.wants_read());
    assert!(!b.wants_write());
}

#[test]
fn eof_without_pending_bytes_finishes_the_direction() {
    let mut b = RelayBuffer::new(4);
    b.accept(&vec![1]);
    b.mark_read_eof();
    assert!(!b.wants_read());
    assert!(!b.finished());
    b.flushed(1);
    assert!(b.finished());
}

#[test]
fn write_error_finishes_the_direction_at_once() {
    let mut b = RelayBuffer::new(4);
    b.accept(&vec![1, 2]);
    b.mark_write_error();
    assert!(b.finished());
    assert!(!b.wants_write());
}
