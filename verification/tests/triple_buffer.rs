use nbody::TripleBuffer;

#[test]
fn new_reads_initial_state() {
    let buffer = TripleBuffer::new(41u64);
    assert_eq!(*buffer.get_read_buffer(), 41);
}

#[test]
fn new_write_slot_holds_initial_clone() {
    let mut buffer = TripleBuffer::new(vec![1, 2, 3]);
    assert_eq!(*buffer.get_write_buffer(), vec![1, 2, 3]);
}

#[test]
fn write_hidden_from_reader() {
    let mut buffer = TripleBuffer::new(1i32);
    *buffer.get_write_buffer() = 7;
    assert_eq!(*buffer.get_read_buffer(), 1);
    assert_eq!(*buffer.get_write_buffer(), 7);
}

#[test]
fn commit_alone_keeps_reader_on_old_slot() {
    let mut buffer = TripleBuffer::new(1i32);
    *buffer.get_write_buffer() = 7;
    buffer.commit();
    assert_eq!(*buffer.get_read_buffer(), 1);
}

#[test]
fn commit_then_swap_read_publishes() {
    let mut buffer = TripleBuffer::new(String::from("start"));
    buffer.get_write_buffer().push_str("-next");
    buffer.commit();
    buffer.swap_read();
    assert_eq!(buffer.get_read_buffer().as_str(), "start-next");
}

#[test]
fn commit_keeps_write_slot() {
    let mut buffer = TripleBuffer::new(vec![0u8]);
    buffer.get_write_buffer().push(5);
    buffer.commit();
    assert_eq!(*buffer.get_write_buffer(), vec![0, 5]);
}

#[test]
fn swap_read_twice_same_as_once() {
    let mut buffer = TripleBuffer::new(3u32);
    *buffer.get_write_buffer() = 4;
    buffer.commit();
    buffer.swap_read();
    let once = *buffer.get_read_buffer();
    buffer.swap_read();
    assert_eq!(*buffer.get_read_buffer(), once);
    assert_eq!(once, 4);
}

#[test]
fn swap_read_without_commit_shows_initial_state() {
    let mut buffer = TripleBuffer::new(9i64);
    *buffer.get_write_buffer() = -1;
    buffer.swap_read();
    assert_eq!(*buffer.get_read_buffer(), 9);
}

#[test]
fn commit_after_swap_read_reaches_reader() {
    let mut buffer = TripleBuffer::new(0i32);
    buffer.swap_read();
    *buffer.get_write_buffer() = 12;
    assert_eq!(*buffer.get_read_buffer(), 0);
    buffer.commit();
    assert_eq!(*buffer.get_read_buffer(), 12);
}

#[test]
fn later_write_after_publish_stays_hidden() {
    let mut buffer = TripleBuffer::new(0i32);
    *buffer.get_write_buffer() = 1;
    buffer.commit();
    buffer.swap_read();
    *buffer.get_write_buffer() = 2;
    assert_eq!(*buffer.get_read_buffer(), 1);
}

#[test]
fn commit_twice_same_as_once() {
    let mut buffer = TripleBuffer::new(vec![1u8]);
    buffer.get_write_buffer().push(2);
    buffer.commit();
    buffer.swap_read();
    let once = buffer.get_read_buffer().clone();
    buffer.commit();
    assert_eq!(*buffer.get_read_buffer(), once);
    assert_eq!(once, vec![1, 2]);
    assert_eq!(*buffer.get_write_buffer(), vec![1, 2]);
}
