use underbots::communication::buffer::CircularBuffer;
use underbots::communication::drain::{dump_step, take_last_step, Next, Polled};

#[test]
fn buffer_starts_empty() {
    let mut buffer: CircularBuffer<u32> = CircularBuffer::new(3);
    assert_eq!(buffer.len(), 0);
    assert!(buffer.as_slice().is_empty());
}

#[test]
fn buffer_keeps_the_latest_items() {
    let mut buffer: CircularBuffer<u32> = CircularBuffer::new(3);
    for i in 1..=5 {
        buffer.push(i);
    }
    assert_eq!(buffer.len(), 3);
    assert_eq!(buffer.as_slice(), &[3, 4, 5]);
    buffer.push(6);
    assert_eq!(buffer.as_slice(), &[4, 5, 6]);
    assert_eq!(buffer.len(), 3);
}

#[test]
fn buffer_below_capacity_keeps_everything() {
    let mut buffer: CircularBuffer<i8> = CircularBuffer::new(4);
    buffer.push(-1);
    buffer.push(-2);
    assert_eq!(buffer.len(), 2);
    assert_eq!(buffer.as_slice(), &[-1, -2]);
}

#[test]
fn buffer_of_capacity_one_keeps_the_last() {
    let mut buffer: CircularBuffer<char> = CircularBuffer::new(1);
    buffer.push('a');
    buffer.push('b');
    assert_eq!(buffer.as_slice(), &['b']);
}

#[test]
fn buffer_of_capacity_zero_is_never_full() {
    let mut buffer: CircularBuffer<u8> = CircularBuffer::new(0);
    buffer.push(1);
    buffer.push(2);
    buffer.push(3);
    assert_eq!(buffer.len(), 3);
    assert_eq!(buffer.as_slice(), &[1, 2, 3]);
}

#[test]
fn dump_keeps_every_message_in_order() {
    let mut data: Vec<u32> = vec![];
    assert_eq!(dump_step(&mut data, Polled::Message(1)), Next::PollAgain);
    assert_eq!(dump_step(&mut data, Polled::Message(2)), Next::PollAgain);
    assert_eq!(dump_step(&mut data, Polled::Message(3)), Next::PollAgain);
    assert_eq!(dump_step(&mut data, Polled::Empty), Next::Drained);
    assert_eq!(data, vec![1, 2, 3]);
}

#[test]
fn dump_fails_on_a_disconnected_channel() {
    let mut data: Vec<u32> = vec![9];
    assert_eq!(dump_step(&mut data, Polled::Disconnected), Next::Failed);
    assert_eq!(data, vec![9]);
}

#[test]
fn take_last_keeps_only_the_latest() {
    let mut data: Option<&str> = None;
    assert_eq!(take_last_step(&mut data, Polled::Empty), Next::Drained);
    assert_eq!(data, None);
    assert_eq!(take_last_step(&mut data, Polled::Message("a")), Next::PollAgain);
    assert_eq!(take_last_step(&mut data, Polled::Message("b")), Next::PollAgain);
    assert_eq!(take_last_step(&mut data, Polled::Empty), Next::Drained);
    assert_eq!(data, Some("b"));
    assert_eq!(take_last_step(&mut data, Polled::Disconnected), Next::Failed);
    assert_eq!(data, Some("b"));
}
