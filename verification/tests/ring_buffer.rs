use tt_audio_lab::audio::ring_buffer::RingBuffer;

#[test]
fn pop_on_an_empty_buffer_gives_nothing() {
    let mut buffer: RingBuffer<u32> = RingBuffer::new(3);
    assert_eq!(buffer.pop(), None);
}

#[test]
fn items_leave_in_arrival_order() {
    let mut buffer: RingBuffer<u32> = RingBuffer::new(3);
    buffer.push(1);
    buffer.push(2);
    buffer.push(3);
    assert_eq!(buffer.pop(), Some(1));
    assert_eq!(buffer.pop(), Some(2));
    assert_eq!(buffer.pop(), Some(3));
    assert_eq!(buffer.pop(), None);
}

#[test]
fn a_full_buffer_overwrites_its_oldest_item() {
    let mut buffer: RingBuffer<u32> = RingBuffer::new(3);
    for item in 1..=5 {
        buffer.push(item);
    }
    assert_eq!(buffer.pop(), Some(3));
    assert_eq!(buffer.pop(), Some(4));
    assert_eq!(buffer.pop(), Some(5));
    assert_eq!(buffer.pop(), None);
}

#[test]
fn a_buffer_of_one_keeps_the_newest_item() {
    let mut buffer: RingBuffer<f32> = RingBuffer::new(1);
    buffer.push(0.5);
    buffer.push(0.75);
    assert_eq!(buffer.pop(), Some(0.75));
    assert_eq!(buffer.pop(), None);
}

#[test]
fn room_freed_by_pop_is_used_before_anything_is_dropped() {
    let mut buffer: RingBuffer<u32> = RingBuffer::new(2);
    buffer.push(1);
    buffer.push(2);
    assert_eq!(buffer.pop(), Some(1));
    buffer.push(3);
    assert_eq!(buffer.pop(), Some(2));
    assert_eq!(buffer.pop(), Some(3));
}

#[test]
fn a_buffer_made_for_nothing_never_fills() {
    let mut buffer: RingBuffer<u32> = RingBuffer::new(0);
    buffer.push(1);
    buffer.push(2);
    buffer.push(3);
    assert_eq!(buffer.pop(), Some(1));
    assert_eq!(buffer.pop(), Some(2));
    assert_eq!(buffer.pop(), Some(3));
    assert_eq!(buffer.pop(), None);
}

#[test]
fn the_default_buffer_is_empty_and_made_for_nothing() {
    let mut buffer: RingBuffer<String> = RingBuffer::default();
    assert_eq!(buffer.pop(), None);
    buffer.push("a".to_string());
    buffer.push("b".to_string());
    assert_eq!(buffer.pop(), Some("a".to_string()));
    assert_eq!(buffer.pop(), Some("b".to_string()));
}
