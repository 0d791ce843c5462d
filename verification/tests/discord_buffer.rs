use zeroai::channels::discord_buffer::MessageBuffer;

struct ArchiveMessage {
    id: String,
    channel_id: String,
    guild_id: String,
    author_id: String,
    author_name: String,
    content: String,
    timestamp: i64,
}

fn make_message(index: u32) -> ArchiveMessage {
    ArchiveMessage {
        id: format!("msg_{index}"),
        channel_id: "ch_1".to_string(),
        guild_id: "guild_1".to_string(),
        author_id: "author_1".to_string(),
        author_name: "zeroclaw_user".to_string(),
        content: format!("hello {index}"),
        timestamp: 1_700_000_000 + i64::from(index),
    }
}

#[test]
fn buffer_accumulates_below_capacity_without_flush_signal() {
    let mut buf = MessageBuffer::new(5);

    assert!(buf.is_empty());
    assert_eq!(buf.len(), 0);
    assert!(!buf.should_flush());

    for i in 0..4 {
        buf.push(make_message(i));
    }

    assert_eq!(buf.len(), 4);
    assert!(!buf.should_flush(), "should not signal flush below capacity");
}

#[test]
fn buffer_signals_flush_at_capacity() {
    let mut buf = MessageBuffer::new(3);

    buf.push(make_message(0));
    buf.push(make_message(1));
    assert!(!buf.should_flush(), "2 < 3, not yet at capacity");

    buf.push(make_message(2));
    assert!(buf.should_flush(), "3 == 3, should signal flush at capacity");
    assert_eq!(buf.len(), 3);

    buf.push(make_message(3));
    assert!(buf.should_flush(), "4 > 3, should still signal flush");
    assert_eq!(buf.len(), 4);
}

#[test]
fn drain_returns_messages_and_clears_buffer() {
    let mut buf = MessageBuffer::new(10);

    for i in 0..5 {
        buf.push(make_message(i));
    }
    assert_eq!(buf.len(), 5);

    let drained = buf.drain();

    assert_eq!(drained.len(), 5);
    assert_eq!(drained[0].id, "msg_0");
    assert_eq!(drained[4].id, "msg_4");
    assert_eq!(drained[4].content, "hello 4");
    assert_eq!(drained[0].timestamp, 1_700_000_000);
    assert!(drained.iter().all(|m| m.channel_id == "ch_1"
        && m.guild_id == "guild_1"
        && m.author_id == "author_1"
        && m.author_name == "zeroclaw_user"));

    assert!(buf.is_empty(), "buffer must be empty after drain");
    assert_eq!(buf.len(), 0);
    assert!(!buf.should_flush());
}
