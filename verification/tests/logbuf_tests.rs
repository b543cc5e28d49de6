use rustfs_launcher::logbuf::LogBuffer;

fn assert_stamped(entry: &str, message: &str) {
    // "[HH:MM:SS] <message>"
    let chars: Vec<char> = entry.chars().collect();
    assert!(chars.len() == 11 + message.chars().count());
    assert_eq!(chars[0], '[');
    assert_eq!(chars[3], ':');
    assert_eq!(chars[6], ':');
    assert_eq!(chars[9], ']');
    assert_eq!(chars[10], ' ');
    for i in [1, 2, 4, 5, 7, 8] {
        assert!(chars[i].is_ascii_digit());
    }
    assert!(entry.ends_with(message));
}

#[test]
fn append_returns_stamped_entry() {
    let mut buf = LogBuffer::new(10);
    let entry = buf.append("hello world");
    assert_stamped(&entry, "hello world");
    assert_eq!(buf.len(), 1);
    assert_eq!(buf.snapshot(), vec![entry]);
}

#[test]
fn append_cleans_escape_sequences() {
    let mut buf = LogBuffer::new(10);
    let entry = buf.append("\x1b[31mred alert\x1b[0m");
    assert_stamped(&entry, "red alert");
}

#[test]
fn snapshot_preserves_insertion_order() {
    let mut buf = LogBuffer::new(10);
    let e1 = buf.append("first");
    let e2 = buf.append("second");
    let e3 = buf.append("third");
    assert_eq!(buf.snapshot(), vec![e1, e2, e3]);
}

#[test]
fn eviction_keeps_most_recent_in_order() {
    // Five appends into capacity three: exactly min(5, 3) entries remain,
    // and they are the three most recent, in their original order.
    let mut buf = LogBuffer::new(3);
    let mut entries = Vec::new();
    for msg in ["one", "two", "three", "four", "five"] {
        entries.push(buf.append(msg));
    }
    assert_eq!(buf.len(), 3);
    assert_eq!(buf.snapshot(), entries[2..].to_vec());
}

#[test]
fn fewer_appends_than_capacity_keeps_all() {
    let mut buf = LogBuffer::new(100);
    let mut entries = Vec::new();
    for i in 0..7 {
        entries.push(buf.append(&format!("line {}", i)));
    }
    assert_eq!(buf.len(), 7);
    assert_eq!(buf.snapshot(), entries);
}

#[test]
fn capacity_one_keeps_only_newest() {
    let mut buf = LogBuffer::new(1);
    buf.append("old");
    let newest = buf.append("new");
    assert_eq!(buf.snapshot(), vec![newest]);
}

#[test]
fn many_appends_never_exceed_capacity() {
    let mut buf = LogBuffer::new(100);
    for i in 0..1000 {
        buf.append(&format!("line {}", i));
        assert!(buf.len() <= 100);
    }
    assert_eq!(buf.len(), 100);
    let snap = buf.snapshot();
    assert!(snap[99].ends_with("line 999"));
    assert!(snap[0].ends_with("line 900"));
}
