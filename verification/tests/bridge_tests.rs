use skyproxy::bridge::StreamBridge;
use skyproxy::ProxyError;

/// Drives one handle over the given chunk sequence with the given read
/// sizes, the way the I/O edge does: a fresh chunk is pulled only when
/// the carry-over buffer is empty, and the source reports end of stream
/// with an empty chunk once the chunks run out.
fn drive(chunks: &[Vec<u8>], sizes: &[usize]) -> Vec<u8> {
    let total: usize = chunks.iter().map(|c| c.len()).sum();
    let mut bridge = StreamBridge::new(total, false);
    let mut delivered: Vec<u8> = Vec::new();
    let mut next_chunk = 0usize;
    let mut size_idx = 0usize;
    loop {
        let want = sizes[size_idx % sizes.len()];
        size_idx += 1;
        let out = if bridge.needs_chunk() {
            let chunk = if next_chunk < chunks.len() {
                next_chunk += 1;
                chunks[next_chunk - 1].clone()
            } else {
                Vec::new()
            };
            bridge.read_with_chunk(chunk, want)
        } else {
            bridge.read_buffered(want)
        };
        assert!(out.len() <= want, "delivered more than requested");
        if out.is_empty() && next_chunk >= chunks.len() && bridge.needs_chunk() {
            break;
        }
        delivered.extend_from_slice(&out);
    }
    delivered
}

#[test]
fn total_bytes_preserved_across_irregular_chunks() {
    let chunks = vec![
        vec![1u8, 2, 3, 4, 5],
        vec![6u8],
        vec![],
        vec![7u8, 8, 9, 10, 11, 12, 13],
        vec![14u8, 15],
    ];
    let source: Vec<u8> = chunks.iter().flatten().copied().collect();
    for sizes in [
        vec![1usize],
        vec![2usize, 3],
        vec![7usize],
        vec![100usize],
        vec![4usize, 1, 2],
    ] {
        let delivered = drive(&chunks, &sizes);
        assert_eq!(delivered, source, "reads of sizes {:?} lost or reordered bytes", sizes);
    }
}

#[test]
fn empty_source_delivers_nothing() {
    let delivered = drive(&[], &[3]);
    assert_eq!(delivered, Vec::<u8>::new());
}

#[test]
fn end_of_stream_is_idempotent() {
    let mut bridge = StreamBridge::new(0, false);
    for _ in 0..3 {
        let out = bridge.read_with_chunk(Vec::new(), 8);
        assert!(out.is_empty());
        assert!(bridge.needs_chunk());
    }
}

#[test]
fn read_never_exceeds_request() {
    let mut bridge = StreamBridge::new(5, false);
    let out = bridge.read_with_chunk(vec![9u8, 8, 7, 6, 5], 2);
    assert_eq!(out, vec![9u8, 8]);
    let out = bridge.read_buffered(1);
    assert_eq!(out, vec![7u8]);
    let out = bridge.read_buffered(100);
    assert_eq!(out, vec![6u8, 5]);
    assert!(bridge.needs_chunk());
}

#[test]
fn declared_len_is_reported() {
    let bridge = StreamBridge::new(42, true);
    assert_eq!(bridge.len(), 42);
}

#[test]
fn reset_on_replayable_source_rewinds() {
    let mut bridge = StreamBridge::new(3, true);
    let out = bridge.read_with_chunk(vec![1u8, 2, 3], 2);
    assert_eq!(out, vec![1u8, 2]);
    assert!(bridge.reset().is_ok());
    assert!(bridge.needs_chunk());
    let out = bridge.read_with_chunk(vec![1u8, 2, 3], 3);
    assert_eq!(out, vec![1u8, 2, 3]);
}

#[test]
fn reset_on_unreplayable_source_fails_not_seekable() {
    let mut bridge = StreamBridge::new(3, false);
    let out = bridge.read_with_chunk(vec![1u8, 2, 3], 1);
    assert_eq!(out, vec![1u8]);
    let r = bridge.reset();
    assert!(matches!(r, Err(ProxyError::NotSeekable)));
    // no stale data: the carry-over is exactly where it was
    let out = bridge.read_buffered(5);
    assert_eq!(out, vec![2u8, 3]);
}

#[test]
fn cloned_handle_has_private_empty_carry() {
    let mut bridge = StreamBridge::new(4, false);
    let out = bridge.read_with_chunk(vec![1u8, 2, 3, 4], 1);
    assert_eq!(out, vec![1u8]);
    assert!(!bridge.needs_chunk());
    let clone = bridge.fresh_handle();
    // the clone starts with its own empty buffer: nothing already
    // delivered through the first handle is duplicated
    assert!(clone.needs_chunk());
    assert_eq!(clone.len(), bridge.len());
    // and the original's carry-over is untouched by the clone
    let out = bridge.read_buffered(10);
    assert_eq!(out, vec![2u8, 3, 4]);
}
