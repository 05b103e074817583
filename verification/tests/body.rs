use jwaf::body::{collect_body, BodyCollector};

#[test]
fn collector_starts_empty() {
    let collector = BodyCollector::new();
    assert_eq!(collector.len(), 0);
    assert_eq!(collector.finish(), Vec::<u8>::new());
}

#[test]
fn chunks_are_joined_in_order() {
    let mut collector = BodyCollector::new();
    collector.push_chunk(b"{\"mess");
    collector.push_chunk(b"");
    collector.push_chunk(b"age\":");
    collector.push_chunk(b"\"hi\"}");
    assert_eq!(collector.len(), 16);
    assert_eq!(collector.finish(), b"{\"message\":\"hi\"}".to_vec());
}

#[test]
fn collect_body_joins_all_chunks() {
    let chunks = vec![b"ab".to_vec(), vec![], b"c".to_vec(), b"def".to_vec()];
    assert_eq!(collect_body(&chunks), b"abcdef".to_vec());
    assert_eq!(collect_body(&Vec::new()), Vec::<u8>::new());
}
