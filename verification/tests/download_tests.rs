use e6viu::download::{DownloadProgress, StreamingDownloader};

#[test]
fn two_chunks_clamp_progress_but_not_content() {
    // Declared size 1000, but the server sends 600 + 500 = 1100 bytes:
    // progress reports [600, 1000]; the written content keeps all 1100.
    let chunks: Vec<Vec<u8>> = vec![vec![7u8; 600], vec![9u8; 500]];
    let (reports, content) = StreamingDownloader::consume_chunks(1000, &chunks);
    assert_eq!(reports, vec![600, 1000]);
    assert_eq!(content.len(), 1100);
    assert_eq!(&content[..600], &vec![7u8; 600][..]);
    assert_eq!(&content[600..], &vec![9u8; 500][..]);
}

#[test]
fn under_declared_size_progress_is_exact() {
    let chunks: Vec<Vec<u8>> = vec![vec![1u8; 10], vec![2u8; 20], vec![3u8; 30]];
    let (reports, content) = StreamingDownloader::consume_chunks(1000, &chunks);
    assert_eq!(reports, vec![10, 30, 60]);
    assert_eq!(content.len(), 60);
}

#[test]
fn zero_declared_size_reports_zero_but_keeps_bytes() {
    let chunks: Vec<Vec<u8>> = vec![vec![5u8; 8]];
    let (reports, content) = StreamingDownloader::consume_chunks(0, &chunks);
    assert_eq!(reports, vec![0]);
    assert_eq!(content, vec![5u8; 8]);
}

#[test]
fn no_chunks_no_reports_no_content() {
    let chunks: Vec<Vec<u8>> = Vec::new();
    let (reports, content) = StreamingDownloader::consume_chunks(1000, &chunks);
    assert!(reports.is_empty());
    assert!(content.is_empty());
}

#[test]
fn empty_chunks_repeat_the_same_progress() {
    let chunks: Vec<Vec<u8>> = vec![vec![], vec![4u8; 3], vec![]];
    let (reports, content) = StreamingDownloader::consume_chunks(10, &chunks);
    assert_eq!(reports, vec![0, 3, 3]);
    assert_eq!(content, vec![4u8, 4, 4]);
}

#[test]
fn record_clamps_and_never_decreases() {
    let mut p = DownloadProgress::new(100);
    assert_eq!(p.record(60), 60);
    assert_eq!(p.record(60), 100);
    assert_eq!(p.record(1), 100);
    assert_eq!(p.transferred, 100);
    assert_eq!(p.total, 100);
}

#[test]
fn record_with_huge_chunk_saturates_at_total() {
    let mut p = DownloadProgress::new(5);
    assert_eq!(p.record(u64::MAX), 5);
}
