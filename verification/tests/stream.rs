#![allow(unused_imports)]
use mtp_rs::mtp::{DownloadStream, Progress};

#[test]
fn test_progress_debug_and_clone() {
    let p = Progress {
        bytes_transferred: 50,
        total_bytes: Some(100),
    };
    let _ = format!("{:?}", p);
    let p2 = p.clone();
    assert_eq!(p.bytes_transferred, p2.bytes_transferred);
    assert_eq!(p.total_bytes, p2.total_bytes);
}

#[test]
fn test_download_stream() {
    let data = vec![1, 2, 3, 4, 5];
    let stream = DownloadStream::new(data.clone());

    assert_eq!(stream.total_size(), 5);

    let collected = stream.into_data();
    assert_eq!(collected, data);
}

#[test]
fn test_download_stream_chunks() {
    // Data larger than the chunk size, to test chunking.
    let data: Vec<u8> = (0..200_000u32).map(|i| (i % 256) as u8).collect();
    let expected_data = data.clone();
    let mut stream = DownloadStream::new(data);

    let mut chunks = Vec::new();
    while let Some(chunk) = stream.next_chunk() {
        chunks.push(chunk);
    }

    // Should have multiple chunks
    assert!(chunks.len() > 1);

    // bytes_so_far increases
    let mut prev_bytes = 0;
    for (_, so_far) in &chunks {
        assert!(*so_far > prev_bytes);
        prev_bytes = *so_far;
    }

    // The last chunk has all bytes
    assert_eq!(chunks.last().unwrap().1, expected_data.len() as u64);

    // The chunks run together to the data
    let collected: Vec<u8> = chunks.iter().flat_map(|c| c.0.iter().copied()).collect();
    assert_eq!(collected, expected_data);
}

#[test]
fn test_download_stream_empty() {
    let stream = DownloadStream::new(vec![]);
    assert_eq!(stream.total_size(), 0);
    let collected = stream.into_data();
    assert!(collected.is_empty());
}
