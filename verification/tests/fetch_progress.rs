use ffmpeg_setup::fetch::FetchError;
use ffmpeg_setup::fetch::TransferProgress;
use ffmpeg_setup::fetch::check_status;
use ffmpeg_setup::fetch::store_body;

#[test]
fn success_statuses_pass() {
    assert!(check_status(200).is_ok());
    assert!(check_status(206).is_ok());
    assert!(check_status(299).is_ok());
}

#[test]
fn failure_statuses_are_network_errors() {
    assert_eq!(check_status(199), Err(FetchError::Network));
    assert_eq!(check_status(300), Err(FetchError::Network));
    assert_eq!(check_status(404), Err(FetchError::Network));
    assert_eq!(check_status(500), Err(FetchError::Network));
}

#[test]
fn stored_bytes_match_declared_length() {
    // A simulated response with a known byte length: the bytes written equal
    // the declared content length, and the progress increments sum to it.
    let chunks = vec![b"hel".to_vec(), b"lo ".to_vec(), b"world".to_vec()];
    let declared: u64 = 11;
    let mut progress = TransferProgress::new(Some(declared));
    let out = store_body(&chunks, &mut progress);
    assert_eq!(out, b"hello world".to_vec());
    assert_eq!(out.len() as u64, declared);
    assert_eq!(progress.transferred, declared);
    assert!(progress.reached_declared_total());
}

#[test]
fn empty_body_transfers_nothing() {
    let chunks: Vec<Vec<u8>> = Vec::new();
    let mut progress = TransferProgress::new(Some(0));
    let out = store_body(&chunks, &mut progress);
    assert!(out.is_empty());
    assert_eq!(progress.transferred, 0);
    assert!(progress.reached_declared_total());
}

#[test]
fn unknown_length_reports_transferred_only() {
    let chunks = vec![b"abc".to_vec(), b"de".to_vec()];
    let mut progress = TransferProgress::new(None);
    let out = store_body(&chunks, &mut progress);
    assert_eq!(out, b"abcde".to_vec());
    assert_eq!(progress.transferred, 5);
    assert!(!progress.reached_declared_total());
}

#[test]
fn chunks_accumulate_one_by_one() {
    let mut progress = TransferProgress::new(Some(10));
    progress.record_chunk(4);
    assert_eq!(progress.transferred, 4);
    assert!(!progress.reached_declared_total());
    progress.record_chunk(6);
    assert_eq!(progress.transferred, 10);
    assert!(progress.reached_declared_total());
}
