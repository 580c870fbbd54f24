use leap::models::{
    DownloadStatus, RowError, Video, DOWNLOAD_STATUS_DOWNLOADED, DOWNLOAD_STATUS_FAILED,
    DOWNLOAD_STATUS_IN_PROGRESS, DOWNLOAD_STATUS_NOT_STARTED,
};

fn status_row(code: i64) -> (i64, i64, i64, String, Vec<u8>) {
    (1000, 250, code, "network unreachable".to_string(), b"/data/videos/a.mp4".to_vec())
}

#[test]
fn status_codes_have_their_values() {
    assert_eq!(DOWNLOAD_STATUS_NOT_STARTED, 0);
    assert_eq!(DOWNLOAD_STATUS_FAILED, 1);
    assert_eq!(DOWNLOAD_STATUS_IN_PROGRESS, 2);
    assert_eq!(DOWNLOAD_STATUS_DOWNLOADED, 3);
}

#[test]
fn pending_row_decodes() {
    assert_eq!(DownloadStatus::build(status_row(0)), Ok(DownloadStatus::Pending));
}

#[test]
fn failed_row_keeps_its_message() {
    assert_eq!(
        DownloadStatus::build(status_row(1)),
        Ok(DownloadStatus::Failed("network unreachable".to_string()))
    );
}

#[test]
fn in_progress_row_gives_downloaded_then_total() {
    assert_eq!(
        DownloadStatus::build(status_row(2)),
        Ok(DownloadStatus::InProgress((250, 1000)))
    );
}

#[test]
fn in_progress_negative_sizes_are_reinterpreted() {
    let row = (-1, -2, 2, String::new(), Vec::new());
    assert_eq!(
        DownloadStatus::build(row),
        Ok(DownloadStatus::InProgress((u64::MAX - 1, u64::MAX)))
    );
}

#[test]
fn downloaded_row_keeps_its_path() {
    assert_eq!(
        DownloadStatus::build(status_row(3)),
        Ok(DownloadStatus::Downloaded(b"/data/videos/a.mp4".to_vec()))
    );
}

#[test]
fn unknown_status_code_is_refused() {
    assert_eq!(DownloadStatus::build(status_row(4)), Err(RowError::InvalidDownloadStatus(4)));
    assert_eq!(DownloadStatus::build(status_row(-1)), Err(RowError::InvalidDownloadStatus(-1)));
}

#[test]
fn only_downloaded_status_is_downloaded() {
    assert!(!DownloadStatus::Pending.is_downloaded());
    assert!(!DownloadStatus::Failed(String::new()).is_downloaded());
    assert!(!DownloadStatus::InProgress((1, 2)).is_downloaded());
    assert!(DownloadStatus::Downloaded(b"x".to_vec()).is_downloaded());
    for code in 0..4 {
        let status = DownloadStatus::build(status_row(code)).unwrap();
        assert_eq!(status.is_downloaded(), code == DOWNLOAD_STATUS_DOWNLOADED);
    }
}

#[test]
fn clone_keeps_the_status() {
    let status = DownloadStatus::InProgress((3, 9));
    assert_eq!(status.clone(), status);
    let status = DownloadStatus::Downloaded(b"/a/b".to_vec());
    assert_eq!(status.clone(), status);
}

fn video_row(id: &str, code: i64, file_size: i64, view_count: i64) -> (String, String, i64, (i64, i64, i64, String, Vec<u8>), i64) {
    (id.to_string(), "Fractions".to_string(), file_size, status_row(code), view_count)
}

#[test]
fn video_row_decodes_with_parsed_uuid() {
    let video = Video::build(video_row("550e8400-e29b-41d4-a716-446655440000", 3, 1000, 7)).unwrap();
    assert_eq!(video.id, 0x550e8400e29b41d4a716446655440000);
    assert_eq!(video.name, "Fractions");
    assert_eq!(video.file_size, 1000);
    assert_eq!(video.download_status, DownloadStatus::Downloaded(b"/data/videos/a.mp4".to_vec()));
    assert_eq!(video.view_count, 7);
}

#[test]
fn video_row_accepts_simple_uuid_form() {
    let video = Video::build(video_row("550e8400e29b41d4a716446655440000", 0, 0, 0)).unwrap();
    assert_eq!(video.id, 0x550e8400e29b41d4a716446655440000);
    assert_eq!(video.download_status, DownloadStatus::Pending);
}

#[test]
fn video_row_with_bad_id_is_refused() {
    assert_eq!(
        Video::build(video_row("not-a-uuid", 0, 10, 0)),
        Err(RowError::InvalidId("not-a-uuid".to_string()))
    );
}

#[test]
fn video_row_with_negative_sizes_is_refused() {
    let id = "550e8400-e29b-41d4-a716-446655440000";
    assert_eq!(Video::build(video_row(id, 0, -5, 0)), Err(RowError::FileSizeOutOfRange(-5)));
    assert_eq!(Video::build(video_row(id, 0, 5, -1)), Err(RowError::ViewCountOutOfRange(-1)));
}

#[test]
fn video_row_status_error_comes_first() {
    assert_eq!(
        Video::build(video_row("bad", 9, -5, -1)),
        Err(RowError::InvalidDownloadStatus(9))
    );
}

#[test]
fn video_from_parsed_id_takes_the_given_id() {
    let video = Video::from_parsed_id(Some(42), video_row("ignored", 1, 3, 4)).unwrap();
    assert_eq!(video.id, 42);
    assert_eq!(video.download_status, DownloadStatus::Failed("network unreachable".to_string()));
    assert_eq!(
        Video::from_parsed_id(None, video_row("ignored", 1, 3, 4)),
        Err(RowError::InvalidId("ignored".to_string()))
    );
}

#[test]
fn video_id_of_wrong_length_is_refused() {
    assert_eq!(
        Video::build(video_row("550e8400-e29b-41d4-a716-44665544000", 2, 1, 1)),
        Err(RowError::InvalidId("550e8400-e29b-41d4-a716-44665544000".to_string()))
    );
}
