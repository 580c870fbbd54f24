//! Models of the video table of the LEAP database.
//!
//! A row of the table holds, besides the video's id, name and view count,
//! five columns that together give the [`DownloadStatus`] of the video: the
//! file size, the downloaded size, a status code, an error message and the
//! path of the downloaded file. This module decodes such rows.
use vstd::prelude::*;

verus! {

/// Status code of a video whose download has not started yet.
pub const DOWNLOAD_STATUS_NOT_STARTED: i64 = 0;

/// Status code of a video whose download failed.
pub const DOWNLOAD_STATUS_FAILED: i64 = 1;

/// Status code of a video whose download is in progress.
pub const DOWNLOAD_STATUS_IN_PROGRESS: i64 = 2;

/// Status code of a video that is downloaded.
pub const DOWNLOAD_STATUS_DOWNLOADED: i64 = 3;

/// Represents the current download status of a video.
#[derive(Debug, PartialEq, Eq)]
pub enum DownloadStatus {
    /// The download has not started yet.
    Pending,
    /// The download failed with the specified error message.
    Failed(String),
    /// The download is in progress, with the current amount of bytes downloaded and total bytes.
    InProgress((u64, u64)),
    /// The download is completed and the file is located at the specified path,
    /// given by the bytes of the path as the operating system stores them.
    Downloaded(Vec<u8>),
}

/// The status columns of a row of the video table, in this order: file size,
/// downloaded size, status code, error message, and file path.
pub type StatusRow = (i64, i64, i64, String, Vec<u8>);

/// A row of the video table, in this order: id, name, file size, status
/// columns, and view count.
pub type VideoRow = (String, String, i64, StatusRow, i64);

/// Why a row of the video table could not be decoded.
#[derive(Debug, Clone, PartialEq, Eq)]
pub enum RowError {
    /// The status code is none of the four known codes.
    InvalidDownloadStatus(i64),
    /// The id column does not hold a UUID.
    InvalidId(String),
    /// The file size column holds a negative number.
    FileSizeOutOfRange(i64),
    /// The view count column holds a negative number.
    ViewCountOutOfRange(i64),
}

/// The download status that the status columns `row` stand for.
pub open spec fn spec_download_status(row: StatusRow) -> Result<DownloadStatus, RowError> {
    let code: i64 = row.2;
    if code == DOWNLOAD_STATUS_NOT_STARTED {
        Ok(DownloadStatus::Pending)
    } else if code == DOWNLOAD_STATUS_FAILED {
        Ok(DownloadStatus::Failed(row.3))
    } else if code == DOWNLOAD_STATUS_IN_PROGRESS {
        Ok(DownloadStatus::InProgress((row.1 as u64, row.0 as u64)))
    } else if code == DOWNLOAD_STATUS_DOWNLOADED {
        Ok(DownloadStatus::Downloaded(row.4))
    } else {
        Err(RowError::InvalidDownloadStatus(code))
    }
}

/// Whether two download statuses hold the same variant with the same contents.
pub open spec fn same_status(a: DownloadStatus, b: DownloadStatus) -> bool {
    match (a, b) {
        (DownloadStatus::Pending, DownloadStatus::Pending) => true,
        (DownloadStatus::Failed(x), DownloadStatus::Failed(y)) => x@ == y@,
        (DownloadStatus::InProgress(x), DownloadStatus::InProgress(y)) => x == y,
        (DownloadStatus::Downloaded(x), DownloadStatus::Downloaded(y)) => x@ == y@,
        _ => false,
    }
}

impl Clone for DownloadStatus {
    fn clone(&self) -> (r: Self)
        ensures
            same_status(*self, r),
    {
        match self {
            DownloadStatus::Pending => DownloadStatus::Pending,
            DownloadStatus::Failed(message) => DownloadStatus::Failed(message.clone()),
            DownloadStatus::InProgress((downloaded, total)) => DownloadStatus::InProgress(
                (*downloaded, *total),
            ),
            DownloadStatus::Downloaded(path) => DownloadStatus::Downloaded(path.clone()),
        }
    }
}

impl DownloadStatus {
    /// Whether the video is downloaded.
    pub fn is_downloaded(&self) -> (r: bool)
        ensures
            r == (*self is Downloaded),
    {
        match self {
            DownloadStatus::Downloaded(_) => true,
            _ => false,
        }
    }

    /// Decodes the status columns of a row of the video table.
    ///
    /// The sizes of a download in progress are taken as the database stores
    /// them, reinterpreted as unsigned numbers.
    pub fn build(row: StatusRow) -> (r: Result<DownloadStatus, RowError>)
        ensures
            r == spec_download_status(row),
            row.2 == DOWNLOAD_STATUS_NOT_STARTED ==> r == Ok::<DownloadStatus, RowError>(
                DownloadStatus::Pending,
            ),
            row.2 == DOWNLOAD_STATUS_FAILED ==> r == Ok::<DownloadStatus, RowError>(
                DownloadStatus::Failed(row.3),
            ),
            row.2 == DOWNLOAD_STATUS_IN_PROGRESS ==> r == Ok::<DownloadStatus, RowError>(
                DownloadStatus::InProgress((row.1 as u64, row.0 as u64)),
            ),
            row.2 == DOWNLOAD_STATUS_DOWNLOADED ==> r == Ok::<DownloadStatus, RowError>(
                DownloadStatus::Downloaded(row.4),
            ),
    {
        let (file_size, downloaded_size, download_status, message, file_path) = row;
        if download_status == DOWNLOAD_STATUS_NOT_STARTED {
            Ok(DownloadStatus::Pending)
        } else if download_status == DOWNLOAD_STATUS_FAILED {
            Ok(DownloadStatus::Failed(message))
        } else if download_status == DOWNLOAD_STATUS_IN_PROGRESS {
            Ok(DownloadStatus::InProgress((downloaded_size as u64, file_size as u64)))
        } else if download_status == DOWNLOAD_STATUS_DOWNLOADED {
            Ok(DownloadStatus::Downloaded(file_path))
        } else {
            Err(RowError::InvalidDownloadStatus(download_status))
        }
    }
}

/// The status columns decode exactly where their status code is one of the
/// four known codes, and they decode to a downloaded video exactly where the
/// code is [`DOWNLOAD_STATUS_DOWNLOADED`].
pub proof fn lemma_status_codes(row: StatusRow)
    ensures
        spec_download_status(row) is Ok <==> DOWNLOAD_STATUS_NOT_STARTED <= row.2
            <= DOWNLOAD_STATUS_DOWNLOADED,
        (spec_download_status(row) matches Ok(status) && status is Downloaded) <==> row.2
            == DOWNLOAD_STATUS_DOWNLOADED,
        spec_download_status(row) matches Err(e) ==> e == RowError::InvalidDownloadStatus(row.2),
{
}

/// The code column alone chooses the variant: code 0 is pending, 1 failed
/// with the message column, 2 in progress with the downloaded and total
/// sizes, and 3 downloaded to the path column, whatever the other columns
/// hold; two rows with the same code decode to the same variant.
pub proof fn lemma_code_chooses_variant(row: StatusRow, other: StatusRow)
    ensures
        row.2 == DOWNLOAD_STATUS_NOT_STARTED ==> spec_download_status(row) == Ok::<
            DownloadStatus,
            RowError,
        >(DownloadStatus::Pending),
        row.2 == DOWNLOAD_STATUS_FAILED ==> spec_download_status(row) == Ok::<
            DownloadStatus,
            RowError,
        >(DownloadStatus::Failed(row.3)),
        row.2 == DOWNLOAD_STATUS_IN_PROGRESS ==> spec_download_status(row) == Ok::<
            DownloadStatus,
            RowError,
        >(DownloadStatus::InProgress((row.1 as u64, row.0 as u64))),
        row.2 == DOWNLOAD_STATUS_DOWNLOADED ==> spec_download_status(row) == Ok::<
            DownloadStatus,
            RowError,
        >(DownloadStatus::Downloaded(row.4)),
        row.2 == other.2 ==> (spec_download_status(row) is Ok <==> spec_download_status(
            other,
        ) is Ok),
        row.2 == other.2 ==> (spec_download_status(row) matches Ok(a)
            ==> spec_download_status(other) matches Ok(b) && same_variant(a, b)),
{
}

/// Whether two download statuses are of the same variant.
pub open spec fn same_variant(a: DownloadStatus, b: DownloadStatus) -> bool {
    ||| a is Pending && b is Pending
    ||| a is Failed && b is Failed
    ||| a is InProgress && b is InProgress
    ||| a is Downloaded && b is Downloaded
}

/// Represents a video entry in the database.
#[derive(Debug, Clone, PartialEq, Eq)]
pub struct Video {
    /// The unique identifier for the video, as the 128-bit value of its UUID.
    pub id: u128,
    /// The name of the video.
    pub name: String,
    /// The total file size of the video in bytes.
    pub file_size: u64,
    /// The current download status of the video.
    pub download_status: DownloadStatus,
    /// The number of times the video has been viewed.
    pub view_count: u64,
}

/// The data of a new video to insert into the database.
#[derive(Debug, Clone, PartialEq, Eq)]
pub struct NewVideo {
    /// The unique identifier for the video, as text.
    pub id: String,
    /// The name of the video.
    pub name: String,
    /// The total file size of the video in bytes.
    pub file_size: i64,
}

/// The 128-bit value of the UUID that `uuid::Uuid::try_from` parses from
/// the text `s`, or `None` where it refuses the text.
pub uninterp spec fn uuid_parse(s: Seq<char>) -> Option<u128>;

/// Whether the UTF-8 encoding of `text` has one of the lengths of the text
/// forms of a UUID: 32 bytes (simple), 36 (hyphenated), 38 (braced) or 45
/// (URN).
pub open spec fn has_uuid_length(text: Seq<char>) -> bool {
    let n: nat = vstd::utf8::encode_utf8(text).len();
    n == 32 || n == 36 || n == 38 || n == 45
}

/// Parses a UUID with `uuid::Uuid::try_from` on a string slice (the
/// conversion that decodes the id column), and returns the 128-bit value of
/// the UUID (`Uuid::as_u128`).
///
/// Trusted: the result is the named parse result of the text; and the
/// parser of the uuid crate refuses every text whose UTF-8 encoding is not
/// 32, 36, 38 or 45 bytes long (the simple, hyphenated, braced and URN
/// forms). Which texts of those lengths it accepts, and which value it
/// gives, is left to the name.
#[verifier::external_body]
fn parse_uuid(s: &str) -> (r: Option<u128>)
    ensures
        r == uuid_parse(s@),
        r is Some ==> has_uuid_length(s@),
{
    match uuid::Uuid::try_from(s) {
        Ok(id) => Some(id.as_u128()),
        Err(_) => None,
    }
}

/// The video that the row `row` stands for, where `id` is the parsed value
/// of its id column. The status columns are decoded first, then the id, the
/// file size and the view count; the first of them that fails gives the
/// error.
pub open spec fn spec_video(id: Option<u128>, row: VideoRow) -> Result<Video, RowError> {
    match spec_download_status(row.3) {
        Err(e) => Err(e),
        Ok(status) => {
            if id is None {
                Err(RowError::InvalidId(row.0))
            } else if row.2 < 0 {
                Err(RowError::FileSizeOutOfRange(row.2))
            } else if row.4 < 0 {
                Err(RowError::ViewCountOutOfRange(row.4))
            } else {
                Ok(
                    Video {
                        id: id->0,
                        name: row.1,
                        file_size: row.2 as u64,
                        download_status: status,
                        view_count: row.4 as u64,
                    },
                )
            }
        },
    }
}

/// A decoded video keeps the columns of its row: its id is the parsed id,
/// its name, sizes and view count are the columns (which are not negative),
/// and its status is the decoded status columns. A row fails exactly where
/// its status columns, its id, its file size or its view count fail, in that
/// order.
pub proof fn lemma_video_fields(id: Option<u128>, row: VideoRow)
    ensures
        spec_video(id, row) matches Ok(v) ==> {
            &&& id == Some(v.id)
            &&& v.name == row.1
            &&& row.2 >= 0 && v.file_size == row.2
            &&& row.4 >= 0 && v.view_count == row.4
            &&& spec_download_status(row.3) == Ok::<DownloadStatus, RowError>(v.download_status)
        },
        spec_download_status(row.3) matches Err(e) ==> spec_video(id, row) == Err::<
            Video,
            RowError,
        >(e),
        spec_download_status(row.3) is Ok && id is None ==> spec_video(id, row) == Err::<
            Video,
            RowError,
        >(RowError::InvalidId(row.0)),
        spec_download_status(row.3) is Ok && id is Some && row.2 < 0 ==> spec_video(id, row)
            == Err::<Video, RowError>(RowError::FileSizeOutOfRange(row.2)),
        spec_download_status(row.3) is Ok && id is Some && row.2 >= 0 && row.4 < 0
            ==> spec_video(id, row) == Err::<Video, RowError>(
            RowError::ViewCountOutOfRange(row.4),
        ),
        spec_download_status(row.3) is Ok && id is Some && row.2 >= 0 && row.4 >= 0
            ==> spec_video(id, row) is Ok,
{
}

impl Video {
    /// Builds the video of a row whose id column has already been parsed
    /// into `id` (`None` where it holds no UUID).
    pub fn from_parsed_id(id: Option<u128>, row: VideoRow) -> (r: Result<Video, RowError>)
        ensures
            r == spec_video(id, row),
    {
        let (id_text, name, file_size, status_row, view_count) = row;
        let download_status = match DownloadStatus::build(status_row) {
            Ok(status) => status,
            Err(e) => {
                return Err(e);
            },
        };
        let id = match id {
            Some(id) => id,
            None => {
                return Err(RowError::InvalidId(id_text));
            },
        };
        if file_size < 0 {
            return Err(RowError::FileSizeOutOfRange(file_size));
        }
        if view_count < 0 {
            return Err(RowError::ViewCountOutOfRange(view_count));
        }
        Ok(
            Video {
                id,
                name,
                file_size: file_size as u64,
                download_status,
                view_count: view_count as u64,
            },
        )
    }

    /// Decodes a row of the video table.
    pub fn build(row: VideoRow) -> (r: Result<Video, RowError>)
        ensures
            r == spec_video(uuid_parse(row.0@), row),
            spec_download_status(row.3) is Ok && !has_uuid_length(row.0@) ==> r == Err::<
                Video,
                RowError,
            >(RowError::InvalidId(row.0)),
    {
        let id = parse_uuid(row.0.as_str());
        Video::from_parsed_id(id, row)
    }
}

} // verus!
