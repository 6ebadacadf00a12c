//! Files that messages carry: photos, videos, video notes, chat photos.
use vstd::prelude::*;

verus! {

/// One size of a photo or of a thumbnail.
#[derive(Debug, Clone, PartialEq, Eq, Hash)]
pub struct PhotoSize {
    /// The file ID of this size.
    pub file_id: String,
    /// The width of this size.
    pub width: u32,
    /// The height of this size.
    pub height: u32,
    /// The file size of this size in bytes, if known.
    pub file_size: Option<u32>,
}

/// A video.
#[derive(Debug, Clone, PartialEq, Eq, Hash)]
pub struct Video {
    /// The file ID of the video.
    pub file_id: String,
    /// The width of the video.
    pub width: u32,
    /// The height of the video.
    pub height: u32,
    /// The duration of the video.
    pub duration: u32,
    /// The thumb of the video.
    pub thumb: Option<PhotoSize>,
    /// The MIME type of the video.
    pub mime_type: Option<String>,
    /// The file size of the video.
    pub file_size: Option<u32>,
}

/// A video note.
#[derive(Debug, Clone, PartialEq, Eq, Hash)]
pub struct VideoNote {
    /// The file ID of the video note.
    pub file_id: String,
    /// The unique ID of the video note.
    pub file_unique_id: String,
    /// The length of the video note.
    pub length: u32,
    /// The duration of the video note.
    pub duration: u32,
    /// The thumb of the video note.
    pub thumb: Option<PhotoSize>,
    /// The file size of the video note.
    pub file_size: Option<u32>,
}

/// The photo of a chat.
#[derive(Debug, Clone, PartialEq, Eq, Hash)]
pub struct ChatPhoto {
    /// Small (160×160) photo's file ID.
    pub small_file_id: String,
    /// Big (640×640) photo's file ID.
    pub big_file_id: String,
}

} // verus!
