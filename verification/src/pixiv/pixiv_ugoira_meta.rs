//! Frame metadata of a pixiv animation.

use vstd::prelude::*;

verus! {

/// One frame of an animation: its file name inside the frame archive and
/// its display duration in milliseconds.
#[derive(Debug, Clone)]
pub struct FrameTimestamp {
    pub file: String,
    pub delay: u64,
}

/// The animation's frame archive location, content type and frame list.
#[derive(Debug, Clone)]
pub struct PixivUgoiraMeta {
    pub src: String,
    pub original_src: String,
    pub mime_type: String,
    pub frames: Vec<FrameTimestamp>,
}

} // verus!
