//! The media records that run through the pipeline, and the requests that carry them.
use vstd::prelude::*;

verus! {

/// A media record.  `uri` holds the text of a URI reference; `history` names the scripts
/// the record has passed through, in order.
#[derive(Debug, Clone)]
pub struct Media {
    pub title: String,
    pub uri: String,
    pub extra_source: String,
    pub history: Vec<String>,
    pub tags: Vec<String>,
    pub extra: Option<Extra>,
}

/// What is known of a media record beyond its kind.
#[derive(Debug, Clone)]
pub enum Extra {
    Image { width: u64, height: u64 },
    PDF { author: String, summary: String },
}

/// The method that asks a filter script which media to keep.
pub const FILTER_METHOD: &'static str = "media/filter";

/// The method that asks a transform script to rewrite media.
pub const TRANSFORM_METHOD: &'static str = "media/transform";

/// The method that asks a source script for its next batch of media.
pub const GENERATE_METHOD: &'static str = "media/generate";

/// The parameters of a generate request: the batch size, and how many requests the
/// source has answered before.
#[derive(Debug, Clone, Copy, PartialEq, Eq, Structural)]
pub struct GenerateRequest {
    pub batch_size: u32,
    pub state: u64,
}

/// A source's answer: a batch of media, and whether it has no more.
#[derive(Debug)]
pub struct GenerateResponse {
    pub media: Vec<Media>,
    pub finished: bool,
}

} // verus!
