//! The settings of the media organizer and of its viewer.
use vstd::prelude::*;

verus! {

/// Where the config file is read from.
pub const CONFIG_PATH: &'static str = "config.toml";

/// Where the media database lives.
pub const DB_PATH: &'static str = "fenlu.db";

/// How the pipeline gets its media.
#[derive(Debug, Clone, Copy, PartialEq, Eq, Structural)]
pub enum PipelineMode {
    Generate,
    GenerateSave,
    Load,
}

impl Default for PipelineMode {
    /// Loading from the database.
    fn default() -> (r: PipelineMode)
        ensures
            r == PipelineMode::Load,
    {
        PipelineMode::Load
    }
}

/// The colors of the interface, each as red, green and blue.
#[derive(Debug, Clone, Copy)]
pub struct Colors {
    pub base: [u8; 3],
    pub surface: [u8; 3],
    pub highlight_medium: [u8; 3],
    pub highlight_high: [u8; 3],
    pub text: [u8; 3],
    pub accent: [u8; 3],
}

/// Layout settings.
#[derive(Debug, Clone, Copy, PartialEq, Eq, Structural)]
pub struct Interface {
    pub thumbnail_size: u16,
}

/// The settings of the media organizer.
#[derive(Debug)]
pub struct Config {
    pub whitelisted_scripts: Vec<String>,
    pub pipeline_mode: PipelineMode,
    pub media_update_interval: u64,
    pub buffer_size: usize,
    pub colors: Colors,
    pub interface: Interface,
}

/// Milliseconds between two updates of the shown media, where the config gives none.
pub fn default_media_update_interval() -> (r: u64)
    ensures
        r == 1000,
{
    1000
}

/// The pipeline mode where the config gives none: load where the database exists,
/// else generate and save.
pub fn default_pipeline_mode(db_exists: bool) -> (r: PipelineMode)
    ensures
        r == (if db_exists {
            PipelineMode::Load
        } else {
            PipelineMode::GenerateSave
        }),
{
    if db_exists {
        PipelineMode::Load
    } else {
        PipelineMode::GenerateSave
    }
}

/// The size of the media batches, where the config gives none.
pub fn default_buffer_size() -> (r: usize)
    ensures
        r == 1024,
{
    1024
}

/// The thumbnail size in pixels, where the config gives none.
pub fn default_thumbnail_size() -> (r: u16)
    ensures
        r == 296,
{
    296
}

} // verus!
