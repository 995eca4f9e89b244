//! The sink front end: a script that receives media from the pipeline and shows them, with
//! actions that run shell commands on a media.
pub mod actions;
pub mod config;
pub mod media;
pub mod media_list;
pub mod protocol;
