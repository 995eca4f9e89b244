//! The state of the organizer's window: the media shown so far and the pipeline's control.
use vstd::prelude::*;

use crate::protocol::media::Media;

verus! {

/// The media shown, each with the handle of its image (`H`).
pub struct MediaList<H> {
    pub media: Vec<(Media, H)>,
}

impl<H> MediaList<H> {
    /// An empty list.
    pub fn new() -> (r: MediaList<H>)
        ensures
            r.media@.len() == 0,
    {
        MediaList { media: Vec::new() }
    }

    /// Adds a media and its image at the end.
    pub fn add_image(&mut self, media: Media, handle: H)
        ensures
            final(self).media@ == old(self).media@.push((media, handle)),
    {
        self.media.push((media, handle));
    }
}

/// The window: its media, and the channel that starts pipeline runs (`S`) once the
/// pipeline is ready.
pub struct Main<H, S> {
    pub media_list: MediaList<H>,
    pub pipeline_control: Option<S>,
}

/// What the window is told.
pub enum Message<H, S> {
    /// A media has passed the pipeline, with its image.
    NewMedia((Media, H)),
    /// The pipeline is ready; runs are started through the channel.
    PipelineReady(S),
    /// A run has ended.
    PipelineFinished,
}

/// What the window asks for after a message.
#[derive(Debug, Clone, Copy, PartialEq, Eq, Structural)]
pub enum Effect {
    /// Nothing.
    Nothing,
    /// Start a run through the pipeline control.
    StartRun,
}

/// What the window shows.
#[derive(Debug, Clone, Copy, PartialEq, Eq, Structural)]
pub enum Screen {
    /// The pipeline is not ready yet.
    Loading,
    /// The media list.
    MediaList,
}

impl<H, S> Main<H, S> {
    /// A window with no media, waiting for the pipeline.
    pub fn new() -> (r: Main<H, S>)
        ensures
            r.media_list.media@.len() == 0,
            r.pipeline_control is None,
    {
        Main { media_list: MediaList::new(), pipeline_control: None }
    }

    /// Takes a message: a new media joins the list; a ready pipeline is kept and a run is
    /// asked for; the end of a run changes nothing.
    pub fn update(&mut self, message: Message<H, S>) -> (r: Effect)
        ensures
            match message {
                Message::NewMedia((media, handle)) => {
                    &&& final(self).media_list.media@ == old(self).media_list.media@.push(
                        (media, handle),
                    )
                    &&& final(self).pipeline_control == old(self).pipeline_control
                    &&& r == Effect::Nothing
                },
                Message::PipelineReady(control) => {
                    &&& final(self).media_list.media@ == old(self).media_list.media@
                    &&& final(self).pipeline_control == Some(control)
                    &&& r == Effect::StartRun
                },
                Message::PipelineFinished => {
                    &&& final(self).media_list.media@ == old(self).media_list.media@
                    &&& final(self).pipeline_control == old(self).pipeline_control
                    &&& r == Effect::Nothing
                },
            },
    {
        match message {
            Message::NewMedia((media, handle)) => {
                self.media_list.add_image(media, handle);
                Effect::Nothing
            },
            Message::PipelineReady(control) => {
                self.pipeline_control = Some(control);
                Effect::StartRun
            },
            Message::PipelineFinished => Effect::Nothing,
        }
    }

    /// What to show: the loading notice until the pipeline is ready, then the media.
    pub fn view(&self) -> (r: Screen)
        ensures
            r == (if self.pipeline_control is None {
                Screen::Loading
            } else {
                Screen::MediaList
            }),
    {
        if self.pipeline_control.is_none() {
            Screen::Loading
        } else {
            Screen::MediaList
        }
    }
}

} // verus!
