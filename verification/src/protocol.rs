//! What the organizer and its scripts say to each other.
pub mod capabilities;
pub mod media;
