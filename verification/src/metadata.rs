//! Metadata of a track, and the interface through which it is retrieved.
//!
//! Retrieval is left to implementations of [`MetaDataProvider`], so that the
//! backend (GStreamer, Symphonia, ...) can be chosen without touching the rest
//! of the library.
use vstd::prelude::*;

use crate::track::TrackPath;

verus! {

/// Metadata read from a track; each field may have failed to be read on its own.
#[derive(Debug)]
pub struct Metadata {
    title: Result<String, String>,
    artist: Result<String, String>,
}

impl Metadata {
    /// The title, or why it could not be read.
    pub closed spec fn title_of(self) -> Result<String, String> {
        self.title
    }

    /// The artist, or why it could not be read.
    pub closed spec fn artist_of(self) -> Result<String, String> {
        self.artist
    }

    /// Metadata made of what was read, or why reading failed, for each field.
    pub fn new(title: Result<String, String>, artist: Result<String, String>) -> (m: Metadata)
        ensures
            m.title_of() == title,
            m.artist_of() == artist,
    {
        Metadata { title, artist }
    }

    /// The title, or why it could not be read.
    pub fn title(&self) -> (t: &Result<String, String>)
        ensures
            *t == self.title_of(),
    {
        &self.title
    }

    /// The artist, or why it could not be read.
    pub fn artist(&self) -> (a: &Result<String, String>)
        ensures
            *a == self.artist_of(),
    {
        &self.artist
    }
}

/// A source of track metadata.
pub trait MetaDataProvider: Sized {
    /// Read the metadata of the track at `path`.
    fn get(self, path: &TrackPath) -> Result<Metadata, String>;
}

} // verus!
