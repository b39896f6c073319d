//! Tools describing and manipulating audio files.
//!
//! A [`TrackPath`] refers to a track that, when it was validated, existed and
//! was a file; a [`Track`] adds the metadata read from it.
use std::io::Error as IoError;
use std::path::PathBuf;
use vstd::prelude::*;

use crate::metadata::{MetaDataProvider, Metadata};

verus! {

/// Why a path could not be accepted as a track path.
#[derive(Debug)]
pub enum TrackPathError {
    /// Track path does not exist.
    NotFound,
    /// Track path is not a file.
    IsNotFile,
    /// Could not compute canonical file path.
    BadCanon(IoError),
}

/// A path that, at the time of validation, was known to exist and to be a file.
#[derive(Debug)]
pub struct TrackPath {
    path: PathBuf,
}

impl TrackPath {
    /// The path this track path stands for.
    pub closed spec fn location(self) -> PathBuf {
        self.path
    }

    /// Validate `path`, given what the file system reported about it: whether
    /// it exists, whether it is a file, and the outcome of canonicalising it.
    /// The checks are made in that order and the first that fails decides the
    /// error; on success the path is kept as given (not its canonical form).
    pub fn new(
        path: PathBuf,
        exists: bool,
        is_file: bool,
        canonical: Result<PathBuf, IoError>,
    ) -> (r: Result<TrackPath, TrackPathError>)
        ensures
            !exists ==> r matches Err(TrackPathError::NotFound),
            exists && !is_file ==> r matches Err(TrackPathError::IsNotFile),
            exists && is_file && canonical is Ok ==> (r matches Ok(tp) && tp.location() == path),
            exists && is_file && canonical is Err ==> r == Err::<TrackPath, TrackPathError>(
                TrackPathError::BadCanon(canonical->Err_0),
            ),
    {
        if !exists {
            return Err(TrackPathError::NotFound);
        }
        if !is_file {
            return Err(TrackPathError::IsNotFile);
        }
        match canonical {
            Ok(_canonical_path) => Ok(TrackPath { path }),
            Err(e) => Err(TrackPathError::BadCanon(e)),
        }
    }

    /// Get the underlying path stored by the track path.
    pub fn get_path(self) -> (p: PathBuf)
        ensures
            p == self.location(),
    {
        self.path
    }

    /// Borrow the underlying path.
    pub fn as_path(&self) -> (p: &PathBuf)
        ensures
            *p == self.location(),
    {
        &self.path
    }
}

/// A track: its path together with the metadata read from it.
#[derive(Debug)]
pub struct Track {
    path: TrackPath,
    metadata: Result<Metadata, String>,
}

impl Track {
    /// The path of the track.
    pub closed spec fn track_path(self) -> TrackPath {
        self.path
    }

    /// The metadata of the track, or why it could not be read.
    pub closed spec fn metadata_of(self) -> Result<Metadata, String> {
        self.metadata
    }

    /// Assemble a track from its path and the outcome of reading its metadata.
    pub fn from_parts(path: TrackPath, metadata: Result<Metadata, String>) -> (t: Track)
        ensures
            t.track_path() == path,
            t.metadata_of() == metadata,
    {
        Track { path, metadata }
    }

    /// Build a track by asking `provider` for the metadata of `path`. A failure
    /// to read metadata does not fail the track: it is kept in the track.
    pub fn new<P: MetaDataProvider>(path: TrackPath, provider: P) -> (r: Result<Track, TrackPathError>)
        ensures
            r matches Ok(t) && t.track_path() == path && call_ensures(
                P::get,
                (provider, &path),
                t.metadata_of(),
            ),
    {
        let metadata = provider.get(&path);
        Ok(Track::from_parts(path, metadata))
    }

    /// The metadata of the track, or why it could not be read.
    pub fn metadata(&self) -> (m: &Result<Metadata, String>)
        ensures
            *m == self.metadata_of(),
    {
        &self.metadata
    }

    /// Borrow the path of the track.
    pub fn path(&self) -> (p: &TrackPath)
        ensures
            *p == self.track_path(),
    {
        &self.path
    }
}

} // verus!
