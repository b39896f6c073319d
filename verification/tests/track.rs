use cradle::metadata::{MetaDataProvider, Metadata};
use cradle::track::{Track, TrackPath, TrackPathError};
use std::io::{Error, ErrorKind};
use std::path::PathBuf;

struct NoMetadata;

impl MetaDataProvider for NoMetadata {
    fn get(self, _path: &TrackPath) -> Result<Metadata, String> {
        Err("no tags".to_string())
    }
}

struct Tagged;

impl MetaDataProvider for Tagged {
    fn get(self, path: &TrackPath) -> Result<Metadata, String> {
        Ok(Metadata::new(
            Ok(path.as_path().display().to_string()),
            Err("no artist tag".to_string()),
        ))
    }
}

fn valid(p: &str) -> TrackPath {
    TrackPath::new(PathBuf::from(p), true, true, Ok(PathBuf::from("/abs").join(p))).unwrap()
}

#[test]
fn missing_path_is_not_found() {
    let r = TrackPath::new(PathBuf::from("a.mp3"), false, false, Ok(PathBuf::from("/a.mp3")));
    assert!(matches!(r, Err(TrackPathError::NotFound)));
}

#[test]
fn missing_path_wins_over_other_failures() {
    let r = TrackPath::new(
        PathBuf::from("a.mp3"),
        false,
        true,
        Err(Error::new(ErrorKind::NotFound, "gone")),
    );
    assert!(matches!(r, Err(TrackPathError::NotFound)));
}

#[test]
fn directory_is_not_a_file() {
    let r = TrackPath::new(PathBuf::from("music"), true, false, Ok(PathBuf::from("/music")));
    assert!(matches!(r, Err(TrackPathError::IsNotFile)));
}

#[test]
fn canonicalisation_failure_is_reported() {
    let r = TrackPath::new(
        PathBuf::from("a.mp3"),
        true,
        true,
        Err(Error::new(ErrorKind::PermissionDenied, "denied")),
    );
    match r {
        Err(TrackPathError::BadCanon(e)) => {
            assert_eq!(e.kind(), ErrorKind::PermissionDenied);
            assert_eq!(e.to_string(), "denied");
        }
        other => panic!("unexpected {:?}", other),
    }
}

#[test]
fn valid_path_keeps_the_given_path_not_the_canonical_one() {
    let tp = valid("songs/a.mp3");
    assert_eq!(tp.as_path(), &PathBuf::from("songs/a.mp3"));
    assert_eq!(tp.get_path(), PathBuf::from("songs/a.mp3"));
}

#[test]
fn track_keeps_its_path_when_metadata_fails() {
    let t = Track::new(valid("b.ogg"), NoMetadata).unwrap();
    assert_eq!(t.path().as_path(), &PathBuf::from("b.ogg"));
}

#[test]
fn track_from_parts_keeps_its_path() {
    let t = Track::from_parts(valid("c.flac"), Err("unreadable".to_string()));
    assert_eq!(t.path().as_path(), &PathBuf::from("c.flac"));
}

#[test]
fn track_keeps_the_metadata_the_provider_read() {
    let t = Track::new(valid("d.mp3"), Tagged).unwrap();
    match t.metadata() {
        Ok(m) => {
            assert_eq!(m.title(), &Ok("d.mp3".to_string()));
            assert_eq!(m.artist(), &Err("no artist tag".to_string()));
        }
        Err(e) => panic!("unexpected {}", e),
    }
}

#[test]
fn track_keeps_the_metadata_failure() {
    let t = Track::new(valid("e.mp3"), NoMetadata).unwrap();
    assert_eq!(t.metadata().as_ref().err(), Some(&"no tags".to_string()));
}

#[test]
fn metadata_keeps_each_field() {
    let m = Metadata::new(Ok("Lester leaps in".to_string()), Ok("Count Basie".to_string()));
    assert_eq!(m.title(), &Ok("Lester leaps in".to_string()));
    assert_eq!(m.artist(), &Ok("Count Basie".to_string()));
}
