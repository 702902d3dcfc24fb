use amp::filesystem::errors::{Error, IoError, IoErrorKind};
use amp::filesystem::finder::{ascend, find, Finder, Probe, Search};

fn io(kind: std::io::ErrorKind) -> IoError {
    IoError::from_std(&kind.into())
}

#[test]
fn test_io_error_source() {
    let err = Error::Io(io(std::io::ErrorKind::PermissionDenied));
    let io_err = err.source().unwrap();
    assert_eq!(IoErrorKind::PermissionDenied, io_err.kind);
}

#[test]
fn test_error_not_found_true() {
    let err = Error::Io(io(std::io::ErrorKind::NotFound));
    assert!(err.not_found());
}

#[test]
fn test_error_not_found_false() {
    let err = Error::Io(io(std::io::ErrorKind::PermissionDenied));
    assert!(!err.not_found());
}

#[test]
fn test_io_error_display() {
    let err = Error::Io(io(std::io::ErrorKind::PermissionDenied));
    let io_err: std::io::Error = std::io::ErrorKind::PermissionDenied.into();

    let err_desc = err.message();
    let io_err_desc = format!("{}", io_err);
    assert_eq!(io_err_desc, err_desc);
}

#[test]
fn io_error_kinds_are_told_apart() {
    assert_eq!(io(std::io::ErrorKind::NotFound).kind, IoErrorKind::NotFound);
    assert_eq!(io(std::io::ErrorKind::AlreadyExists).kind, IoErrorKind::AlreadyExists);
    assert_eq!(io(std::io::ErrorKind::InvalidInput).kind, IoErrorKind::InvalidInput);
    assert_eq!(io(std::io::ErrorKind::InvalidData).kind, IoErrorKind::InvalidData);
    assert_eq!(io(std::io::ErrorKind::TimedOut).kind, IoErrorKind::TimedOut);
    assert_eq!(io(std::io::ErrorKind::Interrupted).kind, IoErrorKind::Interrupted);
    assert_eq!(io(std::io::ErrorKind::UnexpectedEof).kind, IoErrorKind::UnexpectedEof);
    assert_eq!(io(std::io::ErrorKind::BrokenPipe).kind, IoErrorKind::Other);
    let custom = std::io::Error::new(std::io::ErrorKind::NotFound, "path not found");
    assert_eq!(IoError::from_std(&custom).message, "path not found");
}

#[test]
fn finder_looks_for_the_manifest() {
    let finder = Finder::new();
    assert_eq!(finder.candidate("/home/me/project"), "/home/me/project/.amp.toml");
    let finder = finder.filename("other.toml");
    assert_eq!(finder.candidate("/home/me/project"), "/home/me/project/other.toml");
    assert_eq!(finder.find("/home/me", Probe::File), Search::Found("/home/me/other.toml".to_string()));
}

#[test]
fn find_stops_at_a_file() {
    assert_eq!(find("/a/b", ".amp.toml", Probe::File), Search::Found("/a/b/.amp.toml".to_string()));
}

#[test]
fn find_goes_up_where_nothing_is_found() {
    let missing = io(std::io::ErrorKind::NotFound);
    assert_eq!(find("/a/b", ".amp.toml", Probe::Failed(missing.clone())), Search::Ascend("/a".to_string()));
    assert_eq!(find("/a", ".amp.toml", Probe::Failed(missing)), Search::Ascend("/".to_string()));
    assert_eq!(find("/a/b", ".amp.toml", Probe::NotAFile), Search::Ascend("/a".to_string()));
}

#[test]
fn find_fails_at_the_top() {
    let missing = io(std::io::ErrorKind::NotFound);
    let step = find("/", ".amp.toml", Probe::Failed(missing));
    let expected = Error::Io(IoError { kind: IoErrorKind::NotFound, message: "path not found".to_string() });
    assert_eq!(step, Search::Failed(expected.clone()));
    assert!(expected.not_found());
    assert_eq!(find("", ".amp.toml", Probe::NotAFile), Search::Failed(expected));
}

#[test]
fn find_fails_on_any_other_failure() {
    let denied = io(std::io::ErrorKind::PermissionDenied);
    assert_eq!(find("/a/b", ".amp.toml", Probe::Failed(denied.clone())), Search::Failed(Error::Io(denied)));
}

#[test]
fn the_search_goes_up_or_ends() {
    assert_eq!(ascend(Some("/a".to_string())), Search::Ascend("/a".to_string()));
    let expected = Error::Io(IoError { kind: IoErrorKind::NotFound, message: "path not found".to_string() });
    assert_eq!(ascend(None), Search::Failed(expected));
}
