use wysiwyg::{data_dir, failure_report, Error, ErrorKind};

#[test]
fn data_dir_prefers_xdg() {
    let r = data_dir(Some("/x/data".to_string()), Some("/home/u".to_string()));
    assert_eq!(r, Ok("/x/data/wysiwyg".to_string()));
}

#[test]
fn data_dir_falls_back_to_home() {
    let r = data_dir(None, Some("/home/u".to_string()));
    assert_eq!(r, Ok("/home/u/.local/share/wysiwyg".to_string()));
    let r = data_dir(Some(String::new()), Some("/home/u".to_string()));
    assert_eq!(r, Ok("/home/u/.local/share/wysiwyg".to_string()));
}

#[test]
fn data_dir_without_home() {
    assert_eq!(data_dir(None, None), Err(Error::HomeMissing));
    assert_eq!(data_dir(Some(String::new()), Some(String::new())), Err(Error::HomeMissing));
    assert_eq!(Error::HomeMissing.kind(), ErrorKind::Config);
    assert_eq!(Error::HomeMissing.message(), "$HOME missing!");
}

#[test]
fn failure_report_toggles() {
    let f = failure_report(Error::NotFound, true, true);
    assert_eq!(f.text, "value missing!");
    assert_eq!(f.exit_code, 1);
    let f = failure_report(Error::NotFound, false, false);
    assert_eq!(f.text, "?");
    assert_eq!(f.exit_code, 0);
    let f = failure_report(Error::UnknownCommand, true, false);
    assert_eq!(f.text, "unknown command!");
    assert_eq!(f.exit_code, 0);
}

#[test]
fn storage_errors() {
    for e in [
        Error::CreateDirFailed,
        Error::OpenFailed,
        Error::ReadFailed,
        Error::WriteFailed,
        Error::RenameFailed,
    ] {
        assert_eq!(e.kind(), ErrorKind::Storage);
    }
    assert_eq!(Error::CreateDirFailed.message(), "failed to create data path!");
    assert_eq!(Error::OpenFailed.message(), "failed to open file!");
    assert_eq!(Error::ReadFailed.message(), "failed to read file!");
    assert_eq!(Error::WriteFailed.message(), "failed to write data file!");
    assert_eq!(Error::RenameFailed.message(), "failed to update data file!");
    assert_eq!(Error::NotFound.kind(), ErrorKind::NotFound);
}
