use memvro::session::{storage_folder, RecordingFlag};
use std::path::PathBuf;

#[test]
fn flag_gates_start_and_stop() {
    let mut flag = RecordingFlag::new();
    assert!(!flag.recording);
    assert_eq!(flag.check_stop(), Err("No recording is in progress".to_string()));
    assert_eq!(flag.check_start(), Ok(()));
    assert_eq!(flag.finish_start(Ok(())), Ok(()));
    assert!(flag.recording);
    assert_eq!(flag.check_start(), Err("A recording is already in progress".to_string()));
    assert_eq!(flag.check_stop(), Ok(()));
    let path = PathBuf::from("x/recording.wav");
    assert_eq!(flag.finish_stop(Ok(path.clone())), Ok(path));
    assert!(!flag.recording);
}

#[test]
fn failed_start_leaves_no_recording() {
    let mut flag = RecordingFlag::new();
    let r = flag.finish_start(Err("Unable to create local recording directory".to_string()));
    assert!(r.is_err());
    assert!(!flag.recording);
}

#[test]
fn failed_stop_keeps_the_session_busy() {
    let mut flag = RecordingFlag::new();
    flag.finish_start(Ok(())).unwrap();
    let r = flag.finish_stop(Err("No recording is in progress".to_string()));
    assert!(r.is_err());
    assert!(flag.recording);
    assert!(flag.check_start().is_err());
}

#[test]
fn storage_folder_is_trimmed() {
    assert_eq!(storage_folder("  /Users/me/Meetings \n"), Ok("/Users/me/Meetings".to_string()));
    assert_eq!(storage_folder("/a b/c"), Ok("/a b/c".to_string()));
    assert_eq!(storage_folder("\u{3000}D:\\Rec\u{a0}"), Ok("D:\\Rec".to_string()));
}

#[test]
fn empty_storage_folder_is_refused() {
    let message = Err("Choose a folder for recordings and transcripts".to_string());
    assert_eq!(storage_folder(""), message);
    assert_eq!(storage_folder(" \t\r\n"), message);
}

#[test]
fn saving_the_saved_folder_keeps_it() {
    let first = storage_folder("  ~/Recordings  ").unwrap();
    assert_eq!(storage_folder(&first), Ok(first.clone()));
}
