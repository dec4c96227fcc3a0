//! Tests of the file acquisition pipeline's polling state machine.

use bladvak::errors::AppError;
use bladvak::file_handler::{DroppedFile, File, FileHandler, FileState};
use bladvak::utils::default_save_path;

fn bytes_drop(name: &str, data: &[u8]) -> DroppedFile {
    DroppedFile { name: name.to_string(), path: None, bytes: Some(data.to_vec()) }
}

fn path_drop(name: &str, path: &str) -> DroppedFile {
    DroppedFile { name: name.to_string(), path: Some(path.to_string()), bytes: None }
}

#[test]
fn poll_is_idempotent_when_idle() {
    let mut fh = FileHandler::default();
    for _ in 0..3 {
        let r = fh.handle_files(None, None);
        assert!(matches!(r, Ok(None)));
        assert!(!fh.upload_pending);
        assert!(fh.dropped_files.is_empty());
    }
}

#[test]
fn unresolved_dialog_request_yields_nothing() {
    let mut fh = FileHandler::default();
    fh.handle_file_open();
    assert!(fh.upload_pending);
    let r = fh.handle_files(None, None);
    assert!(matches!(r, Ok(None)));
    // still outstanding: no blocking, no consumption
    assert!(fh.upload_pending);
}

#[test]
fn ready_dialog_result_dominates_a_pending_drop() {
    let mut fh = FileHandler::default();
    fh.handle_file_open();
    fh.ingest_drops(vec![bytes_drop("dropped.txt", b"drop")]);
    let picked = File { data: b"picked".to_vec(), path: "picked.txt".to_string() };
    let r = fh.handle_files(Some(Ok(FileState::Ready(picked))), None);
    match r {
        Ok(Some(file)) => {
            assert_eq!(file.data, b"picked".to_vec());
            assert_eq!(file.path, "picked.txt");
        }
        other => panic!("expected the dialog result, got {:?}", other),
    }
    // the drop is still queued for a later frame
    assert_eq!(fh.dropped_files.len(), 1);
    assert!(!fh.upload_pending);
}

#[test]
fn drop_while_pick_in_flight_is_delivered_later() {
    let mut fh = FileHandler::default();
    fh.handle_file_open();
    fh.ingest_drops(vec![bytes_drop("dropped.txt", b"drop")]);

    // frame 1: the pick is still unresolved — nothing this frame
    let r1 = fh.handle_files(None, None);
    assert!(matches!(r1, Ok(None)));
    assert_eq!(fh.dropped_files.len(), 1);

    // frame 2: the dialog resolves — its result is delivered
    let picked = File { data: b"picked".to_vec(), path: "picked.txt".to_string() };
    let r2 = fh.handle_files(Some(Ok(FileState::Ready(picked))), None);
    assert!(matches!(r2, Ok(Some(_))));
    assert_eq!(fh.dropped_files.len(), 1);

    // frame 3: the drop is finally consumed
    let r3 = fh.handle_files(None, None);
    match r3 {
        Ok(Some(file)) => {
            assert_eq!(file.data, b"drop".to_vec());
            assert_eq!(file.path, "dropped.txt");
        }
        other => panic!("expected the dropped file, got {:?}", other),
    }
    assert!(fh.dropped_files.is_empty());
}

#[test]
fn cancelled_dialog_falls_through_to_the_drop_queue() {
    let mut fh = FileHandler::default();
    fh.handle_file_open();
    fh.ingest_drops(vec![bytes_drop("dropped.txt", b"drop")]);
    let r = fh.handle_files(Some(Ok(FileState::NotSelected)), None);
    match r {
        Ok(Some(file)) => assert_eq!(file.path, "dropped.txt"),
        other => panic!("expected the dropped file, got {:?}", other),
    }
    assert!(!fh.upload_pending);
}

#[test]
fn dialog_error_surfaces_and_clears_the_slot() {
    let mut fh = FileHandler::default();
    fh.handle_file_open();
    let r = fh.handle_files(Some(Err(AppError::new("read failed".to_string()))), None);
    match r {
        Err(e) => assert_eq!(e.message, "read failed"),
        other => panic!("expected the error, got {:?}", other),
    }
    assert!(!fh.upload_pending);
}

#[test]
fn path_drop_requests_a_read_and_uses_it() {
    let mut fh = FileHandler::default();
    fh.ingest_drops(vec![path_drop("notes.txt", "/tmp/notes.txt")]);
    let obs = None;
    let wanted = fh.needs_drop_read(&obs);
    assert_eq!(wanted.as_deref(), Some("/tmp/notes.txt"));
    let r = fh.handle_files(obs, Some(Ok(b"contents".to_vec())));
    match r {
        Ok(Some(file)) => {
            assert_eq!(file.data, b"contents".to_vec());
            assert_eq!(file.path, "/tmp/notes.txt");
        }
        other => panic!("expected the read file, got {:?}", other),
    }
    assert!(fh.dropped_files.is_empty());
}

#[test]
fn failed_drop_read_surfaces_as_the_error() {
    let mut fh = FileHandler::default();
    fh.ingest_drops(vec![path_drop("notes.txt", "/tmp/notes.txt")]);
    let r = fh.handle_files(None, Some(Err(AppError::new("no such file".to_string()))));
    match r {
        Err(e) => assert_eq!(e.message, "no such file"),
        other => panic!("expected the error, got {:?}", other),
    }
    // the drop was consumed; the next poll is a no-op
    assert!(fh.dropped_files.is_empty());
    assert!(matches!(fh.handle_files(None, None), Ok(None)));
}

#[test]
fn in_memory_drop_needs_no_read() {
    let mut fh = FileHandler::default();
    fh.ingest_drops(vec![bytes_drop("dropped.txt", b"drop")]);
    assert!(fh.needs_drop_read(&None).is_none());
}

#[test]
fn drop_with_neither_path_nor_bytes_is_discarded() {
    let mut fh = FileHandler::default();
    fh.ingest_drops(vec![DroppedFile { name: "ghost".to_string(), path: None, bytes: None }]);
    let r = fh.handle_files(None, None);
    assert!(matches!(r, Ok(None)));
    assert!(fh.dropped_files.is_empty());
}

#[test]
fn simultaneous_drops_beyond_the_first_are_discarded() {
    let mut fh = FileHandler::default();
    fh.ingest_drops(vec![bytes_drop("first.txt", b"one"), bytes_drop("second.txt", b"two")]);
    let r = fh.handle_files(None, None);
    match r {
        Ok(Some(file)) => assert_eq!(file.path, "first.txt"),
        other => panic!("expected the first drop, got {:?}", other),
    }
    // the rest of the batch is discarded, not delivered later
    assert!(fh.dropped_files.is_empty());
    assert!(matches!(fh.handle_files(None, None), Ok(None)));
}

#[test]
fn save_path_defaults_to_file() {
    assert_eq!(default_save_path(Some("/tmp/a.txt".to_string())), "/tmp/a.txt");
    assert_eq!(default_save_path(None), "file");
}

#[test]
fn empty_ingest_keeps_the_queue() {
    let mut fh = FileHandler::default();
    fh.ingest_drops(vec![bytes_drop("kept.txt", b"kept")]);
    fh.ingest_drops(Vec::new());
    assert_eq!(fh.dropped_files.len(), 1);
    assert_eq!(fh.dropped_files[0].name, "kept.txt");
}

#[test]
fn nonempty_ingest_replaces_the_queue() {
    let mut fh = FileHandler::default();
    fh.ingest_drops(vec![bytes_drop("old.txt", b"old")]);
    fh.ingest_drops(vec![bytes_drop("new1.txt", b"n1"), bytes_drop("new2.txt", b"n2")]);
    assert_eq!(fh.dropped_files.len(), 2);
    assert_eq!(fh.dropped_files[0].name, "new1.txt");
}

#[test]
fn reset_clears_the_pending_slot() {
    let mut fh = FileHandler::default();
    fh.handle_file_open();
    fh.reset();
    assert!(!fh.upload_pending);
}

#[test]
fn upload_outcome_matches_the_slot() {
    let fh = FileHandler::default();
    assert!(matches!(fh.handle_file_upload(None), Ok(FileState::NoUpload)));
    let mut pending = FileHandler::default();
    pending.handle_file_open();
    assert!(matches!(pending.handle_file_upload(None), Ok(FileState::UploadedOrSelected)));
    let ready = File::default();
    assert!(matches!(
        pending.handle_file_upload(Some(Ok(FileState::Ready(ready)))),
        Ok(FileState::Ready(_))
    ));
}

#[test]
fn default_file_is_empty() {
    let f = File::default();
    assert!(f.data.is_empty());
    assert!(f.path.is_empty());
}
