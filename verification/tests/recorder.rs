use memvro::recorder::{settle_reply, start_command, stop_command};
use memvro::{Command, RecordingController, WorkerAction, WorkerEvent, WorkerPhase};
use std::path::PathBuf;
use std::sync::atomic::AtomicU32;
use std::sync::mpsc;
use std::sync::Arc;

fn step(phase: WorkerPhase, event: WorkerEvent) -> (WorkerPhase, WorkerAction) {
    memvro::recorder::worker_step(phase, event)
}

fn path_of(phase: &WorkerPhase) -> Option<PathBuf> {
    match phase {
        WorkerPhase::Idle => None,
        WorkerPhase::Opening(p) | WorkerPhase::Recording(p) | WorkerPhase::Closing(p) => Some(p.clone()),
    }
}

#[test]
fn start_from_idle_opens_capture_at_requested_path() {
    let path = PathBuf::from("/tmp/session/recording.wav");
    let (next, action) = step(WorkerPhase::Idle, WorkerEvent::StartRequested(path.clone()));
    assert!(matches!(next, WorkerPhase::Opening(_)));
    assert_eq!(path_of(&next), Some(path));
    assert!(matches!(action, WorkerAction::OpenCapture));
}

#[test]
fn opened_capture_starts_recording() {
    let path = PathBuf::from("r.wav");
    let (next, action) = step(WorkerPhase::Opening(path.clone()), WorkerEvent::CaptureOpened(Ok(())));
    assert!(matches!(next, WorkerPhase::Recording(_)));
    assert_eq!(path_of(&next), Some(path));
    assert!(matches!(action, WorkerAction::AnswerStart(Ok(()))));
}

#[test]
fn failed_capture_leaves_worker_idle() {
    let (next, action) = step(
        WorkerPhase::Opening(PathBuf::from("r.wav")),
        WorkerEvent::CaptureOpened(Err("No microphone input device is available".to_string())),
    );
    assert!(matches!(next, WorkerPhase::Idle));
    match action {
        WorkerAction::AnswerStart(Err(e)) => assert_eq!(e, "No microphone input device is available"),
        _ => panic!("expected an error answer"),
    }
}

#[test]
fn second_start_is_refused_while_recording() {
    let first = PathBuf::from("first.wav");
    let (next, action) = step(
        WorkerPhase::Recording(first.clone()),
        WorkerEvent::StartRequested(PathBuf::from("other.wav")),
    );
    assert!(matches!(next, WorkerPhase::Recording(_)));
    assert_eq!(path_of(&next), Some(first));
    match action {
        WorkerAction::AnswerStart(Err(e)) => assert_eq!(e, "A recording is already in progress"),
        _ => panic!("expected a refusal"),
    }
}

#[test]
fn stop_while_idle_is_refused() {
    let (next, action) = step(WorkerPhase::Idle, WorkerEvent::StopRequested);
    assert!(matches!(next, WorkerPhase::Idle));
    match action {
        WorkerAction::AnswerStop(Err(e)) => assert_eq!(e, "No recording is in progress"),
        _ => panic!("expected a refusal"),
    }
}

#[test]
fn stop_while_recording_closes_capture() {
    let path = PathBuf::from("r.wav");
    let (next, action) = step(WorkerPhase::Recording(path.clone()), WorkerEvent::StopRequested);
    assert!(matches!(next, WorkerPhase::Closing(_)));
    assert_eq!(path_of(&next), Some(path));
    assert!(matches!(action, WorkerAction::CloseCapture));
}

#[test]
fn closing_ends_idle_even_when_it_fails() {
    let path = PathBuf::from("a/recording.wav");
    let (next, action) = step(
        WorkerPhase::Closing(path.clone()),
        WorkerEvent::CaptureClosed(Err("Unable to finalize recording file".to_string())),
    );
    assert!(matches!(next, WorkerPhase::Idle));
    match action {
        WorkerAction::AnswerStop(Err(e)) => assert_eq!(e, "Unable to finalize recording file"),
        _ => panic!("expected the closing error"),
    }
    let (next, action) = step(WorkerPhase::Closing(path.clone()), WorkerEvent::CaptureClosed(Ok(())));
    assert!(matches!(next, WorkerPhase::Idle));
    match action {
        WorkerAction::AnswerStop(Ok(p)) => assert_eq!(p, path),
        _ => panic!("expected the recorded path"),
    }
}

#[test]
fn full_session_answers_the_started_path() {
    let path = PathBuf::from("s/recording.wav");
    let (phase, _) = step(WorkerPhase::Idle, WorkerEvent::StartRequested(path.clone()));
    let (phase, started) = step(phase, WorkerEvent::CaptureOpened(Ok(())));
    assert!(matches!(started, WorkerAction::AnswerStart(Ok(()))));
    let (phase, refused) = step(phase, WorkerEvent::StartRequested(PathBuf::from("other.wav")));
    assert!(matches!(refused, WorkerAction::AnswerStart(Err(_))));
    let (phase, _) = step(phase, WorkerEvent::StopRequested);
    let (phase, answer) = step(phase, WorkerEvent::CaptureClosed(Ok(())));
    assert!(matches!(phase, WorkerPhase::Idle));
    match answer {
        WorkerAction::AnswerStop(Ok(p)) => assert_eq!(p, path),
        _ => panic!("expected the started path"),
    }
}

#[test]
fn no_successful_open_means_stop_is_refused() {
    let (phase, _) = step(WorkerPhase::Idle, WorkerEvent::StartRequested(PathBuf::from("x.wav")));
    let (phase, _) = step(phase, WorkerEvent::CaptureOpened(Err("no device".to_string())));
    let (phase, action) = step(phase, WorkerEvent::StopRequested);
    assert!(matches!(phase, WorkerPhase::Idle));
    match action {
        WorkerAction::AnswerStop(Err(e)) => assert_eq!(e, "No recording is in progress"),
        _ => panic!("expected a refusal"),
    }
}

#[test]
fn commands_carry_their_path_and_reply_channel() {
    let (response, replies) = mpsc::channel::<Result<(), String>>();
    match start_command(PathBuf::from("c.wav"), response) {
        Command::Start(path, tx) => {
            assert_eq!(path, PathBuf::from("c.wav"));
            tx.send(Ok(())).unwrap();
            assert_eq!(replies.recv().unwrap(), Ok(()));
        }
        Command::Stop(_) => panic!("expected a start command"),
    }
    let (response, replies) = mpsc::channel::<Result<PathBuf, String>>();
    match stop_command(response) {
        Command::Stop(tx) => {
            tx.send(Ok(PathBuf::from("c.wav"))).unwrap();
            assert_eq!(replies.recv().unwrap(), Ok(PathBuf::from("c.wav")));
        }
        Command::Start(..) => panic!("expected a stop command"),
    }
}

#[test]
fn settle_reply_reports_each_failure() {
    let undelivered: Result<(), String> = settle_reply(false, None);
    assert_eq!(undelivered, Err("Audio worker is not available".to_string()));
    let unanswered: Result<(), String> = settle_reply(true, None);
    assert_eq!(unanswered, Err("Audio worker stopped unexpectedly".to_string()));
    let answered: Result<u32, String> = settle_reply(true, Some(Ok(7)));
    assert_eq!(answered, Ok(7));
    let refused: Result<u32, String> = settle_reply(true, Some(Err("busy".to_string())));
    assert_eq!(refused, Err("busy".to_string()));
}

#[test]
fn controller_without_worker_reports_unavailable() {
    let (commands, receiver) = mpsc::channel::<Command>();
    drop(receiver);
    let level = Arc::new(AtomicU32::new(0));
    let controller = RecordingController::new(commands, level.clone());
    assert_eq!(
        controller.start(PathBuf::from("x.wav")),
        Err("Audio worker is not available".to_string())
    );
    assert_eq!(controller.stop(), Err("Audio worker is not available".to_string()));
    assert!(Arc::ptr_eq(controller.level_handle(), &level));
}
