use vtbox::coordinator::{
    v2t_models_dir, JobCoordinator, JobOutcome, TranscriptionJob, TranscriptionResult,
};
use vtbox::error::VtError;

fn job(model: &str, audio: &str) -> TranscriptionJob {
    TranscriptionJob { model_path: model.to_string(), audio_path: audio.to_string() }
}

#[test]
fn test_single_flight() {
    let mut c = JobCoordinator::new();
    // two submissions back to back: exactly one is accepted
    assert!(c.submit(&job("models/ggml-tiny.bin", "a.wav"), true).is_ok());
    assert!(matches!(
        c.submit(&job("models/ggml-tiny.bin", "b.wav"), true),
        Err(VtError::Busy)
    ));
    // once the running job finishes, a new submission is accepted
    let _ = c.finish_job(Err("engine stopped".to_string()));
    assert!(c.submit(&job("models/ggml-tiny.bin", "c.wav"), true).is_ok());
}

#[test]
fn test_submit_no_models() {
    let mut c = JobCoordinator::new();
    assert!(matches!(
        c.submit(&job("m.bin", "a.wav"), false),
        Err(VtError::NoModelsAvailable)
    ));
    // the rejected submission did not start: the next valid one is accepted
    assert!(c.submit(&job("m.bin", "a.wav"), true).is_ok());
}

#[test]
fn test_submit_invalid_input() {
    let mut c = JobCoordinator::new();
    assert!(matches!(c.submit(&job("", "a.wav"), true), Err(VtError::InvalidInput)));
    assert!(matches!(c.submit(&job("m.bin", ""), true), Err(VtError::InvalidInput)));
    assert!(c.submit(&job("m.bin", "a.wav"), true).is_ok());
}

#[test]
fn test_finish_job_success() {
    let mut c = JobCoordinator::new();
    assert!(c.submit(&job("m.bin", "a.wav"), true).is_ok());
    let result = TranscriptionResult { text: "hello".to_string(), start: 0, end: 1500 };
    match c.finish_job(Ok(result)) {
        JobOutcome::Completed(r) => {
            assert_eq!(r.text, "hello");
            assert_eq!(r.start, 0);
            assert_eq!(r.end, 1500);
        }
        JobOutcome::Failed(_) => panic!("a successful job must deliver its result"),
    }
}

#[test]
fn test_finish_job_failure() {
    let mut c = JobCoordinator::new();
    assert!(c.submit(&job("m.bin", "a.wav"), true).is_ok());
    match c.finish_job(Err("decode error".to_string())) {
        JobOutcome::Failed(VtError::TranscribeError(reason)) => {
            assert_eq!(reason, "decode error")
        }
        _ => panic!("a failed job must deliver the engine's failure"),
    }
}

#[test]
fn test_v2t_models_dir() {
    assert_eq!(v2t_models_dir("/home/user/.cache/vtbox"), "/home/user/.cache/vtbox/v2t/model");
}

#[test]
fn test_error_labels() {
    assert_eq!(VtError::DirectoryUnavailable.label(), "directory unavailable");
    assert_eq!(VtError::FetchFailed("x".to_string()).label(), "fetch failed");
    assert_eq!(VtError::Busy.label(), "busy");
    assert_eq!(VtError::NoModelsAvailable.label(), "no models available");
    assert_eq!(VtError::InvalidInput.label(), "invalid input");
    assert_eq!(VtError::TranscribeError("x".to_string()).label(), "transcribe error");
}
