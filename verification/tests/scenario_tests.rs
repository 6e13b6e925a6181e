//! End-to-end walk through the model acquisition and job coordination flow,
//! with the managed directory modeled as the list of its file names.

use vtbox::catalog::{model_items, FileEntry, ModelStatus};
use vtbox::coordinator::{JobCoordinator, TranscriptionJob, TranscriptionResult};
use vtbox::error::VtError;
use vtbox::fetch::run_fetch;

fn listing_of(dir: &[String]) -> Vec<FileEntry> {
    dir.iter().map(|name| FileEntry { name: name.clone(), size_bytes: 1024 }).collect()
}

#[test]
fn test_end_to_end() {
    // an empty directory lists every known model as undownloaded
    let mut dir: Vec<String> = Vec::new();
    let items = model_items(&listing_of(&dir), 0);
    assert_eq!(items.len(), 5);
    assert!(items.iter().all(|it| it.status == ModelStatus::Undownloaded));

    // fetching one model succeeds; the listing now shows it downloaded
    let fetched = run_fetch(&mut dir, "ggml-tiny.bin", "models", true, true, "");
    let model_path = fetched.unwrap();
    assert_eq!(model_path, "models/ggml-tiny.bin");
    let items = model_items(&listing_of(&dir), 0);
    assert_eq!(items.len(), 5);
    assert_eq!(items[0].name, "ggml-tiny.bin");
    assert_eq!(items[0].status, ModelStatus::Downloaded);
    let undownloaded = items.iter().filter(|it| it.status == ModelStatus::Undownloaded).count();
    assert_eq!(undownloaded, 4);

    // a job is submitted; a second submission mid-flight is rejected
    let mut c = JobCoordinator::new();
    let job = TranscriptionJob { model_path: model_path.clone(), audio_path: "a.wav".to_string() };
    assert!(c.submit(&job, true).is_ok());
    let second = TranscriptionJob { model_path, audio_path: "b.wav".to_string() };
    assert!(matches!(c.submit(&second, true), Err(VtError::Busy)));

    // after the first completes, a third submission succeeds
    let result = TranscriptionResult { text: "done".to_string(), start: 0, end: 10 };
    let _ = c.finish_job(Ok(result));
    assert!(c.submit(&second, true).is_ok());
}

#[test]
fn test_failed_fetch_lists_undownloaded_again() {
    // a failing fetch leaves no partial file, so the listing is unchanged
    let mut dir: Vec<String> = Vec::new();
    let r = run_fetch(&mut dir, "ggml-base.bin", "models", true, false, "timeout");
    assert!(matches!(r, Err(VtError::FetchFailed(_))));
    let items = model_items(&listing_of(&dir), 0);
    assert_eq!(items.len(), 5);
    assert!(items.iter().all(|it| it.status == ModelStatus::Undownloaded));
}
