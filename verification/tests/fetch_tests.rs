use vtbox::error::VtError;
use vtbox::fetch::{base_url, run_fetch, socks5_proxy_url, FetchAction, ModelHandler};

#[test]
fn test_base_url() {
    assert_eq!(base_url(), "https://huggingface.co/ggerganov/whisper.cpp/resolve/main");
}

#[test]
fn test_socks5_proxy_url() {
    assert_eq!(socks5_proxy_url("127.0.0.1", 1080), "socks5://127.0.0.1:1080");
    assert_eq!(socks5_proxy_url("proxy.local", 9), "socks5://proxy.local:9");
}

#[test]
fn test_get_model_dir() {
    let handler = ModelHandler::new("ggml-tiny.bin", "test_models");
    assert_eq!(handler.get_model_dir(), "test_models/ggml-tiny.bin");
}

#[test]
fn test_fetch_idempotent() {
    // the model is absent; the first fetch downloads it
    let mut dir: Vec<String> = Vec::new();
    let first = run_fetch(&mut dir, "ggml-tiny.bin", "models", true, true, "");
    assert_eq!(first.unwrap(), "models/ggml-tiny.bin");
    assert_eq!(dir, vec!["ggml-tiny.bin"]);

    // the second fetch finds the file and writes nothing further
    let second = run_fetch(&mut dir, "ggml-tiny.bin", "models", true, true, "");
    assert_eq!(second.unwrap(), "models/ggml-tiny.bin");
    assert_eq!(dir, vec!["ggml-tiny.bin"]);

    // and it takes no network step: the machine reports at the probe
    let handler = ModelHandler::new("ggml-tiny.bin", "models");
    let mut machine = handler.begin_fetch();
    match machine.on_probe(true) {
        FetchAction::Report(Ok(path)) => assert_eq!(path, "models/ggml-tiny.bin"),
        _ => panic!("an existing file must end the fetch at once"),
    }
}

#[test]
fn test_fetch_cleanup_on_failure() {
    let mut dir: Vec<String> = Vec::new();
    let r = run_fetch(&mut dir, "ggml-tiny.bin", "models", true, false, "timed out");
    match r {
        Err(VtError::FetchFailed(reason)) => assert_eq!(reason, "timed out"),
        _ => panic!("a failed download must surface as a fetch failure"),
    }
    // the partial file is gone: the directory holds nothing for the name
    assert!(dir.is_empty());
}

#[test]
fn test_fetch_dir_failure() {
    let mut dir: Vec<String> = Vec::new();
    let r = run_fetch(&mut dir, "ggml-tiny.bin", "models", false, true, "no permission");
    match r {
        Err(VtError::FetchFailed(reason)) => assert_eq!(reason, "no permission"),
        _ => panic!("a failed directory creation must surface as a fetch failure"),
    }
    assert!(dir.is_empty());
}

#[test]
fn test_fetch_machine_failure_path() {
    let handler = ModelHandler::new("ggml-tiny.bin", "models");
    let mut machine = handler.begin_fetch();
    match machine.probe_action() {
        FetchAction::CheckFile(p) => assert_eq!(p, "models/ggml-tiny.bin"),
        _ => panic!("the fetch must begin with a probe"),
    }
    match machine.on_probe(false) {
        FetchAction::CreateDir(d) => assert_eq!(d, "models"),
        _ => panic!("an absent file must lead to directory creation"),
    }
    match machine.on_dir_ready(true, String::new()) {
        FetchAction::Download(url, dest) => {
            assert_eq!(
                url,
                "https://huggingface.co/ggerganov/whisper.cpp/resolve/main/ggml-tiny.bin"
            );
            assert_eq!(dest, "models/ggml-tiny.bin");
        }
        _ => panic!("a ready directory must lead to the download"),
    }
    match machine.on_download(false, "connection reset".to_string()) {
        FetchAction::RemoveFile(p) => assert_eq!(p, "models/ggml-tiny.bin"),
        _ => panic!("a failed download must lead to cleanup"),
    }
    match machine.on_removed() {
        FetchAction::Report(Err(VtError::FetchFailed(reason))) => {
            assert_eq!(reason, "connection reset")
        }
        _ => panic!("cleanup must end in the failure report"),
    }
}
