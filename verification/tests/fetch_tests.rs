use wsclone::errors::WscError;
use wsclone::fetch::ChunkStatus;
use wsclone::fetch::EmitStatus;
use wsclone::fetch::FetchAction;
use wsclone::fetch::FetchFlow;
use wsclone::fetch::FetchOutcome;
use wsclone::fetch::SendResult;
use wsclone::fetch::status_string;
use wsclone::urls::parse_link;
use wsclone::urls::LinkParse;
use wsclone::DownloadRule;
use wsclone::Update;

fn plain_rule() -> DownloadRule {
    DownloadRule {
        max_static_file_size: 1000,
        download_static_resource_with_unknown_size: true,
        progress_update_interval: 100,
        max_level: 0,
        black_list_urls: Vec::new(),
        abort_on_download_error: false,
    }
}

fn url_of(text: &str) -> wsclone::urls::WebUrl {
    match parse_link(text) {
        LinkParse::Absolute(u) => u,
        other => panic!("not an absolute url: {:?}", other),
    }
}

fn started(rule: DownloadRule) -> FetchFlow {
    let (flow, step) = FetchFlow::start(
        "s".to_string(),
        url_of("http://h/file.bin"),
        "dest".to_string(),
        rule,
        None,
        "7".to_string(),
        true,
    );
    assert!(matches!(step.action, FetchAction::SendRequest));
    flow
}

#[test]
fn missing_destination_directory_is_fatal() {
    let (_, step) = FetchFlow::start(
        "s".to_string(),
        url_of("http://h/file.bin"),
        "dest".to_string(),
        plain_rule(),
        None,
        "7".to_string(),
        false,
    );
    match step.action {
        FetchAction::Return(FetchOutcome::Failed(
            WscError::DestinationDirectoryDoesNotExist(dir),
        )) => assert_eq!(dir, "dest"),
        other => panic!("expected the missing-directory error, got {:?}", other),
    }
}

#[test]
fn transport_error_is_always_fatal() {
    let mut flow = started(plain_rule());
    let step = flow.on_response(SendResult::TransportError { message: "refused".to_string() });
    assert!(matches!(
        step.action,
        FetchAction::Return(FetchOutcome::Failed(WscError::NetworkError(_)))
    ));
}

#[test]
fn streaming_saves_and_reports_monotone_progress() {
    let mut flow = started(plain_rule());
    let step = flow.on_response(SendResult::Response {
        status: 200,
        content_length: Some(20),
        content_type: None,
        content_disposition: None,
    });
    let path = match step.action {
        FetchAction::OpenFile { path } => path,
        other => panic!("expected the file to open, got {:?}", other),
    };
    assert_eq!(path, "dest/file.bin");
    let step = flow.on_file_opened(Ok(0));
    assert!(matches!(step.action, FetchAction::ReadChunk { emit: None }));

    let mut seen: Vec<u64> = Vec::new();
    let step = flow.on_chunk(
        ChunkStatus::Data { len: 8, write_error: None },
        1000,
        EmitStatus::NotAsked,
    );
    match step.action {
        FetchAction::ReadChunk { emit: Some(p) } => seen.push(p.bytes_written),
        other => panic!("expected a progress offer, got {:?}", other),
    }
    // Within the interval no second progress event is offered.
    let step = flow.on_chunk(
        ChunkStatus::Data { len: 4, write_error: None },
        1050,
        EmitStatus::Sent,
    );
    assert!(matches!(step.action, FetchAction::ReadChunk { emit: None }));
    // After the interval the next one is.
    let step = flow.on_chunk(
        ChunkStatus::Data { len: 8, write_error: None },
        1200,
        EmitStatus::NotAsked,
    );
    match step.action {
        FetchAction::ReadChunk { emit: Some(p) } => seen.push(p.bytes_written),
        other => panic!("expected a progress offer, got {:?}", other),
    }
    let step = flow.on_chunk(ChunkStatus::End, 1300, EmitStatus::Sent);
    match step.notice {
        Some(Update::ProgressUpdate(p)) => {
            assert_eq!(p.bytes_written, 20);
            assert_eq!(p.file_size, 20);
            seen.push(p.bytes_written);
        },
        other => panic!("expected the terminal progress, got {:?}", other),
    }
    match step.action {
        FetchAction::Return(FetchOutcome::Saved(saved)) => assert_eq!(saved, "dest/file.bin"),
        other => panic!("expected the saved outcome, got {:?}", other),
    }
    for pair in seen.windows(2) {
        assert!(pair[0] <= pair[1]);
    }
}

#[test]
fn closed_channel_ends_the_download() {
    let mut flow = started(plain_rule());
    let _ = flow.on_response(SendResult::Response {
        status: 200,
        content_length: None,
        content_type: None,
        content_disposition: None,
    });
    let _ = flow.on_file_opened(Ok(0));
    let step = flow.on_chunk(ChunkStatus::End, 0, EmitStatus::Closed);
    assert!(matches!(
        step.action,
        FetchAction::Return(FetchOutcome::Failed(WscError::ChannelClosed))
    ));
}

#[test]
fn oversized_resource_is_skipped() {
    let mut flow = started(plain_rule());
    let _ = flow.on_response(SendResult::Response {
        status: 200,
        content_length: Some(10_000),
        content_type: None,
        content_disposition: None,
    });
    let step = flow.on_file_opened(Ok(0));
    assert!(matches!(step.action, FetchAction::Return(FetchOutcome::Skipped)));
}

#[test]
fn unknown_size_is_skipped_when_the_rule_says_so() {
    let mut rule = plain_rule();
    rule.download_static_resource_with_unknown_size = false;
    let mut flow = started(rule);
    let _ = flow.on_response(SendResult::Response {
        status: 200,
        content_length: None,
        content_type: None,
        content_disposition: None,
    });
    let step = flow.on_file_opened(Ok(0));
    assert!(matches!(step.action, FetchAction::Return(FetchOutcome::Skipped)));
}

#[test]
fn complete_file_on_disk_short_circuits() {
    let mut flow = started(plain_rule());
    let _ = flow.on_response(SendResult::Response {
        status: 200,
        content_length: Some(20),
        content_type: None,
        content_disposition: None,
    });
    let step = flow.on_file_opened(Ok(20));
    match step.notice {
        Some(Update::ProgressUpdate(p)) => {
            assert_eq!(p.bytes_written, 20);
            assert_eq!(p.file_size, 20);
        },
        other => panic!("expected the terminal progress, got {:?}", other),
    }
    assert!(matches!(
        step.action,
        FetchAction::Return(FetchOutcome::Saved(path)) if path == "dest/file.bin"
    ));
}

#[test]
fn write_failure_is_a_file_error() {
    let mut flow = started(plain_rule());
    let _ = flow.on_response(SendResult::Response {
        status: 200,
        content_length: Some(20),
        content_type: None,
        content_disposition: None,
    });
    let _ = flow.on_file_opened(Ok(0));
    let step = flow.on_chunk(
        ChunkStatus::Data { len: 4, write_error: Some("disk full".to_string()) },
        0,
        EmitStatus::NotAsked,
    );
    match step.action {
        FetchAction::Return(FetchOutcome::Failed(WscError::FileOperationError {
            file_name,
            message,
        })) => {
            assert_eq!(file_name, "dest/file.bin");
            assert_eq!(message, "disk full");
        },
        other => panic!("expected the file error, got {:?}", other),
    }
}

#[test]
fn mid_stream_status_error_follows_the_abort_rule() {
    let mut rule = plain_rule();
    rule.abort_on_download_error = true;
    let mut flow = started(rule);
    let _ = flow.on_response(SendResult::Response {
        status: 200,
        content_length: None,
        content_type: None,
        content_disposition: None,
    });
    let _ = flow.on_file_opened(Ok(0));
    let step = flow.on_chunk(ChunkStatus::ReadStatusError { code: 503 }, 0, EmitStatus::NotAsked);
    match step.action {
        FetchAction::Return(FetchOutcome::Failed(WscError::ErrorStatusCode {
            status_code,
            ..
        })) => assert_eq!(status_code, "503"),
        other => panic!("expected the status error, got {:?}", other),
    }
}

#[test]
fn forced_name_is_used_verbatim() {
    let (mut flow, _) = FetchFlow::start(
        "s".to_string(),
        url_of("http://h/whatever?x=1"),
        "dest".to_string(),
        plain_rule(),
        Some("index.html".to_string()),
        "7".to_string(),
        true,
    );
    let step = flow.on_response(SendResult::Response {
        status: 200,
        content_length: Some(5),
        content_type: Some("text/html".to_string()),
        content_disposition: None,
    });
    match step.action {
        FetchAction::OpenFile { path } => assert_eq!(path, "dest/index.html"),
        other => panic!("expected the forced name, got {:?}", other),
    }
}

#[test]
fn status_codes_render_in_decimal() {
    assert_eq!(status_string(404), "404");
    assert_eq!(status_string(0), "0");
    assert_eq!(status_string(65535), "65535");
}
