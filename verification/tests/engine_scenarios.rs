use wsclone::engine::Engine;
use wsclone::engine::EngineAction;
use wsclone::errors::WscError;
use wsclone::fetch::FetchAction;
use wsclone::fetch::FetchFlow;
use wsclone::fetch::FetchOutcome;
use wsclone::fetch::SendResult;
use wsclone::DownloadRule;
use wsclone::Update;

fn rule_with(max_level: u8, abort: bool, blacklist: Vec<String>) -> DownloadRule {
    DownloadRule {
        max_static_file_size: 10_000_000,
        download_static_resource_with_unknown_size: true,
        progress_update_interval: 0,
        max_level,
        black_list_urls: blacklist,
        abort_on_download_error: abort,
    }
}

#[test]
fn single_page_two_assets() {
    let rule = rule_with(0, false, Vec::new());
    let (mut eng, step) =
        Engine::new("s1".to_string(), "http://h/".to_string(), "dest".to_string(), rule).unwrap();
    assert!(matches!(step.action, EngineAction::CreateDir { ref path } if path == "dest"));

    let step = eng.on_dir_created(Ok(()));
    match step.action {
        EngineAction::FetchPage { url, forced_name, rule } => {
            assert_eq!(url.text, "http://h/");
            assert_eq!(forced_name.as_deref(), Some("index.html"));
            assert!(rule.abort_on_download_error);
            assert!(rule.download_static_resource_with_unknown_size);
        },
        other => panic!("expected the seed fetch, got {:?}", other),
    }

    let step = eng.on_page_fetched(FetchOutcome::Saved("dest/index.html".to_string()));
    assert!(matches!(step.action, EngineAction::ReadPage { ref path } if path == "dest/index.html"));

    let html = r#"<html><link rel="stylesheet" href="a.css"><script src="b.js"></script></html>"#;
    let step = eng.on_page_read(Ok(html.to_string()));
    match step.action {
        EngineAction::FetchAsset { url, .. } => assert_eq!(url.text, "http://h/a.css"),
        other => panic!("expected the stylesheet fetch, got {:?}", other),
    }

    let step = eng.on_asset_fetched(FetchOutcome::Saved("dest/a.css".to_string()));
    match step.action {
        EngineAction::FetchAsset { url, .. } => assert_eq!(url.text, "http://h/b.js"),
        other => panic!("expected the script fetch, got {:?}", other),
    }

    let step = eng.on_asset_fetched(FetchOutcome::Saved("dest/b.js".to_string()));
    assert!(matches!(step.action, EngineAction::LoadPage { ref path } if path == "dest/index.html"));

    let step = eng.on_page_loaded(Ok(html.to_string()));
    match step.action {
        EngineAction::StorePage { path, content } => {
            assert_eq!(path, "dest/index.html");
            assert!(content.contains(r#"href="dest/a.css""#));
            assert!(content.contains(r#"src="dest/b.js""#));
            assert!(!content.contains(r#"href="a.css""#));
        },
        other => panic!("expected the rewritten page, got {:?}", other),
    }

    let step = eng.on_page_stored(Ok(()));
    assert!(matches!(step.action, EngineAction::Finished(Ok(()))));
    assert_eq!(eng.session.processed_pages.len(), 1);
    assert_eq!(eng.session.processed_static_files.len(), 2);
}

#[test]
fn depth_one_follows_anchor_and_depth_zero_does_not() {
    // With max_level = 1 the sub-page and its image are mirrored.
    let rule = rule_with(1, false, Vec::new());
    let (mut eng, _) =
        Engine::new("s2".to_string(), "http://h/".to_string(), "dest".to_string(), rule).unwrap();
    let _ = eng.on_dir_created(Ok(()));
    let _ = eng.on_page_fetched(FetchOutcome::Saved("dest/index.html".to_string()));
    let step = eng.on_page_read(Ok(r#"<a href="/p2.html">next</a>"#.to_string()));
    match step.action {
        EngineAction::FetchPage { url, forced_name, .. } => {
            assert_eq!(url.text, "http://h/p2.html");
            assert!(forced_name.is_none());
        },
        other => panic!("expected the sub-page fetch, got {:?}", other),
    }
    let step = eng.on_page_fetched(FetchOutcome::Saved("dest/p2.html".to_string()));
    assert!(matches!(step.action, EngineAction::ReadPage { ref path } if path == "dest/p2.html"));
    let step = eng.on_page_read(Ok(r#"<img src="img.png">"#.to_string()));
    match step.action {
        EngineAction::FetchAsset { url, .. } => assert_eq!(url.text, "http://h/img.png"),
        other => panic!("expected the image fetch, got {:?}", other),
    }
    let step = eng.on_asset_fetched(FetchOutcome::Saved("dest/img.png".to_string()));
    // Both saved pages are rewritten.
    assert!(matches!(step.action, EngineAction::LoadPage { ref path } if path == "dest/index.html"));
    let step = eng.on_page_loaded(Ok(r#"<a href="/p2.html">next</a>"#.to_string()));
    match step.action {
        EngineAction::StorePage { content, .. } => {
            assert!(content.contains(r#"href="dest/p2.html""#));
        },
        other => panic!("expected the rewritten seed, got {:?}", other),
    }
    let step = eng.on_page_stored(Ok(()));
    assert!(matches!(step.action, EngineAction::LoadPage { ref path } if path == "dest/p2.html"));
    let step = eng.on_page_loaded(Ok(r#"<img src="img.png">"#.to_string()));
    match step.action {
        EngineAction::StorePage { content, .. } => {
            assert!(content.contains(r#"src="dest/img.png""#));
        },
        other => panic!("expected the rewritten sub-page, got {:?}", other),
    }
    let step = eng.on_page_stored(Ok(()));
    assert!(matches!(step.action, EngineAction::Finished(Ok(()))));
    assert_eq!(eng.session.processed_pages.len(), 2);

    // With max_level = 0 the sub-page is never fetched.
    let rule = rule_with(0, false, Vec::new());
    let (mut eng, _) =
        Engine::new("s2b".to_string(), "http://h/".to_string(), "dest".to_string(), rule).unwrap();
    let _ = eng.on_dir_created(Ok(()));
    let _ = eng.on_page_fetched(FetchOutcome::Saved("dest/index.html".to_string()));
    let step = eng.on_page_read(Ok(r#"<a href="/p2.html">next</a>"#.to_string()));
    assert!(matches!(step.action, EngineAction::LoadPage { .. }));
    assert_eq!(eng.session.processed_pages.len(), 1);
}

#[test]
fn unreadable_sub_page_is_reported_and_survived() {
    let rule = rule_with(1, false, Vec::new());
    let (mut eng, _) =
        Engine::new("s2c".to_string(), "http://h/".to_string(), "dest".to_string(), rule).unwrap();
    let _ = eng.on_dir_created(Ok(()));
    let _ = eng.on_page_fetched(FetchOutcome::Saved("dest/index.html".to_string()));
    let _ = eng.on_page_read(Ok(r#"<a href="/p2.html">next</a>"#.to_string()));
    let _ = eng.on_page_fetched(FetchOutcome::Saved("dest/p2.html".to_string()));
    let step = eng.on_page_read(Err("stream did not contain valid UTF-8".to_string()));
    // The failure is reported as an error naming the offending file...
    match step.notice {
        Some(m) => {
            assert!(m.is_error);
            assert_eq!(m.resource_name, "dest/p2.html");
            assert!(m.content.contains("stream did not contain valid UTF-8"));
        },
        None => panic!("expected a notice about the unreadable page"),
    }
    // ...and the session goes on: the page yields no links, both saved
    // pages are still rewritten.
    assert!(matches!(step.action, EngineAction::LoadPage { ref path } if path == "dest/index.html"));
    let step = eng.on_page_loaded(Ok(r#"<a href="/p2.html">next</a>"#.to_string()));
    assert!(matches!(step.action, EngineAction::StorePage { .. }));
    let step = eng.on_page_stored(Ok(()));
    assert!(matches!(step.action, EngineAction::LoadPage { ref path } if path == "dest/p2.html"));
}

#[test]
fn blacklisted_asset_is_never_requested() {
    let rule = rule_with(0, false, vec!["tracker/".to_string()]);
    let (mut eng, _) =
        Engine::new("s3".to_string(), "http://h/".to_string(), "dest".to_string(), rule).unwrap();
    let _ = eng.on_dir_created(Ok(()));
    let _ = eng.on_page_fetched(FetchOutcome::Saved("dest/index.html".to_string()));
    let step = eng.on_page_read(Ok(r#"<img src="tracker/pixel.gif">"#.to_string()));
    let (url, asset_rule) = match step.action {
        EngineAction::FetchAsset { url, rule } => (url, rule),
        other => panic!("expected the asset step, got {:?}", other),
    };
    // The driver starts the download; the blacklist stops it before any
    // request is issued.
    let (_flow, fstep) = FetchFlow::start(
        "s3".to_string(),
        url,
        "dest".to_string(),
        asset_rule,
        None,
        "0".to_string(),
        true,
    );
    assert!(fstep.notice.is_none());
    assert!(matches!(fstep.action, FetchAction::Return(FetchOutcome::Skipped)));
    let step = eng.on_asset_fetched(FetchOutcome::Skipped);
    assert!(matches!(step.action, EngineAction::LoadPage { .. }));
    assert_eq!(eng.session.processed_static_files.len(), 0);
}

#[test]
fn cross_host_anchor_is_skipped() {
    let rule = rule_with(1, false, Vec::new());
    let (mut eng, _) =
        Engine::new("s4".to_string(), "http://h1/".to_string(), "dest".to_string(), rule).unwrap();
    let _ = eng.on_dir_created(Ok(()));
    let _ = eng.on_page_fetched(FetchOutcome::Saved("dest/index.html".to_string()));
    let step = eng.on_page_read(Ok(r#"<a href="http://h2/p">away</a>"#.to_string()));
    // No page on h2 is fetched: the engine goes straight to rewriting.
    assert!(matches!(step.action, EngineAction::LoadPage { .. }));
    assert_eq!(eng.session.processed_pages.len(), 1);
    assert_eq!(eng.session.processed_pages[0].0, "http://h1/");
}

#[test]
fn bad_status_asset_continues_when_not_aborting() {
    let rule = rule_with(0, false, Vec::new());
    let (mut eng, _) =
        Engine::new("s5".to_string(), "http://h/".to_string(), "dest".to_string(), rule).unwrap();
    let _ = eng.on_dir_created(Ok(()));
    let _ = eng.on_page_fetched(FetchOutcome::Saved("dest/index.html".to_string()));
    let step = eng.on_page_read(Ok(r#"<script src="b.js"></script>"#.to_string()));
    let (url, asset_rule) = match step.action {
        EngineAction::FetchAsset { url, rule } => (url, rule),
        other => panic!("expected the asset step, got {:?}", other),
    };
    let resource = url.text.clone();
    let (mut flow, fstep) = FetchFlow::start(
        "s5".to_string(),
        url,
        "dest".to_string(),
        asset_rule,
        None,
        "0".to_string(),
        true,
    );
    assert!(matches!(fstep.action, FetchAction::SendRequest));
    let fstep = flow.on_response(SendResult::Response {
        status: 404,
        content_length: None,
        content_type: None,
        content_disposition: None,
    });
    // A Message{is_error, resource_name = URL} is observed...
    match fstep.notice {
        Some(Update::MessageUpdate(m)) => {
            assert!(m.is_error);
            assert_eq!(m.resource_name, resource);
        },
        other => panic!("expected an error message, got {:?}", other),
    }
    // ...and the session carries on to a clean finish.
    assert!(matches!(fstep.action, FetchAction::Return(FetchOutcome::Skipped)));
    let step = eng.on_asset_fetched(FetchOutcome::Skipped);
    assert!(matches!(step.action, EngineAction::LoadPage { .. }));
    let step = eng.on_page_loaded(Ok(r#"<script src="b.js"></script>"#.to_string()));
    assert!(matches!(step.action, EngineAction::StorePage { .. }));
    let step = eng.on_page_stored(Ok(()));
    assert!(matches!(step.action, EngineAction::Finished(Ok(()))));
}

#[test]
fn bad_status_asset_aborts_when_asked() {
    let rule = rule_with(0, true, Vec::new());
    let (mut eng, _) =
        Engine::new("s6".to_string(), "http://h/".to_string(), "dest".to_string(), rule).unwrap();
    let _ = eng.on_dir_created(Ok(()));
    let _ = eng.on_page_fetched(FetchOutcome::Saved("dest/index.html".to_string()));
    let step = eng.on_page_read(Ok(r#"<script src="b.js"></script>"#.to_string()));
    let (url, asset_rule) = match step.action {
        EngineAction::FetchAsset { url, rule } => (url, rule),
        other => panic!("expected the asset step, got {:?}", other),
    };
    let (mut flow, _) = FetchFlow::start(
        "s6".to_string(),
        url,
        "dest".to_string(),
        asset_rule,
        None,
        "0".to_string(),
        true,
    );
    let fstep = flow.on_response(SendResult::Response {
        status: 404,
        content_length: None,
        content_type: None,
        content_disposition: None,
    });
    let err = match fstep.action {
        FetchAction::Return(FetchOutcome::Failed(e)) => e,
        other => panic!("expected the failed download, got {:?}", other),
    };
    match &err {
        WscError::ErrorStatusCode { status_code, url } => {
            assert_eq!(status_code, "404");
            assert_eq!(url, "http://h/b.js");
        },
        other => panic!("expected the status error, got {:?}", other),
    }
    let step = eng.on_asset_fetched(FetchOutcome::Failed(err));
    match step.action {
        EngineAction::Finished(Err(WscError::ErrorStatusCode { status_code, .. })) => {
            assert_eq!(status_code, "404");
        },
        other => panic!("expected the aborted session, got {:?}", other),
    }
}
