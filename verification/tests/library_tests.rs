use wsclone::daemon::CloneDecision;
use wsclone::daemon::DaemonCore;
use wsclone::daemon::StatusDecision;
use wsclone::errors::WscError;
use wsclone::ipc::default_prop;
use wsclone::links::get_anchor_links;
use wsclone::links::get_static_resource_links;
use wsclone::naming::file_name_for;
use wsclone::resource::classify_resource;
use wsclone::resource::ResourceType;
use wsclone::rewrite::rewrite_all;
use wsclone::session::LinkInfo;
use wsclone::session::Session;
use wsclone::text::chars_to_string;
use wsclone::text::to_chars;
use wsclone::urls::blacklisted;
use wsclone::urls::get_full_link;
use wsclone::urls::parse_link;
use wsclone::urls::LinkParse;
use wsclone::urls::WebUrl;
use wsclone::DownloadRule;
use wsclone::Message;
use wsclone::Progress;
use wsclone::Update;

fn url_of(text: &str) -> WebUrl {
    match parse_link(text) {
        LinkParse::Absolute(u) => u,
        other => panic!("not an absolute url: {:?}", other),
    }
}

#[test]
fn absolute_urls_carry_their_host() {
    let u = url_of("http://example.com/a/b?q=1");
    assert_eq!(u.text, "http://example.com/a/b?q=1");
    assert_eq!(u.host.as_deref(), Some("example.com"));
    assert!(matches!(parse_link("/relative/path"), LinkParse::Relative));
    assert!(matches!(parse_link("http://"), LinkParse::Relative));
}

#[test]
fn relative_links_resolve_against_the_page() {
    let base = url_of("http://h/sub/page.html");
    let u = get_full_link("img.png", &base).unwrap();
    assert_eq!(u.text, "http://h/sub/img.png");
    let u = get_full_link("/top.css", &base).unwrap();
    assert_eq!(u.text, "http://h/top.css");
    let u = get_full_link("http://other/x", &base).unwrap();
    assert_eq!(u.text, "http://other/x");
    assert!(get_full_link("", &base).is_none());
}

#[test]
fn blacklist_matches_by_substring() {
    let list = vec!["tracker/".to_string(), "ads".to_string()];
    assert!(blacklisted("http://h/tracker/pixel.gif", &list));
    assert!(blacklisted("http://ads.example/x", &list));
    assert!(!blacklisted("http://h/a.css", &list));
    assert!(!blacklisted("http://h/a.css", &Vec::new()));
}

#[test]
fn anchor_extraction_filters_and_deduplicates() {
    let page = url_of("http://h/");
    let html = r##"
        <a href="/one.html">a</a>
        <a href="/one.html">again</a>
        <a href="#section">fragment</a>
        <a href="javascript:void(0)">noop</a>
        <a href="/two.html" download>file</a>
        <a href="/three.html">b</a>
    "##;
    let found = get_anchor_links(html, &page);
    let texts: Vec<&str> = found.iter().map(|p| p.1.text.as_str()).collect();
    assert_eq!(texts, vec!["http://h/one.html", "http://h/three.html"]);
    assert_eq!(found[0].0, "/one.html");
}

#[test]
fn asset_extraction_tags_attributes_and_skips_inline_data() {
    let page = url_of("http://h/");
    let html = r##"
        <link rel="stylesheet" href="a.css">
        <link rel="icon" href="favicon.ico">
        <script src="b.js"></script>
        <img src="c.png">
        <img src="data:image/png;base64,AAAA">
    "##;
    let found = get_static_resource_links(html, &page);
    let triples: Vec<(&str, &str)> = found
        .iter()
        .map(|t| (t.1.text.as_str(), t.2.as_str()))
        .collect();
    assert_eq!(
        triples,
        vec![
            ("http://h/a.css", "href"),
            ("http://h/b.js", "src"),
            ("http://h/c.png", "src"),
        ]
    );
}

#[test]
fn session_records_first_path_and_keeps_urls_unique() {
    let seed = url_of("http://h/");
    let mut session = Session::new(seed, "s".to_string());
    let page = url_of("http://h/p.html");
    session.record_page(
        &page,
        LinkInfo {
            relative_link: "/p.html".to_string(),
            file_path: "dest/p.html".to_string(),
            element_attribute: "href".to_string(),
        },
    );
    session.record_page(
        &page,
        LinkInfo {
            relative_link: "/p.html".to_string(),
            file_path: "dest/other.html".to_string(),
            element_attribute: "href".to_string(),
        },
    );
    assert_eq!(session.processed_pages.len(), 1);
    assert_eq!(session.processed_pages[0].1.file_path, "dest/p.html");
    // The same URL cannot also become an asset.
    session.record_asset(
        &page,
        LinkInfo {
            relative_link: "/p.html".to_string(),
            file_path: "dest/p.bin".to_string(),
            element_attribute: "src".to_string(),
        },
    );
    assert_eq!(session.processed_static_files.len(), 0);
    assert!(session.has_page("http://h/p.html"));
    assert!(!session.has_asset("http://h/p.html"));
}

#[test]
fn session_snapshot_copies_both_registries() {
    let seed = url_of("http://h/");
    let mut session = Session::new(seed, "s".to_string());
    let page = url_of("http://h/p.html");
    let asset = url_of("http://h/a.css");
    session.record_page(
        &page,
        LinkInfo {
            relative_link: "/p.html".to_string(),
            file_path: "dest/p.html".to_string(),
            element_attribute: "href".to_string(),
        },
    );
    session.record_asset(
        &asset,
        LinkInfo {
            relative_link: "a.css".to_string(),
            file_path: "dest/a.css".to_string(),
            element_attribute: "href".to_string(),
        },
    );
    let (pages, assets) = session.snapshot();
    assert_eq!(pages.len(), 1);
    assert_eq!(pages[0].0, "http://h/p.html");
    assert_eq!(pages[0].1.file_path, "dest/p.html");
    assert_eq!(assets.len(), 1);
    assert_eq!(assets[0].0, "http://h/a.css");
}

#[test]
fn rewrite_replaces_each_occurrence_exactly_once() {
    let text = to_chars(r#"<a href="x">1</a><a href="x">2</a>"#);
    let pats = vec![to_chars(r#"href="x""#)];
    let reps = vec![to_chars(r#"href="dest/x""#)];
    let out = chars_to_string(&rewrite_all(&text, &pats, &reps));
    assert_eq!(out, r#"<a href="dest/x">1</a><a href="dest/x">2</a>"#);
}

#[test]
fn rewrite_prefers_the_longest_pattern() {
    let text = to_chars("start abcd end");
    let pats = vec![to_chars("ab"), to_chars("abcd")];
    let reps = vec![to_chars("SHORT"), to_chars("LONG")];
    let out = chars_to_string(&rewrite_all(&text, &pats, &reps));
    assert_eq!(out, "start LONG end");
}

#[test]
fn rewrite_does_not_rescan_replacements() {
    let text = to_chars("aa");
    let pats = vec![to_chars("aa")];
    let reps = vec![to_chars("aaaa")];
    let out = chars_to_string(&rewrite_all(&text, &pats, &reps));
    assert_eq!(out, "aaaa");
}

#[test]
fn rewrite_leaves_untouched_text_alone() {
    let text = to_chars("nothing to see");
    let pats = vec![to_chars(r#"href="x""#)];
    let reps = vec![to_chars("gone")];
    let out = chars_to_string(&rewrite_all(&text, &pats, &reps));
    assert_eq!(out, "nothing to see");
}

#[test]
fn abort_policy_by_error_kind() {
    let net = WscError::NetworkError("x".to_string());
    let missing = WscError::DestinationDirectoryDoesNotExist("d".to_string());
    let closed = WscError::ChannelClosed;
    let status = WscError::ErrorStatusCode {
        status_code: "404".to_string(),
        url: "u".to_string(),
    };
    let file = WscError::FileOperationError {
        file_name: "f".to_string(),
        message: "m".to_string(),
    };
    assert!(net.should_abort(false) && net.should_abort(true));
    assert!(missing.should_abort(false) && missing.should_abort(true));
    assert!(closed.should_abort(false) && closed.should_abort(true));
    assert!(!status.should_abort(false) && status.should_abort(true));
    assert!(!file.should_abort(false) && file.should_abort(true));
}

#[test]
fn every_error_describes_itself() {
    let errors = vec![
        WscError::ErrorCreatingDestinationDirectory("x".to_string()),
        WscError::InvalidHtml("f".to_string()),
        WscError::UnknownError("u".to_string()),
        WscError::DestinationDirectoryDoesNotExist("d".to_string()),
        WscError::FileOperationError { file_name: "f".to_string(), message: "m".to_string() },
        WscError::NetworkError("n".to_string()),
        WscError::ErrorStatusCode { status_code: "500".to_string(), url: "u".to_string() },
        WscError::ChannelClosed,
        WscError::InvalidUrl("u".to_string()),
    ];
    for e in errors.iter() {
        assert!(!e.describe().is_empty());
    }
}

#[test]
fn invalid_seed_is_rejected_up_front() {
    let rule = DownloadRule {
        max_static_file_size: 1,
        download_static_resource_with_unknown_size: false,
        progress_update_interval: 1,
        max_level: 0,
        black_list_urls: Vec::new(),
        abort_on_download_error: false,
    };
    let r = wsclone::engine::Engine::new(
        "s".to_string(),
        "::not a url::".to_string(),
        "dest".to_string(),
        rule,
    );
    match r {
        Err(WscError::InvalidUrl(u)) => assert_eq!(u, "::not a url::"),
        Err(other) => panic!("expected the invalid-url error, got {:?}", other),
        Ok(_) => panic!("expected the invalid-url error, got a session"),
    }
}

#[test]
fn update_getters_expose_their_variant() {
    let m = Update::MessageUpdate(Message {
        session_id: "s".to_string(),
        content: "hello".to_string(),
        resource_name: "r".to_string(),
        is_error: false,
    });
    assert_eq!(m.get_resource_name(), "r");
    assert_eq!(m.get_message(), Some("hello"));
    assert_eq!(m.get_file_size(), None);
    assert_eq!(m.get_bytes_written(), None);
    assert!(!m.is_error());
    let p = Update::ProgressUpdate(Progress {
        bytes_written: 3,
        file_size: 9,
        resource_name: "r2".to_string(),
        session_id: "s".to_string(),
    });
    assert_eq!(p.get_resource_name(), "r2");
    assert_eq!(p.get_message(), None);
    assert_eq!(p.get_file_size(), Some(9));
    assert_eq!(p.get_bytes_written(), Some(3));
    assert!(p.is_error());
}

#[test]
fn daemon_runs_one_session_at_a_time() {
    let mut core = DaemonCore::new();
    assert!(matches!(core.clone_requested("a".to_string()), CloneDecision::Start));
    assert!(matches!(core.clone_requested("b".to_string()), CloneDecision::Busy));
    // Aborting a session that is not current changes nothing.
    assert!(!core.abort_requested("b"));
    assert!(core.abort_requested("a"));
    assert!(matches!(core.clone_requested("b".to_string()), CloneDecision::Start));
}

#[test]
fn daemon_status_hands_updates_out_and_resets() {
    let mut core = DaemonCore::new();
    let _ = core.clone_requested("a".to_string());
    core.apply_update(&Update::ProgressUpdate(Progress {
        bytes_written: 5,
        file_size: 10,
        resource_name: "f".to_string(),
        session_id: "a".to_string(),
    }));
    core.apply_update(&Update::ProgressUpdate(Progress {
        bytes_written: 10,
        file_size: 10,
        resource_name: "f".to_string(),
        session_id: "a".to_string(),
    }));
    assert!(matches!(core.status_requested("b"), StatusDecision::WrongSession));
    match core.status_requested("a") {
        StatusDecision::Report(updates) => {
            assert_eq!(updates.len(), 1);
            assert_eq!(updates[0].0, "f");
            assert_eq!(updates[0].1.bytes_written, 10);
            assert_eq!(updates[0].1.f_size, Some(10));
        },
        other => panic!("expected a report, got {:?}", other_kind(&other)),
    }
    core.session_ended();
    match core.status_requested("a") {
        StatusDecision::ReportFinal(updates) => assert_eq!(updates.len(), 0),
        other => panic!("expected the final report, got {:?}", other_kind(&other)),
    }
    // The daemon is ready for a new session afterwards.
    assert!(matches!(core.clone_requested("c".to_string()), CloneDecision::Start));
}

fn other_kind(d: &StatusDecision) -> &'static str {
    match d {
        StatusDecision::WrongSession => "WrongSession",
        StatusDecision::NoUpdates => "NoUpdates",
        StatusDecision::Report(_) => "Report",
        StatusDecision::ReportFinal(_) => "ReportFinal",
    }
}

#[test]
fn daemon_folds_messages_and_progress_together() {
    let mut core = DaemonCore::new();
    let _ = core.clone_requested("a".to_string());
    core.apply_update(&Update::MessageUpdate(Message {
        session_id: "a".to_string(),
        content: "server returned an error response".to_string(),
        resource_name: "f".to_string(),
        is_error: true,
    }));
    // A later progress event keeps the collected message.
    core.apply_update(&Update::ProgressUpdate(Progress {
        bytes_written: 7,
        file_size: 9,
        resource_name: "f".to_string(),
        session_id: "a".to_string(),
    }));
    match core.status_requested("a") {
        StatusDecision::Report(updates) => {
            assert_eq!(updates.len(), 1);
            assert_eq!(updates[0].1.bytes_written, 7);
            assert_eq!(updates[0].1.f_size, Some(9));
            let m = updates[0].1.message.as_ref().expect("the message should be kept");
            assert!(m.is_error);
            assert_eq!(m.message, "server returned an error response");
        },
        other => panic!("expected a report, got {:?}", other_kind(&other)),
    }
}

#[test]
fn resources_classify_by_html_extension() {
    assert_eq!(classify_resource("index.html"), ResourceType::Page);
    assert_eq!(classify_resource("doc.xhtml"), ResourceType::Page);
    assert_eq!(classify_resource("old.htm"), ResourceType::Page);
    assert_eq!(classify_resource("style.css"), ResourceType::StaticFile);
}

#[test]
fn default_prop_is_empty() {
    assert_eq!(default_prop(), "");
}

#[test]
fn mime_fallbacks_cover_the_table() {
    let stamp = "9";
    assert!(file_name_for("http://h/", Some("image/png"), None, stamp).ends_with(".png"));
    assert!(file_name_for("http://h/", Some("application/pdf"), None, stamp).ends_with(".pdf"));
    assert!(file_name_for("http://h/", Some("audio/mpeg"), None, stamp).ends_with(".mp3"));
    assert!(file_name_for("http://h/", Some("application/unknown"), None, stamp)
        .starts_with("file-"));
}
