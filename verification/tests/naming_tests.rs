use wsclone::naming::fetch_file_name;
use wsclone::naming::file_name_for;
use wsclone::naming::join_path;

const STAMP: &str = "1669900000";

#[test]
fn get_file_name_from_url() {
    let link: &str = "http://somelink.com/hello.js?skdjs=324&skdsjk=skfj";
    let file_name: &str = "hello.js";
    assert_eq!(
        file_name_for(link, Some("text/javascript; charset=utf-8"), None, STAMP),
        file_name
    );
}

#[test]
fn get_file_name_from_url_no_charset() {
    let link: &str = "http://somelink.com/hello.js?skdjs=324&skdsjk=skfj";
    let file_name: &str = "hello.js";
    assert_eq!(file_name_for(link, Some("text/javascript;"), None, STAMP), file_name);
}

#[test]
fn get_file_name_from_url_no_content_type() {
    let link: &str = "http://somelink.com/hello.js?skdjs=324&skdsjk=skfj";
    let file_name: &str = "hello.js";
    assert_eq!(file_name_for(link, None, None, STAMP), file_name);
}

#[test]
fn get_file_name_no_name_in_url() {
    let link: &str = "http://somelink.com/";
    assert!(file_name_for(link, Some("text/javascript; charset=utf-8"), None, STAMP)
        .contains("static"));
}

#[test]
fn get_file_name_no_name_in_url_2() {
    let link: &str = "http://somelink.com/";
    assert!(file_name_for(link, Some("text/html; charset=utf-8"), None, STAMP).contains("page"));
}

#[test]
fn get_file_name_from_content_disposition() {
    let link: &str = "http://somelink.com/";
    let file_name: &str = "hello.js";
    assert_eq!(
        file_name_for(link, None, Some(r#"attachment; filename="hello.js""#), STAMP),
        file_name
    );
}

#[test]
fn get_file_name_from_content_disposition_filename_rfc_5987_style() {
    let link: &str = "http://somelink.com/";
    let file_name: &str = "hello.js";
    assert_eq!(
        file_name_for(
            link,
            None,
            Some(r#"attachment; filename="hello.js"; filename*=UTF-8'en'hello.js"#),
            STAMP
        ),
        file_name
    );
}

#[test]
fn fetch_name_takes_last_path_segment_without_query() {
    let name = fetch_file_name("http://h/dir/style.css?v=3", None, None, STAMP);
    assert_eq!(name, "style.css");
}

#[test]
fn fetch_name_uses_content_disposition_when_path_is_bare() {
    let name = fetch_file_name(
        "http://h/",
        None,
        Some(r#"attachment; filename="report.pdf""#),
        STAMP,
    );
    assert_eq!(name, "report.pdf");
}

#[test]
fn fetch_name_supports_rfc_5987_disposition() {
    let name = fetch_file_name(
        "http://h/",
        None,
        Some("attachment; filename*=UTF-8'en'archive.zip"),
        STAMP,
    );
    assert_eq!(name, "archive.zip");
}

#[test]
fn fetch_name_synthesizes_from_mime_type() {
    let name = fetch_file_name("http://h/", Some("TEXT/HTML; charset=utf-8"), None, STAMP);
    assert_eq!(name, format!("file-{}.html", STAMP));
}

#[test]
fn fetch_name_without_any_hint_is_generic() {
    let name = fetch_file_name("http://h/", None, None, STAMP);
    assert_eq!(name, format!("file-{}", STAMP));
}

#[test]
fn join_path_inserts_exactly_one_slash() {
    assert_eq!(join_path("dest", "a.css"), "dest/a.css");
    assert_eq!(join_path("dest/", "a.css"), "dest/a.css");
}
