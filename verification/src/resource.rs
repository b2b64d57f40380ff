//! Resource classification: pages against static files.
use vstd::prelude::*;

use crate::text::contains_seq;
use crate::text::to_chars;
use crate::text::contains_sub;

verus! {

/// What kind of resource a downloaded file is.
#[derive(Debug, PartialEq, Eq, Structural)]
pub enum ResourceType {
    /// An HTML document whose links are followed.
    Page,
    /// A static file that is only stored.
    StaticFile,
}

/// Where one download stands.
#[derive(Debug, PartialEq, Eq, Structural)]
pub enum DownloadState {
    Queued,
    Downloading,
    Paused,
    Completed,
}

/// A file name that looks like an HTML document: it mentions an HTML
/// extension.
pub open spec fn looks_like_page(name: Seq<char>) -> bool {
    contains_seq(name, ".html"@) || contains_seq(name, ".xhtml"@) || contains_seq(name, ".htm"@)
}

/// Classifies a resource by its file name: HTML documents are pages,
/// everything else is a static file.
pub fn classify_resource(file_name: &str) -> (r: ResourceType)
    ensures
        r == (if looks_like_page(file_name@) {
            ResourceType::Page
        } else {
            ResourceType::StaticFile
        }),
{
    let name = to_chars(file_name);
    let html = to_chars(".html");
    let xhtml = to_chars(".xhtml");
    let htm = to_chars(".htm");
    if contains_sub(&name, &html) || contains_sub(&name, &xhtml) || contains_sub(&name, &htm) {
        ResourceType::Page
    } else {
        ResourceType::StaticFile
    }
}

/// The embedding application's stored settings.
#[derive(Debug)]
pub struct Settings {
    pub max_static_file_size: usize,
    pub clones_dir: String,
    pub download_static_res_with_unknown_size: bool,
    pub abort_on_download_error: bool,
}

} // verus!
