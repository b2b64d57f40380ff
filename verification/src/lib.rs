//! A verified core for a website-mirroring engine.
//!
//! Given a seed URL and a depth budget, the engine fetches the seed page,
//! extracts its static assets and in-host hyperlinks, downloads them up to
//! the configured depth, and finally rewrites every saved page so that each
//! link points at its local copy.  The modules here hold the decision logic
//! of that pipeline — URL resolution, link extraction, file naming, the
//! session store, the fetch and coordinator state machines, and the link
//! rewriter — each with a contract.  All I/O is performed by the embedding
//! process, which drives the state machines and reports what happened.
use vstd::prelude::*;

pub mod daemon;
pub mod engine;
pub mod errors;
pub mod fetch;
pub mod ipc;
pub mod links;
pub mod naming;
pub mod resource;
pub mod rewrite;
pub mod session;
pub mod text;
pub mod urls;

verus! {

/// Configuration for one mirroring session.
#[derive(Debug)]
pub struct DownloadRule {
    /// Maximum size for static files to download.
    pub max_static_file_size: u64,
    /// Whether to download a static resource whose size is not announced.
    pub download_static_resource_with_unknown_size: bool,
    /// Minimum gap between per-resource progress events, in milliseconds.
    pub progress_update_interval: u64,
    /// Max levels of pages to download. 0 means download only the initial
    /// page and its resources.
    pub max_level: u8,
    /// URLs containing any of these substrings are never fetched.
    pub black_list_urls: Vec<String>,
    /// Abort the session if any resource other than the first page fails.
    pub abort_on_download_error: bool,
}

impl DownloadRule {
    /// What it means for two rules to agree, up to the stored list's view.
    pub open spec fn same_rule(&self, other: &DownloadRule) -> bool {
        &&& self.max_static_file_size == other.max_static_file_size
        &&& self.download_static_resource_with_unknown_size
            == other.download_static_resource_with_unknown_size
        &&& self.progress_update_interval == other.progress_update_interval
        &&& self.max_level == other.max_level
        &&& self.black_list_urls@ == other.black_list_urls@
        &&& self.abort_on_download_error == other.abort_on_download_error
    }

    /// An explicit copy, so that callers can reason about the duplicate.
    pub fn duplicate(&self) -> (r: DownloadRule)
        ensures
            r.same_rule(self),
    {
        let mut list: Vec<String> = Vec::new();
        let mut i: usize = 0;
        while i < self.black_list_urls.len()
            invariant
                i <= self.black_list_urls.len(),
                list@ =~= self.black_list_urls@.subrange(0, i as int),
            decreases self.black_list_urls.len() - i,
        {
            list.push(self.black_list_urls[i].clone());
            i = i + 1;
        }
        assert(list@ =~= self.black_list_urls@);
        DownloadRule {
            max_static_file_size: self.max_static_file_size,
            download_static_resource_with_unknown_size: self.download_static_resource_with_unknown_size,
            progress_update_interval: self.progress_update_interval,
            max_level: self.max_level,
            black_list_urls: list,
            abort_on_download_error: self.abort_on_download_error,
        }
    }
}

/// An event emitted to the consumer of a mirroring session.
#[derive(Debug)]
pub enum Update {
    MessageUpdate(Message),
    ProgressUpdate(Progress),
}

/// A human-readable notice about one resource.
#[derive(Debug)]
pub struct Message {
    pub session_id: String,
    pub content: String,
    pub resource_name: String,
    pub is_error: bool,
}

/// A progress report for one resource; `file_size` is 0 when unknown.
#[derive(Debug)]
pub struct Progress {
    pub bytes_written: u64,
    pub file_size: u64,
    pub resource_name: String,
    pub session_id: String,
}

impl Update {
    /// The name of the resource this update speaks of.
    pub open spec fn spec_resource_name(&self) -> Seq<char> {
        match self {
            Update::MessageUpdate(msg) => msg.resource_name@,
            Update::ProgressUpdate(prog) => prog.resource_name@,
        }
    }

    pub fn get_resource_name(&self) -> (r: &str)
        ensures
            r@ == self.spec_resource_name(),
    {
        match self {
            Update::MessageUpdate(msg) => msg.resource_name.as_str(),
            Update::ProgressUpdate(prog) => prog.resource_name.as_str(),
        }
    }

    pub fn get_file_size(&self) -> (r: Option<u64>)
        ensures
            r == match self {
                Update::ProgressUpdate(prog) => Some(prog.file_size),
                Update::MessageUpdate(msg) => None::<u64>,
            },
    {
        match self {
            Update::ProgressUpdate(prog) => Some(prog.file_size),
            _ => None,
        }
    }

    pub fn get_bytes_written(&self) -> (r: Option<u64>)
        ensures
            r == match self {
                Update::ProgressUpdate(prog) => Some(prog.bytes_written),
                Update::MessageUpdate(msg) => None::<u64>,
            },
    {
        match self {
            Update::ProgressUpdate(prog) => Some(prog.bytes_written),
            _ => None,
        }
    }

    pub fn get_message(&self) -> (r: Option<&str>)
        ensures
            match self {
                Update::MessageUpdate(msg) => r matches Some(c) && c@ == msg.content@,
                Update::ProgressUpdate(prog) => r is None,
            },
    {
        match self {
            Update::MessageUpdate(msg) => Some(msg.content.as_str()),
            _ => None,
        }
    }

    pub fn is_error(&self) -> (r: bool)
        ensures
            r == match self {
                Update::MessageUpdate(msg) => msg.is_error,
                Update::ProgressUpdate(prog) => true,
            },
    {
        match self {
            Update::MessageUpdate(msg) => msg.is_error,
            _ => true,
        }
    }
}

} // verus!
