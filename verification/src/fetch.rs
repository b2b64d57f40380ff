//! The fetch state machine: one resource download, decision by decision.
//!
//! The embedding process performs the I/O — it issues the GET, opens the
//! file, reads body chunks — and reports each result as an event.  Every
//! decision of the download pipeline lives here, verified: the blacklist
//! gate, the status and error policy, the file naming, the size gate, the
//! resume short-circuit, the progress-interval gate, and the monotone
//! progress guarantee.
use vstd::prelude::*;

use crate::DownloadRule;
use crate::Message;
use crate::Progress;
use crate::Update;
use crate::errors::WscError;
use crate::naming::fetch_name_spec;
use crate::naming::fetch_file_name;
use crate::naming::joined_path;
use crate::naming::join_path;
use crate::text::dec_digits;
use crate::text::u64_to_dec;
use crate::text::chars_to_string;
use crate::text::to_chars;
use crate::text::append_chars;
use crate::urls::WebUrl;
use crate::urls::blacklisted_spec;
use crate::urls::blacklisted;

verus! {

/// One resource to download: its absolute URL and the directory its bytes
/// go to.
#[derive(Debug)]
pub struct DownloadItem {
    pub link: WebUrl,
    pub destination_dir: String,
}

/// How one download ended.
#[derive(Debug)]
pub enum FetchOutcome {
    /// Blacklist hit or size rule: nothing downloaded, no error either.
    Skipped,
    /// Bytes fully written; holds the saved file's path.
    Saved(String),
    /// The download failed with this error.
    Failed(WscError),
}

/// What the driver must do next for this download.
#[derive(Debug)]
pub enum FetchAction {
    /// Issue the GET request for the flow's URL.
    SendRequest,
    /// Open (creating if needed) the file at this path for writing and
    /// report its current length.
    OpenFile { path: String },
    /// Read the next body chunk, append it to the file, and — when asked —
    /// offer the progress event without blocking.
    ReadChunk { emit: Option<Progress> },
    /// The download is over with this outcome.
    Return(FetchOutcome),
}

/// One step of the flow: an optional update to offer the consumer first
/// (best effort, blocking), then the action to take.
pub struct FetchStep {
    pub notice: Option<Update>,
    pub action: FetchAction,
}

/// What the GET request came back with.
#[derive(Debug)]
pub enum SendResult {
    /// The request itself failed at the transport level.
    TransportError { message: String },
    /// A response arrived; the interesting headers come as plain values.
    Response {
        status: u16,
        content_length: Option<u64>,
        content_type: Option<String>,
        content_disposition: Option<String>,
    },
}

/// What reading one body chunk yielded.
#[derive(Debug)]
pub enum ChunkStatus {
    /// Clean end of the body.
    End,
    /// `len` bytes were read; appending them to the file failed when
    /// `write_error` is set.
    Data { len: u64, write_error: Option<String> },
    /// The connection failed mid-stream.
    ReadConnError { message: String },
    /// An HTTP error status surfaced mid-stream.
    ReadStatusError { code: u16 },
}

/// What became of the progress event offered with the previous chunk.
#[derive(Debug)]
pub enum EmitStatus {
    /// No event was offered.
    NotAsked,
    /// The event was accepted by the channel.
    Sent,
    /// The channel was full; the event was dropped.
    Dropped,
    /// The consumer is gone: the session must end.
    Closed,
}

/// Where the flow stands.
#[derive(Debug, PartialEq, Eq, Structural)]
pub enum FetchPhase {
    /// Waiting for the GET to be issued.
    Sending,
    /// Waiting for the destination file to open.
    Opening,
    /// Reading body chunks.
    Streaming,
    /// Finished; no further event is accepted.
    Finished,
}

/// Every `bytes_written` value in `s` is non-decreasing.
pub open spec fn monotone(s: Seq<u64>) -> bool {
    forall|i: int, j: int| 0 <= i <= j < s.len() ==> s[i] <= s[j]
}

/// The state of one resource download.
pub struct FetchFlow {
    pub session_id: String,
    pub url: WebUrl,
    pub dest_dir: String,
    pub rule: DownloadRule,
    pub forced_name: Option<String>,
    /// The caller's rendering of the current time, for synthesized names.
    pub stamp: String,
    pub phase: FetchPhase,
    /// The chosen file name and full path, once the response arrived.
    pub file_name: String,
    pub file_path: String,
    /// The announced size; 0 when unknown.
    pub file_size: u64,
    pub bytes_written: u64,
    /// When the last accepted progress event was asked for, if any.
    pub last_emit_ms: Option<u64>,
    /// When the currently offered progress event was asked for.
    pub pending_ask_ms: u64,
    /// Every `bytes_written` value offered as a progress event for this
    /// resource, in order.
    pub emitted: Ghost<Seq<u64>>,
}

impl FetchFlow {
    /// The flow's invariant: progress values only ever grow, nothing is
    /// emitted before streaming, and while streaming no emitted value
    /// exceeds the running byte counter.
    pub open spec fn wf(&self) -> bool {
        &&& monotone(self.emitted@)
        &&& (self.phase is Sending || self.phase is Opening) ==> self.emitted@.len() == 0
        &&& self.phase is Streaming ==> forall|i: int|
            0 <= i < self.emitted@.len() ==> self.emitted@[i] <= self.bytes_written
    }

    /// Starts one download.  A blacklisted URL is skipped before anything
    /// is sent; a missing destination directory is fatal; otherwise the
    /// driver is asked to issue the GET.
    pub fn start(
        session_id: String,
        url: WebUrl,
        dest_dir: String,
        rule: DownloadRule,
        forced_name: Option<String>,
        stamp: String,
        dest_dir_exists: bool,
    ) -> (r: (FetchFlow, FetchStep))
        ensures
            r.0.wf(),
            r.0.session_id == session_id,
            r.0.url == url,
            r.0.dest_dir == dest_dir,
            r.0.rule == rule,
            r.0.forced_name == forced_name,
            r.0.stamp == stamp,
            r.1.notice is None,
            blacklisted_spec(url@.text, rule.black_list_urls.deep_view()) ==> r.1.action
                == FetchAction::Return(FetchOutcome::Skipped),
            !blacklisted_spec(url@.text, rule.black_list_urls.deep_view()) && !dest_dir_exists
                ==> r.1.action == FetchAction::Return(
                FetchOutcome::Failed(WscError::DestinationDirectoryDoesNotExist(dest_dir)),
            ),
            !blacklisted_spec(url@.text, rule.black_list_urls.deep_view()) && dest_dir_exists
                ==> r.1.action == FetchAction::SendRequest && r.0.phase is Sending,
    {
        let hit = blacklisted(url.text.as_str(), &rule.black_list_urls);
        let action: FetchAction = if hit {
            FetchAction::Return(FetchOutcome::Skipped)
        } else if !dest_dir_exists {
            FetchAction::Return(
                FetchOutcome::Failed(
                    WscError::DestinationDirectoryDoesNotExist(dest_dir.clone()),
                ),
            )
        } else {
            FetchAction::SendRequest
        };
        let flow = FetchFlow {
            session_id,
            url,
            dest_dir,
            rule,
            forced_name,
            stamp,
            phase: if hit {
                FetchPhase::Finished
            } else {
                FetchPhase::Sending
            },
            file_name: String::new(),
            file_path: String::new(),
            file_size: 0,
            bytes_written: 0,
            last_emit_ms: None,
            pending_ask_ms: 0,
            emitted: Ghost(Seq::empty()),
        };
        (flow, FetchStep { notice: None, action })
    }

    /// Handles the GET's outcome.  A transport error is always fatal; an
    /// error status aborts or is skipped with an error message, by the
    /// rule; a success picks the file name and asks for the file.
    pub fn on_response(&mut self, resp: SendResult) -> (r: FetchStep)
        requires
            old(self).wf(),
            old(self).phase is Sending,
        ensures
            final(self).wf(),
            final(self).url == old(self).url,
            final(self).rule == old(self).rule,
            final(self).session_id == old(self).session_id,
            match resp {
                SendResult::TransportError { message } => r.notice is None && r.action
                    == FetchAction::Return(
                    FetchOutcome::Failed(WscError::NetworkError(message)),
                ),
                SendResult::Response { status, content_length, content_type, content_disposition } => {
                    if !(200 <= status < 300) {
                        if old(self).rule.abort_on_download_error {
                            r.notice is None && (r.action matches FetchAction::Return(
                                FetchOutcome::Failed(
                                    WscError::ErrorStatusCode { status_code, url },
                                ),
                            ) && status_code@ == dec_digits(status as nat) && url == old(self).url.text)
                        } else {
                            (r.notice matches Some(Update::MessageUpdate(m)) && m.is_error
                                && m.resource_name@ == old(self).url@.text && m.session_id@ == old(self).session_id@ && m.content@ == "Error downloading resource"@)
                                && r.action == FetchAction::Return(FetchOutcome::Skipped)
                        }
                    } else {
                        {
                            let name = match old(self).forced_name {
                                Some(n) => n@,
                                None => fetch_name_spec(
                                    old(self).url@.text,
                                    match content_type {
                                        Some(s) => Some(s@),
                                        None => None,
                                    },
                                    match content_disposition {
                                        Some(s) => Some(s@),
                                        None => None,
                                    },
                                    old(self).stamp@,
                                ),
                            };
                            &&& r.notice is None
                            &&& final(self).file_name@ == name
                            &&& final(self).file_path@ == joined_path(old(self).dest_dir@, name)
                            &&& final(self).file_size == match content_length {
                                Some(n) => n,
                                None => 0u64,
                            }
                            &&& final(self).phase is Opening
                            &&& r.action == (FetchAction::OpenFile { path: final(self).file_path })
                        }
                    }
                },
            },
    {
        match resp {
            SendResult::TransportError { message } => {
                self.phase = FetchPhase::Finished;
                FetchStep {
                    notice: None,
                    action: FetchAction::Return(
                        FetchOutcome::Failed(WscError::NetworkError(message)),
                    ),
                }
            },
            SendResult::Response { status, content_length, content_type, content_disposition } => {
                if !(200 <= status && status < 300) {
                    self.phase = FetchPhase::Finished;
                    if self.rule.abort_on_download_error {
                        FetchStep {
                            notice: None,
                            action: FetchAction::Return(
                                FetchOutcome::Failed(
                                    WscError::ErrorStatusCode {
                                        status_code: status_string(status),
                                        url: self.url.text.clone(),
                                    },
                                ),
                            ),
                        }
                    } else {
                        let content = String::from_str("Error downloading resource");
                        FetchStep {
                            notice: Some(
                                Update::MessageUpdate(
                                    Message {
                                        session_id: self.session_id.clone(),
                                        content,
                                        resource_name: self.url.text.clone(),
                                        is_error: true,
                                    },
                                ),
                            ),
                            action: FetchAction::Return(FetchOutcome::Skipped),
                        }
                    }
                } else {
                    let name: String = match &self.forced_name {
                        Some(n) => n.clone(),
                        None => fetch_file_name(
                            self.url.text.as_str(),
                            match &content_type {
                                Some(s) => Some(s.as_str()),
                                None => None,
                            },
                            match &content_disposition {
                                Some(s) => Some(s.as_str()),
                                None => None,
                            },
                            self.stamp.as_str(),
                        ),
                    };
                    let path = join_path(self.dest_dir.as_str(), name.as_str());
                    self.file_name = name;
                    self.file_path = path;
                    self.file_size = match content_length {
                        Some(n) => n,
                        None => 0,
                    };
                    self.phase = FetchPhase::Opening;
                    FetchStep {
                        notice: None,
                        action: FetchAction::OpenFile { path: self.file_path.clone() },
                    }
                }
            },
        }
    }

    /// Handles the destination file's opening.  Failure is a file error;
    /// then the size gate may skip the download; a file already holding
    /// the announced bytes ends the flow at once with a terminal progress
    /// event; otherwise streaming begins.
    pub fn on_file_opened(&mut self, result: Result<u64, String>) -> (r: FetchStep)
        requires
            old(self).wf(),
            old(self).phase is Opening,
        ensures
            final(self).wf(),
            final(self).url == old(self).url,
            final(self).rule == old(self).rule,
            final(self).session_id == old(self).session_id,
            final(self).file_path == old(self).file_path,
            final(self).file_name == old(self).file_name,
            final(self).file_size == old(self).file_size,
            match result {
                Err(message) => (r.notice matches Some(Update::MessageUpdate(m)) && m.is_error
                    && m.resource_name@ == old(self).file_name@ && m.content@
                    == "Error opening destination file"@) && r.action == FetchAction::Return(
                    FetchOutcome::Failed(
                        WscError::FileOperationError {
                            file_name: old(self).file_path,
                            message,
                        },
                    ),
                ),
                Ok(existing_len) => {
                    let known = old(self).file_size;
                    if (known > 0 && known > old(self).rule.max_static_file_size) || (known == 0
                        && !old(self).rule.download_static_resource_with_unknown_size) {
                        r.notice is None && r.action == FetchAction::Return(FetchOutcome::Skipped)
                    } else if existing_len > 0 && known != 0 && existing_len >= known {
                        (r.notice matches Some(Update::ProgressUpdate(p)) && p.bytes_written
                            == known && p.file_size == known && p.resource_name@ == old(self).file_path@) && r.action == FetchAction::Return(
                            FetchOutcome::Saved(old(self).file_path),
                        ) && final(self).emitted@ == old(self).emitted@.push(known)
                    } else {
                        r.notice is None && final(self).phase is Streaming
                            && final(self).bytes_written == 0 && r.action
                            == (FetchAction::ReadChunk { emit: None }) && final(self).emitted@
                            == old(self).emitted@
                    }
                },
            },
    {
        match result {
            Err(message) => {
                self.phase = FetchPhase::Finished;
                let content = String::from_str("Error opening destination file");
                FetchStep {
                    notice: Some(
                        Update::MessageUpdate(
                            Message {
                                session_id: self.session_id.clone(),
                                content,
                                resource_name: self.file_name.clone(),
                                is_error: true,
                            },
                        ),
                    ),
                    action: FetchAction::Return(
                        FetchOutcome::Failed(
                            WscError::FileOperationError {
                                file_name: self.file_path.clone(),
                                message,
                            },
                        ),
                    ),
                }
            },
            Ok(existing_len) => {
                let known = self.file_size;
                if (known > 0 && known > self.rule.max_static_file_size) || (known == 0
                    && !self.rule.download_static_resource_with_unknown_size) {
                    self.phase = FetchPhase::Finished;
                    FetchStep { notice: None, action: FetchAction::Return(FetchOutcome::Skipped) }
                } else if existing_len > 0 && known != 0 && existing_len >= known {
                    self.phase = FetchPhase::Finished;
                    proof {
                        self.emitted@ = self.emitted@.push(known);
                    }
                    assert(monotone(self.emitted@));
                    FetchStep {
                        notice: Some(
                            Update::ProgressUpdate(
                                Progress {
                                    bytes_written: known,
                                    file_size: known,
                                    resource_name: self.file_path.clone(),
                                    session_id: self.session_id.clone(),
                                },
                            ),
                        ),
                        action: FetchAction::Return(
                            FetchOutcome::Saved(self.file_path.clone()),
                        ),
                    }
                } else {
                    self.phase = FetchPhase::Streaming;
                    self.bytes_written = 0;
                    self.last_emit_ms = None;
                    FetchStep { notice: None, action: FetchAction::ReadChunk { emit: None } }
                }
            },
        }
    }
}

/// `a + b`, capped at the largest `u64`.
pub open spec fn sat_add(a: u64, b: u64) -> u64 {
    if a + b > u64::MAX {
        u64::MAX
    } else {
        (a + b) as u64
    }
}

/// May a progress event be offered now?  Always for the first one; later
/// only when more than the configured interval has passed since the last
/// accepted one.
pub open spec fn gate_open(last: Option<u64>, now: u64, interval: u64) -> bool {
    match last {
        None => true,
        Some(t) => (if now >= t {
            (now - t) as u64
        } else {
            0u64
        }) > interval,
    }
}

impl FetchFlow {
    /// Handles one streamed chunk.  A closed update channel ends the
    /// session; a write failure is a file error; a mid-stream transport
    /// failure is a network error; a mid-stream error status follows the
    /// abort rule; data advances the byte counter and may offer a progress
    /// event once per interval; the end of the body emits the terminal
    /// progress event and returns the saved path.
    pub fn on_chunk(&mut self, status: ChunkStatus, now_ms: u64, emit_result: EmitStatus) -> (r:
        FetchStep)
        requires
            old(self).wf(),
            old(self).phase is Streaming,
        ensures
            final(self).wf(),
            final(self).url == old(self).url,
            final(self).rule == old(self).rule,
            final(self).session_id == old(self).session_id,
            final(self).file_path == old(self).file_path,
            final(self).file_name == old(self).file_name,
            final(self).file_size == old(self).file_size,
            final(self).bytes_written >= old(self).bytes_written,
            emit_result is Closed ==> r.notice is None && r.action == FetchAction::Return(
                FetchOutcome::Failed(WscError::ChannelClosed),
            ),
            !(emit_result is Closed) ==> {
                let last = if emit_result is Sent {
                    Some(old(self).pending_ask_ms)
                } else {
                    old(self).last_emit_ms
                };
                match status {
                    ChunkStatus::End => (r.notice matches Some(Update::ProgressUpdate(p))
                        && p.bytes_written == old(self).bytes_written && p.file_size == (if old(self).file_size == 0 {
                        old(self).bytes_written
                    } else {
                        old(self).file_size
                    }) && p.resource_name@ == old(self).file_name@) && r.action
                        == FetchAction::Return(FetchOutcome::Saved(old(self).file_path)) && final(self).emitted@ == old(self).emitted@.push(old(self).bytes_written),
                    ChunkStatus::Data { len, write_error } => match write_error {
                        Some(message) => (r.notice matches Some(Update::MessageUpdate(m))
                            && m.is_error && m.resource_name@ == old(self).file_name@ && m.content@
                            == "Error writing to file"@) && r.action == FetchAction::Return(
                            FetchOutcome::Failed(
                                WscError::FileOperationError {
                                    file_name: old(self).file_path,
                                    message,
                                },
                            ),
                        ),
                        None => {
                            let grown = sat_add(old(self).bytes_written, len);
                            &&& r.notice is None
                            &&& final(self).bytes_written == grown
                            &&& final(self).phase is Streaming
                            &&& if gate_open(last, now_ms, old(self).rule.progress_update_interval) {
                                (r.action matches FetchAction::ReadChunk { emit: Some(p) }
                                    && p.bytes_written == grown && p.file_size == old(self).file_size && p.resource_name@ == old(self).file_name@) && final(self).emitted@ == old(self).emitted@.push(grown) && final(self).pending_ask_ms == now_ms
                            } else {
                                r.action == (FetchAction::ReadChunk { emit: None }) && final(self).emitted@ == old(self).emitted@
                            }
                        },
                    },
                    ChunkStatus::ReadConnError { message } => (r.notice matches Some(
                        Update::MessageUpdate(m),
                    ) && m.is_error && m.resource_name@ == old(self).file_name@ && m.content@
                        == "Network error"@) && r.action == FetchAction::Return(
                        FetchOutcome::Failed(WscError::NetworkError(message)),
                    ),
                    ChunkStatus::ReadStatusError { code } => (r.notice matches Some(
                        Update::MessageUpdate(m),
                    ) && m.is_error && m.resource_name@ == old(self).file_name@ && m.content@
                        == "Error status code : "@ + dec_digits(code as nat)) && if old(self).rule.abort_on_download_error {
                        r.action matches FetchAction::Return(
                            FetchOutcome::Failed(WscError::ErrorStatusCode { status_code, url }),
                        ) && status_code@ == dec_digits(code as nat) && url == old(self).url.text
                    } else {
                        r.action == FetchAction::Return(FetchOutcome::Skipped)
                    },
                }
            },
    {
        if matches!(emit_result, EmitStatus::Closed) {
            self.phase = FetchPhase::Finished;
            return FetchStep {
                notice: None,
                action: FetchAction::Return(FetchOutcome::Failed(WscError::ChannelClosed)),
            };
        }
        if matches!(emit_result, EmitStatus::Sent) {
            self.last_emit_ms = Some(self.pending_ask_ms);
        }
        match status {
            ChunkStatus::End => {
                self.phase = FetchPhase::Finished;
                let total = self.bytes_written;
                let shown = if self.file_size == 0 {
                    total
                } else {
                    self.file_size
                };
                proof {
                    self.emitted@ = self.emitted@.push(total);
                }
                FetchStep {
                    notice: Some(
                        Update::ProgressUpdate(
                            Progress {
                                bytes_written: total,
                                file_size: shown,
                                resource_name: self.file_name.clone(),
                                session_id: self.session_id.clone(),
                            },
                        ),
                    ),
                    action: FetchAction::Return(FetchOutcome::Saved(self.file_path.clone())),
                }
            },
            ChunkStatus::Data { len, write_error } => {
                match write_error {
                    Some(message) => {
                        self.phase = FetchPhase::Finished;
                        let content = String::from_str("Error writing to file");
                        FetchStep {
                            notice: Some(
                                Update::MessageUpdate(
                                    Message {
                                        session_id: self.session_id.clone(),
                                        content,
                                        resource_name: self.file_name.clone(),
                                        is_error: true,
                                    },
                                ),
                            ),
                            action: FetchAction::Return(
                                FetchOutcome::Failed(
                                    WscError::FileOperationError {
                                        file_name: self.file_path.clone(),
                                        message,
                                    },
                                ),
                            ),
                        }
                    },
                    None => {
                        let grown: u64 = if len > u64::MAX - self.bytes_written {
                            u64::MAX
                        } else {
                            self.bytes_written + len
                        };
                        self.bytes_written = grown;
                        let open = match self.last_emit_ms {
                            None => true,
                            Some(t) => {
                                let gap: u64 = if now_ms >= t {
                                    now_ms - t
                                } else {
                                    0
                                };
                                gap > self.rule.progress_update_interval
                            },
                        };
                        if open {
                            self.pending_ask_ms = now_ms;
                            proof {
                                self.emitted@ = self.emitted@.push(grown);
                            }
                            FetchStep {
                                notice: None,
                                action: FetchAction::ReadChunk {
                                    emit: Some(
                                        Progress {
                                            bytes_written: grown,
                                            file_size: self.file_size,
                                            resource_name: self.file_name.clone(),
                                            session_id: self.session_id.clone(),
                                        },
                                    ),
                                },
                            }
                        } else {
                            FetchStep { notice: None, action: FetchAction::ReadChunk { emit: None } }
                        }
                    },
                }
            },
            ChunkStatus::ReadConnError { message } => {
                self.phase = FetchPhase::Finished;
                let content = String::from_str("Network error");
                FetchStep {
                    notice: Some(
                        Update::MessageUpdate(
                            Message {
                                session_id: self.session_id.clone(),
                                content,
                                resource_name: self.file_name.clone(),
                                is_error: true,
                            },
                        ),
                    ),
                    action: FetchAction::Return(
                        FetchOutcome::Failed(WscError::NetworkError(message)),
                    ),
                }
            },
            ChunkStatus::ReadStatusError { code } => {
                self.phase = FetchPhase::Finished;
                let mut text = to_chars("Error status code : ");
                let digits = u64_to_dec(code as u64);
                append_chars(&mut text, &digits);
                let content = chars_to_string(&text);
                let notice = Some(
                    Update::MessageUpdate(
                        Message {
                            session_id: self.session_id.clone(),
                            content,
                            resource_name: self.file_name.clone(),
                            is_error: true,
                        },
                    ),
                );
                if self.rule.abort_on_download_error {
                    FetchStep {
                        notice,
                        action: FetchAction::Return(
                            FetchOutcome::Failed(
                                WscError::ErrorStatusCode {
                                    status_code: status_string(code),
                                    url: self.url.text.clone(),
                                },
                            ),
                        ),
                    }
                } else {
                    FetchStep { notice, action: FetchAction::Return(FetchOutcome::Skipped) }
                }
            },
        }
    }

    /// Monotone progress, stated once: the progress values offered for a
    /// resource form a non-decreasing sequence, and the terminal one is
    /// the resource's final byte count.
    pub proof fn lemma_progress_monotone(&self)
        requires
            self.wf(),
        ensures
            forall|i: int, j: int|
                0 <= i <= j < self.emitted@.len() ==> self.emitted@[i] <= self.emitted@[j],
    {
    }
}

/// Renders a status code in decimal, e.g. `404`.
pub fn status_string(status: u16) -> (r: String)
    ensures
        r@ == dec_digits(status as nat),
{
    let v = u64_to_dec(status as u64);
    chars_to_string(&v)
}

} // verus!
