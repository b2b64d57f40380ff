//! The daemon's decision core: one mirroring session at a time.
//!
//! The daemon owns sockets, threads and timers; none of that is here.
//! What is here, verified, is the state it keeps — which session runs,
//! which per-file updates are pending — and the decision each command
//! leads to: refuse a second session, hand out and reset the collected
//! updates, abort only the session that was named.
use vstd::prelude::*;

use crate::Update;
use crate::ipc::MessageContent;
use crate::text::to_chars;
use crate::text::chars_eq_str;
use vstd::pervasive::VecAdditionalExecFns;

verus! {

/// What can go wrong inside the daemon itself.
#[derive(Debug)]
pub enum Error {
    SocketError(String),
    IOError(String),
}

impl Error {
    /// A human-readable rendering of the error.
    pub fn describe(&self) -> (r: String)
        ensures
            match self {
                Error::SocketError(e) => r@ == "Socket Error : "@ + e@,
                Error::IOError(e) => r@ == "IOError : "@ + e@,
            },
    {
        match self {
            Error::SocketError(e) => {
                let mut r = String::from_str("Socket Error : ");
                r.append(e.as_str());
                r
            },
            Error::IOError(e) => {
                let mut r = String::from_str("IOError : ");
                r.append(e.as_str());
                r
            },
        }
    }
}

/// The daemon's listening endpoint and clone directory, as the command
/// line gives them.
#[derive(Debug)]
pub struct DaemonCli {
    /// The UNIX socket path (or host and port elsewhere) to serve on.
    pub socket_file_path: String,
    /// Where finished clones live.
    pub clones_dir: String,
}

/// One resource's running status, as collected from the update stream.
#[derive(Debug)]
pub struct FileStatus {
    pub bytes_written: u64,
    pub f_size: Option<u64>,
    pub message: Option<MessageContent>,
}

/// Is `key` the file name of some collected entry?
pub open spec fn has_status(s: Seq<(String, FileStatus)>, key: Seq<char>) -> bool {
    exists|i: int| 0 <= i < s.len() && s[i].0@ == key
}

/// What one engine update makes of a resource's collected status: a
/// progress event sets the byte count and the announced size; a message
/// leaves the byte count alone.
pub open spec fn folded_bytes(prev_bytes: u64, update: &Update) -> u64 {
    match update {
        Update::ProgressUpdate(p) => p.bytes_written,
        Update::MessageUpdate(m) => prev_bytes,
    }
}

/// The announced size after one update: a progress event's size, nothing
/// for a message.
pub open spec fn folded_size(update: &Update) -> Option<u64> {
    match update {
        Update::ProgressUpdate(p) => Some(p.file_size),
        Update::MessageUpdate(m) => None,
    }
}

/// The collected message after one update: a message event replaces it,
/// a progress event keeps the previous one.
pub open spec fn folded_message(prev: Option<MessageContent>, update: &Update, now: Option<MessageContent>) -> bool {
    match update {
        Update::MessageUpdate(m) => now matches Some(mc) && mc.message@ == m.content@
            && mc.is_error == m.is_error,
        Update::ProgressUpdate(p) => now == prev,
    }
}

/// What the daemon decides for a `Clone` command.
pub enum CloneDecision {
    /// A session already runs: answer with a failure.
    Busy,
    /// Start the session with this identity.
    Start,
}

/// What the daemon decides for a `CloneStatus` command.
pub enum StatusDecision {
    /// The named session is not the one running.
    WrongSession,
    /// No updates are collected; stay silent.
    NoUpdates,
    /// Hand these updates out; collection continues.
    Report(Vec<(String, FileStatus)>),
    /// Hand these updates out; the session is over and the state is
    /// cleared.
    ReportFinal(Vec<(String, FileStatus)>),
}

/// The daemon's session-tracking state, kept apart from its sockets.
pub struct DaemonCore {
    /// The running session's identity, if any.
    pub current_session_id: Option<String>,
    /// Whether the session's task is still running.
    pub session_running: bool,
    /// The per-file updates collected since the last report, keyed by
    /// resource name, if a session was started.
    pub updates: Option<Vec<(String, FileStatus)>>,
}

impl DaemonCore {
    /// Every collected file name appears once.
    pub open spec fn wf(&self) -> bool {
        self.updates matches Some(u) ==> forall|i: int, j: int|
            0 <= i < j < u@.len() ==> u@[i].0@ != u@[j].0@
    }

    /// A daemon with no session.
    pub fn new() -> (r: DaemonCore)
        ensures
            r.wf(),
            r.current_session_id is None,
            !r.session_running,
            r.updates is None,
    {
        DaemonCore { current_session_id: None, session_running: false, updates: None }
    }

    /// A `Clone` command: refused while a session runs; otherwise the
    /// named session becomes current and update collection begins.
    pub fn clone_requested(&mut self, session_id: String) -> (r: CloneDecision)
        requires
            old(self).wf(),
        ensures
            final(self).wf(),
            old(self).session_running ==> r is Busy && *final(self) == *old(self),
            !old(self).session_running ==> {
                &&& r is Start
                &&& final(self).current_session_id == Some(session_id)
                &&& final(self).session_running
                &&& final(self).updates matches Some(u) && u@.len() == 0
            },
    {
        if self.session_running {
            CloneDecision::Busy
        } else {
            self.current_session_id = Some(session_id);
            self.session_running = true;
            self.updates = Some(Vec::new());
            CloneDecision::Start
        }
    }

    /// The running session's task ended (with or without an error).
    pub fn session_ended(&mut self)
        requires
            old(self).wf(),
        ensures
            final(self).wf(),
            !final(self).session_running,
            final(self).current_session_id == old(self).current_session_id,
            final(self).updates == old(self).updates,
    {
        self.session_running = false;
    }

    /// An `AbortClone` command: only the session that was named is
    /// aborted; naming any other session changes nothing.  The answer is
    /// a success either way.
    pub fn abort_requested(&mut self, session_id: &str) -> (r: bool)
        requires
            old(self).wf(),
        ensures
            final(self).wf(),
            r == (old(self).session_running && (old(self).current_session_id matches Some(id)
                && id@ == session_id@)),
            r ==> final(self).current_session_id is None && !final(self).session_running && final(self).updates is None,
            !r ==> *final(self) == *old(self),
    {
        let matches_current: bool = match &self.current_session_id {
            Some(id) => {
                let idv = to_chars(id.as_str());
                chars_eq_str(&idv, session_id)
            },
            None => false,
        };
        if self.session_running && matches_current {
            self.current_session_id = None;
            self.session_running = false;
            self.updates = None;
            true
        } else {
            false
        }
    }

    /// A `CloneStatus` command: a wrong session identity is refused; with
    /// none collected nothing is answered; otherwise the collected
    /// updates are handed out, and the state is reset — emptied while the
    /// session still runs, cleared entirely once it ended.
    pub fn status_requested(&mut self, session_id: &str) -> (r: StatusDecision)
        requires
            old(self).wf(),
        ensures
            final(self).wf(),
            (old(self).current_session_id matches Some(id) && id@ != session_id@) ==> r
                is WrongSession && *final(self) == *old(self),
            !(old(self).current_session_id matches Some(id) && id@ != session_id@) ==> match old(self).updates {
                None => r is NoUpdates && *final(self) == *old(self),
                Some(u) => if old(self).session_running {
                    (r matches StatusDecision::Report(out) && out == u) && (final(self).updates matches Some(nu) && nu@.len() == 0) && final(self).current_session_id
                        == old(self).current_session_id && final(self).session_running
                } else {
                    (r matches StatusDecision::ReportFinal(out) && out == u) && final(self).updates
                        is None && final(self).current_session_id is None && !final(self).session_running
                },
            },
    {
        let wrong: bool = match &self.current_session_id {
            Some(id) => {
                let idv = to_chars(id.as_str());
                !chars_eq_str(&idv, session_id)
            },
            None => false,
        };
        if wrong {
            return StatusDecision::WrongSession;
        }
        let mut taken: Option<Vec<(String, FileStatus)>> = None;
        core::mem::swap(&mut taken, &mut self.updates);
        match taken {
            None => StatusDecision::NoUpdates,
            Some(u) => {
                if self.session_running {
                    self.updates = Some(Vec::new());
                    StatusDecision::Report(u)
                } else {
                    self.current_session_id = None;
                    self.updates = None;
                    StatusDecision::ReportFinal(u)
                }
            },
        }
    }

    /// Folds one engine update into the collected per-file status: a new
    /// resource is inserted; a known one keeps its byte count when the
    /// update has none, takes the new size, and keeps its last message
    /// when the update carries none.
    pub fn apply_update(&mut self, update: &Update)
        requires
            old(self).wf(),
        ensures
            final(self).wf(),
            final(self).current_session_id == old(self).current_session_id,
            final(self).session_running == old(self).session_running,
            match old(self).updates {
                None => final(self).updates is None,
                Some(u) => {
                    &&& !has_status(u@, update.spec_resource_name()) ==> (final(self).updates matches Some(nu) && nu@.len() == u@.len() + 1 && nu@.drop_last()
                        == u@ && nu@.last().0@ == update.spec_resource_name()
                        && nu@.last().1.bytes_written == folded_bytes(0, update)
                        && nu@.last().1.f_size == folded_size(update) && folded_message(
                        None,
                        update,
                        nu@.last().1.message,
                    ))
                    &&& has_status(u@, update.spec_resource_name()) ==> (final(self).updates matches Some(nu) && nu@.len() == u@.len() && exists|at: int|
                        #![auto]
                        {
                            &&& 0 <= at < u@.len()
                            &&& u@[at].0@ == update.spec_resource_name()
                            &&& nu@[at].0 == u@[at].0
                            &&& nu@[at].1.bytes_written == folded_bytes(
                                u@[at].1.bytes_written,
                                update,
                            )
                            &&& nu@[at].1.f_size == folded_size(update)
                            &&& folded_message(u@[at].1.message, update, nu@[at].1.message)
                            &&& forall|j: int| 0 <= j < u@.len() && j != at ==> nu@[j] == u@[j]
                        })
                },
            },
    {
        let name = update.get_resource_name();
        let name_chars = to_chars(name);
        let mut taken: Option<Vec<(String, FileStatus)>> = None;
        core::mem::swap(&mut taken, &mut self.updates);
        match taken {
            None => {
            },
            Some(mut u) => {
                let n: usize = u.len();
                let mut i: usize = 0;
                let mut found: Option<usize> = None;
                while i < n
                    invariant
                        n == u@.len(),
                        i <= n,
                        name_chars@ == update.spec_resource_name(),
                        match found {
                            Some(at) => at < i && u@[at as int].0@ == name_chars@,
                            None => forall|j: int| 0 <= j < i ==> u@[j].0@ != name_chars@,
                        },
                    decreases n - i,
                {
                    if found.is_none() && chars_eq_str(&name_chars, u[i].0.as_str()) {
                        found = Some(i);
                    }
                    i = i + 1;
                }
                match found {
                    Some(at) => {
                        let fresh = FileStatus {
                            bytes_written: match update.get_bytes_written() {
                                Some(b) => b,
                                None => u[at].1.bytes_written,
                            },
                            f_size: update.get_file_size(),
                            message: match update.get_message() {
                                Some(content) => Some(
                                    MessageContent {
                                        message: content.to_owned(),
                                        is_error: update.is_error(),
                                    },
                                ),
                                None => match &u[at].1.message {
                                    Some(m) => Some(m.duplicate()),
                                    None => None,
                                },
                            },
                        };
                        let ghost prev = u@;
                        let key = u[at].0.clone();
                        u.set(at, (key, fresh));
                        assert(u@[at as int].0@ == prev[at as int].0@);
                        assert(forall|j: int| 0 <= j < u@.len() && j != at ==> u@[j] == prev[j]);
                        self.updates = Some(u);
                    },
                    None => {
                        let fresh = FileStatus {
                            bytes_written: match update.get_bytes_written() {
                                Some(b) => b,
                                None => 0,
                            },
                            f_size: update.get_file_size(),
                            message: match update.get_message() {
                                Some(content) => Some(
                                    MessageContent {
                                        message: content.to_owned(),
                                        is_error: update.is_error(),
                                    },
                                ),
                                None => None,
                            },
                        };
                        let ghost prev = u@;
                        u.push((name.to_owned(), fresh));
                        assert(u@.drop_last() =~= prev);
                        self.updates = Some(u);
                    },
                }
            },
        }
    }
}

} // verus!
