//! The in-memory registry of processed pages and static assets.
//!
//! Entries are keyed by absolute URL text.  An insertion that would
//! overwrite an existing key — in either map — is a no-op, so the first
//! recorded path wins, every URL appears at most once across both maps,
//! and no page is ever recorded on a host that provably differs from the
//! seed's.
use vstd::prelude::*;

use crate::text::to_chars;
use crate::text::chars_eq_str;
use crate::urls::WebUrl;
use crate::urls::WebUrlV;
use crate::urls::hosts_differ;

verus! {

/// What the session remembers about one downloaded resource.
#[derive(Debug)]
pub struct LinkInfo {
    /// The exact textual form that appeared in the source HTML attribute.
    pub relative_link: String,
    /// The local filesystem path of the downloaded bytes.
    pub file_path: String,
    /// The attribute that held the relative link: `href` or `src`.
    pub element_attribute: String,
}

/// The mathematical value of a `LinkInfo`.
pub struct LinkInfoV {
    pub relative_link: Seq<char>,
    pub file_path: Seq<char>,
    pub element_attribute: Seq<char>,
}

impl View for LinkInfo {
    type V = LinkInfoV;

    open spec fn view(&self) -> LinkInfoV {
        LinkInfoV {
            relative_link: self.relative_link@,
            file_path: self.file_path@,
            element_attribute: self.element_attribute@,
        }
    }
}

impl LinkInfo {
    /// An explicit copy with the same value.
    pub fn duplicate(&self) -> (r: LinkInfo)
        ensures
            r == *self,
    {
        LinkInfo {
            relative_link: self.relative_link.clone(),
            file_path: self.file_path.clone(),
            element_attribute: self.element_attribute.clone(),
        }
    }
}

/// Is `key` the URL text of some entry?
pub open spec fn has_entry(s: Seq<(String, LinkInfo)>, key: Seq<char>) -> bool {
    exists|i: int| 0 <= i < s.len() && s[i].0@ == key
}

/// No two entries share a URL text.
pub open spec fn entries_unique(s: Seq<(String, LinkInfo)>) -> bool {
    forall|i: int, j: int| 0 <= i < j < s.len() ==> s[i].0@ != s[j].0@
}

/// One mirroring session: the seed URL, the session identity, and the two
/// registries of processed resources.
pub struct Session {
    pub initial_url: WebUrl,
    pub session_id: String,
    /// URL text to file destination, for every processed page.
    pub processed_pages: Vec<(String, LinkInfo)>,
    /// URL text to file destination, for every processed static resource.
    pub processed_static_files: Vec<(String, LinkInfo)>,
    /// The full URL value of each recorded page, in recording order.
    pub page_urls: Ghost<Seq<WebUrlV>>,
}

impl Session {
    /// The session's invariant: keys are unique within each registry, no
    /// key is in both, and every recorded page sits on a host compatible
    /// with the seed's.
    pub open spec fn wf(&self) -> bool {
        &&& entries_unique(self.processed_pages@)
        &&& entries_unique(self.processed_static_files@)
        &&& forall|i: int|
            0 <= i < self.processed_pages@.len() ==> !has_entry(
                self.processed_static_files@,
                self.processed_pages@[i].0@,
            )
        &&& self.page_urls@.len() == self.processed_pages@.len()
        &&& forall|i: int|
            0 <= i < self.processed_pages@.len() ==> self.page_urls@[i].text
                == self.processed_pages@[i].0@
        &&& forall|i: int|
            0 <= i < self.page_urls@.len() ==> !hosts_differ(self.page_urls@[i], self.initial_url@)
    }

    /// A fresh session for a seed URL.
    pub fn new(initial_url: WebUrl, session_id: String) -> (r: Session)
        ensures
            r.wf(),
            r.initial_url == initial_url,
            r.session_id == session_id,
            r.processed_pages@.len() == 0,
            r.processed_static_files@.len() == 0,
    {
        Session {
            initial_url,
            session_id,
            processed_pages: Vec::new(),
            processed_static_files: Vec::new(),
            page_urls: Ghost(Seq::empty()),
        }
    }

    /// Is this URL already recorded as a page?
    pub fn has_page(&self, url_text: &str) -> (r: bool)
        ensures
            r == has_entry(self.processed_pages@, url_text@),
    {
        find_entry(&self.processed_pages, url_text).is_some()
    }

    /// Is this URL already recorded as a static asset?
    pub fn has_asset(&self, url_text: &str) -> (r: bool)
        ensures
            r == has_entry(self.processed_static_files@, url_text@),
    {
        find_entry(&self.processed_static_files, url_text).is_some()
    }

    /// Records a downloaded page under its absolute URL.  A URL already
    /// present in either registry is left as it was: the first recorded
    /// path wins.
    pub fn record_page(&mut self, url: &WebUrl, info: LinkInfo)
        requires
            old(self).wf(),
            !hosts_differ(url@, old(self).initial_url@),
        ensures
            final(self).wf(),
            final(self).initial_url == old(self).initial_url,
            final(self).session_id == old(self).session_id,
            final(self).processed_static_files@ == old(self).processed_static_files@,
            has_entry(old(self).processed_pages@, url@.text) || has_entry(
                old(self).processed_static_files@,
                url@.text,
            ) ==> final(self).processed_pages@ == old(self).processed_pages@,
            !(has_entry(old(self).processed_pages@, url@.text) || has_entry(
                old(self).processed_static_files@,
                url@.text,
            )) ==> final(self).processed_pages@ == old(self).processed_pages@.push(
                (url.text, info),
            ) && final(self).page_urls@ == old(self).page_urls@.push(url@),
    {
        if find_entry(&self.processed_pages, url.text.as_str()).is_some() {
            return;
        }
        if find_entry(&self.processed_static_files, url.text.as_str()).is_some() {
            return;
        }
        let key = url.text.clone();
        self.processed_pages.push((key, info));
        proof {
            self.page_urls@ = self.page_urls@.push(url@);
        }
        assert(final(self).wf()) by {
            assert(forall|i: int|
                0 <= i < old(self).processed_pages@.len() ==> final(self).processed_pages@[i]
                    == old(self).processed_pages@[i]);
        }
    }

    /// Records a downloaded static asset under its absolute URL; the first
    /// recorded path wins, exactly as for pages.
    pub fn record_asset(&mut self, url: &WebUrl, info: LinkInfo)
        requires
            old(self).wf(),
        ensures
            final(self).wf(),
            final(self).initial_url == old(self).initial_url,
            final(self).session_id == old(self).session_id,
            final(self).processed_pages@ == old(self).processed_pages@,
            final(self).page_urls@ == old(self).page_urls@,
            has_entry(old(self).processed_static_files@, url@.text) || has_entry(
                old(self).processed_pages@,
                url@.text,
            ) ==> final(self).processed_static_files@ == old(self).processed_static_files@,
            !(has_entry(old(self).processed_static_files@, url@.text) || has_entry(
                old(self).processed_pages@,
                url@.text,
            )) ==> final(self).processed_static_files@ == old(self).processed_static_files@.push(
                (url.text, info),
            ),
    {
        if find_entry(&self.processed_static_files, url.text.as_str()).is_some() {
            return;
        }
        if find_entry(&self.processed_pages, url.text.as_str()).is_some() {
            return;
        }
        let key = url.text.clone();
        self.processed_static_files.push((key, info));
        assert(final(self).wf()) by {
            assert(forall|i: int|
                0 <= i < final(self).processed_pages@.len() ==> final(self).processed_pages@[i]
                    == old(self).processed_pages@[i]);
        }
    }

    /// Copies of both registries — pages first, then assets — for the
    /// rewrite pass.
    pub fn snapshot(&self) -> (r: (Vec<(String, LinkInfo)>, Vec<(String, LinkInfo)>))
        ensures
            entry_views(r.0@) == entry_views(self.processed_pages@),
            entry_views(r.1@) == entry_views(self.processed_static_files@),
    {
        (copy_entries(&self.processed_pages), copy_entries(&self.processed_static_files))
    }

    /// Deduplication, stated once for the whole store: in a well-formed
    /// session every absolute URL names at most one recorded file — keys
    /// are unique inside each registry and no key is in both.
    pub proof fn lemma_dedup(&self)
        requires
            self.wf(),
        ensures
            forall|i: int, j: int|
                0 <= i < j < self.processed_pages@.len() ==> self.processed_pages@[i].0@
                    != self.processed_pages@[j].0@,
            forall|i: int, j: int|
                0 <= i < j < self.processed_static_files@.len()
                    ==> self.processed_static_files@[i].0@
                    != self.processed_static_files@[j].0@,
            forall|i: int, j: int|
                0 <= i < self.processed_pages@.len() && 0 <= j
                    < self.processed_static_files@.len() ==> self.processed_pages@[i].0@
                    != self.processed_static_files@[j].0@,
    {
        assert forall|i: int, j: int|
            0 <= i < self.processed_pages@.len() && 0 <= j
                < self.processed_static_files@.len() implies self.processed_pages@[i].0@
            != self.processed_static_files@[j].0@ by {
            assert(!has_entry(self.processed_static_files@, self.processed_pages@[i].0@));
        }
    }

    /// The same-host guarantee, stated once: in a well-formed session no
    /// recorded page sits on a host that provably differs from the seed's.
    pub proof fn lemma_same_host(&self)
        requires
            self.wf(),
        ensures
            forall|i: int|
                0 <= i < self.page_urls@.len() ==> !hosts_differ(
                    self.page_urls@[i],
                    self.initial_url@,
                ),
    {
    }
}

/// A progress note kept per resource by an embedding process.
#[derive(Debug)]
pub struct SessionUpdate {
    pub session_url: String,
    pub resource_url: String,
    pub message: Option<String>,
    pub bytes_written: Option<u64>,
    pub total_size: Option<u64>,
}

/// The values of a list of entries, key and record views paired.
pub open spec fn entry_views(s: Seq<(String, LinkInfo)>) -> Seq<(Seq<char>, LinkInfoV)> {
    Seq::new(s.len(), |i: int| (s[i].0@, s[i].1@))
}

/// A fresh copy of a registry.
fn copy_entries(entries: &Vec<(String, LinkInfo)>) -> (r: Vec<(String, LinkInfo)>)
    ensures
        entry_views(r@) == entry_views(entries@),
{
    let n: usize = entries.len();
    let mut r: Vec<(String, LinkInfo)> = Vec::new();
    let mut i: usize = 0;
    while i < n
        invariant
            n == entries@.len(),
            i <= n,
            entry_views(r@) =~= entry_views(entries@.subrange(0, i as int)),
        decreases n - i,
    {
        let ghost prev = r@;
        r.push((entries[i].0.clone(), entries[i].1.duplicate()));
        proof {
            assert(entry_views(r@) =~= entry_views(prev).push(
                (entries@[i as int].0@, entries@[i as int].1@),
            ));
            assert(entry_views(entries@.subrange(0, i + 1)) =~= entry_views(
                entries@.subrange(0, i as int),
            ).push((entries@[i as int].0@, entries@[i as int].1@)));
        }
        i = i + 1;
    }
    proof {
        assert(entries@.subrange(0, n as int) =~= entries@);
    }
    r
}

/// The position of the entry whose URL text is `key`, if any.
pub fn find_entry(entries: &Vec<(String, LinkInfo)>, key: &str) -> (r: Option<usize>)
    ensures
        match r {
            Some(i) => i < entries@.len() && entries@[i as int].0@ == key@,
            None => !has_entry(entries@, key@),
        },
{
    let kv = to_chars(key);
    let n: usize = entries.len();
    let mut i: usize = 0;
    while i < n
        invariant
            n == entries@.len(),
            i <= n,
            kv@ == key@,
            forall|j: int| 0 <= j < i ==> entries@[j].0@ != key@,
        decreases n - i,
    {
        if chars_eq_str(&kv, entries[i].0.as_str()) {
            return Some(i);
        }
        i = i + 1;
    }
    None
}

} // verus!
