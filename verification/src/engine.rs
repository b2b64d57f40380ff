//! The mirroring coordinator: one session as an event-driven machine.
//!
//! The embedding process performs the I/O — creating the destination
//! directory, running downloads through `FetchFlow`, reading and writing
//! page files — and feeds each result back.  The decisions live here,
//! verified: the seed rule override, the same-host filter, deduplication
//! and blacklist-driven filtering of discovered links, the breadth-first
//! depth budget, the abort policy for failed assets, and the final rewrite
//! of every saved page.
use vstd::prelude::*;

use crate::DownloadRule;
use crate::Message;
use crate::errors::WscError;
use crate::fetch::FetchOutcome;
use crate::links::get_anchor_links;
use crate::links::get_static_resource_links;
use crate::links::anchors_spec;
use crate::links::assets_spec;
use crate::links::pairs_view;
use crate::links::triples_view;
use crate::rewrite::pattern_spec;
use crate::rewrite::entry_patterns;
use crate::rewrite::rewrite_spec;
use crate::rewrite::rewrite_all;
use crate::session::LinkInfo;
use crate::session::LinkInfoV;
use crate::session::Session;
use crate::session::has_entry;
use crate::text::contains_seq;
use crate::text::to_chars;
use crate::text::contains_sub;
use crate::text::chars_to_string;
use crate::urls::WebUrl;
use crate::urls::WebUrlV;
use crate::urls::LinkParse;
use crate::urls::parse_link;
use crate::urls::hosts_differ;
use crate::urls::allowed_host;

verus! {

/// One frontier entry: a page link discovered at some hop distance.
pub struct PageRef {
    pub relative_link: String,
    pub url: WebUrl,
    /// The anchor-hop distance from the seed at which it was discovered.
    pub level: Ghost<nat>,
}

/// One queued asset of the page being processed.
pub struct AssetRef {
    pub relative_link: String,
    pub url: WebUrl,
    pub attribute: String,
}

/// What the driver must do next for the session.
#[derive(Debug)]
pub enum EngineAction {
    /// Create the destination directory, recursively.
    CreateDir { path: String },
    /// Download one page into the destination directory under the given
    /// rule (the seed comes with a fixed name and a stricter rule).
    FetchPage { url: WebUrl, forced_name: Option<String>, rule: DownloadRule },
    /// Read the saved page file as text.
    ReadPage { path: String },
    /// Download one static asset under the given rule.
    FetchAsset { url: WebUrl, rule: DownloadRule },
    /// Read a saved page again, for rewriting.
    LoadPage { path: String },
    /// Write the rewritten page back, truncating the file.
    StorePage { path: String, content: String },
    /// The session is over with this result.
    Finished(Result<(), WscError>),
}

/// One step: an optional non-fatal notice to the consumer, then an action.
#[derive(Debug)]
pub struct EngineStep {
    pub notice: Option<Message>,
    pub action: EngineAction,
}

/// Where the session stands.
#[derive(PartialEq, Eq, Structural)]
pub enum EnginePhase {
    /// Waiting for the destination directory.
    AwaitDir,
    /// Waiting for the current page's download.
    AwaitPage,
    /// Waiting for the current page's saved HTML.
    AwaitRead,
    /// Waiting for the current asset's download.
    AwaitAsset,
    /// Waiting for a page's text in the rewrite pass.
    AwaitLoad,
    /// Waiting for a rewritten page to be stored.
    AwaitStore,
    /// Between pages: the next step is being chosen.
    Advancing,
    /// The session is over.
    Done,
}

/// The view of a frontier.
pub open spec fn refs_view(s: Seq<PageRef>) -> Seq<(Seq<char>, WebUrlV)> {
    Seq::new(s.len(), |i: int| (s[i].relative_link@, s[i].url@))
}

/// The view of an asset queue.
pub open spec fn asset_refs_view(s: Seq<AssetRef>) -> Seq<(Seq<char>, WebUrlV, Seq<char>)> {
    Seq::new(s.len(), |i: int| (s[i].relative_link@, s[i].url@, s[i].attribute@))
}

/// The discovered anchors that survive filtering: their text does not
/// point into the destination directory already, and their URL is not a
/// recorded page yet.
pub open spec fn kept_anchors(
    found: Seq<(Seq<char>, WebUrlV)>,
    dest_dir: Seq<char>,
    pages: Seq<(String, LinkInfo)>,
) -> Seq<(Seq<char>, WebUrlV)>
    decreases found.len(),
{
    if found.len() == 0 {
        Seq::empty()
    } else {
        let rest = kept_anchors(found.drop_last(), dest_dir, pages);
        let (rel, url) = found.last();
        if !contains_seq(rel, dest_dir) && !has_entry(pages, url.text) {
            rest.push((rel, url))
        } else {
            rest
        }
    }
}

/// The discovered assets that survive filtering, likewise.
pub open spec fn kept_assets(
    found: Seq<(Seq<char>, WebUrlV, Seq<char>)>,
    dest_dir: Seq<char>,
    assets: Seq<(String, LinkInfo)>,
) -> Seq<(Seq<char>, WebUrlV, Seq<char>)>
    decreases found.len(),
{
    if found.len() == 0 {
        Seq::empty()
    } else {
        let rest = kept_assets(found.drop_last(), dest_dir, assets);
        let (rel, url, attr) = found.last();
        if !contains_seq(rel, dest_dir) && !has_entry(assets, url.text) {
            rest.push((rel, url, attr))
        } else {
            rest
        }
    }
}

/// The rewrite patterns of a list of recorded entries, in order:
/// `attr="relative-link"` each.
pub open spec fn patterns_of(entries: Seq<(String, LinkInfo)>) -> Seq<Seq<char>> {
    Seq::new(
        entries.len(),
        |i: int| pattern_spec(entries[i].1@.element_attribute, entries[i].1@.relative_link),
    )
}

/// The matching replacements: `attr="file-path"` each.
pub open spec fn replacements_of(entries: Seq<(String, LinkInfo)>) -> Seq<Seq<char>> {
    Seq::new(
        entries.len(),
        |i: int| pattern_spec(entries[i].1@.element_attribute, entries[i].1@.file_path),
    )
}

/// The saved file paths of a list of recorded entries, in order.
pub open spec fn paths_of(entries: Seq<(String, LinkInfo)>) -> Seq<Seq<char>> {
    Seq::new(entries.len(), |i: int| entries[i].1@.file_path)
}

/// The seed-specific rule override: resources of unknown size are taken,
/// and any failure during the seed fetch aborts; the rest is the caller's.
pub open spec fn seed_rule(base: &DownloadRule, r: &DownloadRule) -> bool {
    &&& r.max_static_file_size == base.max_static_file_size
    &&& r.download_static_resource_with_unknown_size == true
    &&& r.progress_update_interval == base.progress_update_interval
    &&& r.max_level == base.max_level
    &&& r.black_list_urls@ == base.black_list_urls@
    &&& r.abort_on_download_error == true
}

/// The frontier quantities an advancing step sets out from: the views of
/// the frontier being walked and the cursor into it, the anchors collected
/// for the next level, and the remaining depth budget.
pub struct AdvanceFrom {
    pub frontier: Seq<(Seq<char>, WebUrlV)>,
    pub cursor: int,
    pub next: Seq<(Seq<char>, WebUrlV)>,
    pub levels_left: u8,
}

/// The advancing quantities of an engine state.
pub open spec fn advance_pre(pre: Engine) -> AdvanceFrom {
    AdvanceFrom {
        frontier: refs_view(pre.frontier@),
        cursor: pre.cursor as int,
        next: refs_view(pre.next_frontier@),
        levels_left: pre.levels_left,
    }
}

/// Every entry of `frontier` in `[lo, hi)` was passed over for cause: its
/// host provably differs from the seed's, or its URL is already a
/// recorded page.
pub open spec fn passed_over(
    frontier: Seq<(Seq<char>, WebUrlV)>,
    lo: int,
    hi: int,
    pages: Seq<(String, LinkInfo)>,
    seed: WebUrlV,
) -> bool {
    forall|j: int|
        lo <= j < hi ==> hosts_differ((#[trigger] frontier[j]).1, seed) || has_entry(
            pages,
            frontier[j].1.text,
        )
}

/// The engine has just asked for a frontier page.  The page is the entry
/// right before the new cursor; it is on a host compatible with the
/// seed's, not yet recorded, at most `max_level` anchor hops from the
/// seed, and fetched under the caller's own rule.  The frontier being
/// walked is the one the step set out from — or, after exactly one
/// depth-level turn, the collected next frontier — and every entry passed
/// over on the way was on a foreign host or already recorded.
pub open spec fn page_fetch_issued(from: AdvanceFrom, post: Engine, r: EngineStep) -> bool {
    &&& post.phase is AwaitPage
    &&& !post.cur_is_seed
    &&& !hosts_differ(post.cur_url@, post.session.initial_url@)
    &&& !has_entry(post.session.processed_pages@, post.cur_url@.text)
    &&& post.cur_level@ <= post.rule.max_level
    &&& (r.action matches EngineAction::FetchPage { url, forced_name, rule } && url@
        == post.cur_url@ && forced_name is None && rule.same_rule(&post.rule))
    &&& 1 <= post.cursor <= post.frontier@.len()
    &&& refs_view(post.frontier@)[post.cursor - 1] == (post.cur_rel@, post.cur_url@)
    &&& {
        ||| {
            &&& refs_view(post.frontier@) == from.frontier
            &&& refs_view(post.next_frontier@) == from.next
            &&& post.levels_left == from.levels_left
            &&& from.cursor < post.cursor
            &&& passed_over(
                from.frontier,
                from.cursor,
                post.cursor - 1,
                post.session.processed_pages@,
                post.session.initial_url@,
            )
        }
        ||| {
            &&& refs_view(post.frontier@) == from.next
            &&& post.next_frontier@.len() == 0
            &&& from.levels_left > 0
            &&& post.levels_left == from.levels_left - 1
            &&& passed_over(
                from.frontier,
                from.cursor,
                from.frontier.len() as int,
                post.session.processed_pages@,
                post.session.initial_url@,
            )
            &&& passed_over(
                from.next,
                0,
                post.cursor - 1,
                post.session.processed_pages@,
                post.session.initial_url@,
            )
        }
    }
}

/// The traversal is over: the frontier is consumed, the depth budget is
/// spent, nothing is collected for a further level, and every entry still
/// passed over was on a foreign host or already recorded.
pub open spec fn traversal_exhausted(from: AdvanceFrom, post: Engine) -> bool {
    &&& post.cursor == post.frontier@.len()
    &&& post.levels_left == 0
    &&& post.next_frontier@.len() == 0
    &&& passed_over(
        from.frontier,
        from.cursor,
        from.frontier.len() as int,
        post.session.processed_pages@,
        post.session.initial_url@,
    )
    &&& passed_over(
        from.next,
        0,
        from.next.len() as int,
        post.session.processed_pages@,
        post.session.initial_url@,
    )
}

/// The rewrite pass stands ready: at its first recorded page, with one
/// pattern and replacement per recorded resource — assets first, then
/// pages, in recording order.
pub open spec fn rewrite_pass_ready(post: Engine, r: EngineStep) -> bool {
    &&& post.phase is AwaitLoad
    &&& post.rewrite_idx == 0
    &&& post.patterns.deep_view() == patterns_of(
        post.session.processed_static_files@ + post.session.processed_pages@,
    )
    &&& post.replacements.deep_view() == replacements_of(
        post.session.processed_static_files@ + post.session.processed_pages@,
    )
    &&& post.page_paths.deep_view() == paths_of(post.session.processed_pages@)
    &&& (r.action matches EngineAction::LoadPage { path } && path@ == paths_of(
        post.session.processed_pages@,
    )[0])
}

/// The rewrite pass has just begun — and only because the traversal was
/// exhausted first.
pub open spec fn rewrite_started(from: AdvanceFrom, post: Engine, r: EngineStep) -> bool {
    &&& traversal_exhausted(from, post)
    &&& rewrite_pass_ready(post, r)
}

/// The session ended cleanly without a rewrite pass: the traversal was
/// exhausted and no page was ever recorded, so nothing needs rewriting.
pub open spec fn all_done(from: AdvanceFrom, post: Engine, r: EngineStep) -> bool {
    &&& traversal_exhausted(from, post)
    &&& post.session.processed_pages@.len() == 0
    &&& post.phase is Done
    &&& r.action == EngineAction::Finished(Result::<(), WscError>::Ok(()))
}

/// After finishing with a page, the engine either fetches the next due
/// frontier page, or — the traversal exhausted — starts the rewrite pass,
/// or ends a session that recorded nothing.
pub open spec fn advanced(from: AdvanceFrom, post: Engine, r: EngineStep) -> bool {
    ||| page_fetch_issued(from, post, r)
    ||| rewrite_started(from, post, r)
    ||| all_done(from, post, r)
}

/// After one asset of the current page is dealt with: the next queued
/// asset is fetched while any remains, and only once the queue is
/// exhausted does the engine move past the page.
pub open spec fn asset_step_taken(pre: Engine, post: Engine, r: EngineStep) -> bool {
    if pre.asset_idx + 1 < pre.assets@.len() {
        next_asset_issued(pre, post, r)
    } else {
        advanced(advance_pre(pre), post, r)
    }
}

/// The depth budget is hard: once the frontier is consumed and no level
/// may be opened, an advancing step can never ask for another page.  In
/// particular, with a budget of zero nothing beyond the seed is ever
/// fetched.
pub proof fn lemma_no_fetch_without_budget(from: AdvanceFrom, post: Engine, r: EngineStep)
    requires
        advanced(from, post, r),
        from.cursor == from.frontier.len(),
        from.levels_left == 0,
    ensures
        !(r.action matches EngineAction::FetchPage { url, forced_name, rule }),
{
    if r.action matches EngineAction::FetchPage { url, forced_name, rule } {
        assert(page_fetch_issued(from, post, r));
        if refs_view(post.frontier@) == from.frontier {
            assert(post.cursor <= from.frontier.len());
            assert(false);
        } else {
            assert(from.levels_left > 0);
            assert(false);
        }
    }
}

/// Discovery is followed up: when the level in hand is consumed, depth
/// remains, and exactly one anchor was collected — on the seed's host and
/// not yet recorded — the advancing step must ask for that very page.
pub proof fn lemma_fresh_anchor_is_fetched(from: AdvanceFrom, post: Engine, r: EngineStep)
    requires
        advanced(from, post, r),
        from.cursor == from.frontier.len(),
        from.levels_left > 0,
        from.next.len() == 1,
        !hosts_differ(from.next[0].1, post.session.initial_url@),
        !has_entry(post.session.processed_pages@, from.next[0].1.text),
    ensures
        page_fetch_issued(from, post, r),
        post.cur_rel@ == from.next[0].0,
        post.cur_url@ == from.next[0].1,
{
    if rewrite_started(from, post, r) || all_done(from, post, r) {
        assert(passed_over(
            from.next,
            0,
            from.next.len() as int,
            post.session.processed_pages@,
            post.session.initial_url@,
        ));
        assert(hosts_differ(from.next[0].1, post.session.initial_url@) || has_entry(
            post.session.processed_pages@,
            from.next[0].1.text,
        ));
        assert(false);
    }
    assert(page_fetch_issued(from, post, r));
    assert(!(refs_view(post.frontier@) == from.frontier && from.cursor < post.cursor)) by {
        if refs_view(post.frontier@) == from.frontier && from.cursor < post.cursor {
            assert(post.frontier@.len() == refs_view(post.frontier@).len());
            assert(post.cursor <= from.frontier.len());
            assert(false);
        }
    }
    assert(refs_view(post.frontier@) == from.next);
    if post.cursor != 1 {
        assert(passed_over(
            from.next,
            0,
            post.cursor - 1,
            post.session.processed_pages@,
            post.session.initial_url@,
        ));
        assert(hosts_differ(from.next[0].1, post.session.initial_url@) || has_entry(
            post.session.processed_pages@,
            from.next[0].1.text,
        ));
        assert(false);
    }
    assert(refs_view(post.frontier@)[0] == (post.cur_rel@, post.cur_url@));
}

/// The next queued asset of the current page is being fetched.
pub open spec fn next_asset_issued(pre: Engine, post: Engine, r: EngineStep) -> bool {
    &&& post.phase is AwaitAsset
    &&& post.assets@ == pre.assets@
    &&& post.asset_idx == pre.asset_idx + 1
    &&& post.asset_idx < post.assets@.len()
    &&& (r.action matches EngineAction::FetchAsset { url, rule } && url@ == post.assets@[
        post.asset_idx as int
    ].url@ && rule.same_rule(&pre.rule))
}

/// The driver of one mirroring session.
pub struct Engine {
    pub session_id: String,
    pub dest_dir: String,
    pub rule: DownloadRule,
    pub session: Session,
    /// The frontier of the level being processed, with a cursor into it.
    pub frontier: Vec<PageRef>,
    pub cursor: usize,
    /// Anchors discovered during this level, for the next one.
    pub next_frontier: Vec<PageRef>,
    /// How many more levels may still be opened.
    pub levels_left: u8,
    /// The hop distance of the pages processed in the current level.
    pub level_now: Ghost<nat>,
    pub phase: EnginePhase,
    /// The page being processed.
    pub cur_rel: String,
    pub cur_url: WebUrl,
    pub cur_is_seed: bool,
    pub cur_path: String,
    pub cur_level: Ghost<nat>,
    pub want_anchors: bool,
    /// The asset queue of the page being processed.
    pub assets: Vec<AssetRef>,
    pub asset_idx: usize,
    /// The rewrite pass.
    pub patterns: Vec<Vec<char>>,
    pub replacements: Vec<Vec<char>>,
    pub page_paths: Vec<String>,
    pub rewrite_idx: usize,
}

impl Engine {
    /// The engine's invariant.
    pub open spec fn wf(&self) -> bool {
        &&& self.session.wf()
        &&& self.cursor <= self.frontier@.len()
        &&& self.level_now@ + self.levels_left == self.rule.max_level
        &&& forall|i: int|
            0 <= i < self.frontier@.len() ==> (#[trigger] self.frontier@[i]).level@
                == self.level_now@
        &&& forall|i: int|
            0 <= i < self.next_frontier@.len() ==> (#[trigger] self.next_frontier@[i]).level@
                == self.level_now@ + 1
        &&& self.levels_left == 0 ==> self.next_frontier@.len() == 0
        &&& (self.phase is AwaitPage || self.phase is AwaitRead || self.phase is AwaitAsset) ==> {
            &&& !hosts_differ(self.cur_url@, self.session.initial_url@)
            &&& self.cur_level@ == self.level_now@
            &&& self.want_anchors == (self.levels_left > 0)
        }
        &&& self.phase is AwaitAsset ==> self.asset_idx < self.assets@.len()
        &&& (self.phase is AwaitLoad || self.phase is AwaitStore) ==> {
            &&& self.rewrite_idx < self.page_paths@.len()
            &&& self.patterns@.len() == self.replacements@.len()
        }
    }

    /// The depth bound: any page the engine is fetching or processing
    /// sits at most `max_level` anchor hops from the seed.
    pub proof fn lemma_depth_bound(&self)
        requires
            self.wf(),
            self.phase is AwaitPage || self.phase is AwaitRead || self.phase is AwaitAsset,
        ensures
            self.cur_level@ <= self.rule.max_level,
    {
    }

    /// Starts a session: the seed must parse as an absolute URL, and the
    /// destination directory is requested first.
    pub fn new(session_id: String, link: String, dest_dir: String, rule: DownloadRule) -> (r:
        Result<(Engine, EngineStep), WscError>)
        ensures
            match r {
                Ok(p) => {
                    &&& p.0.wf()
                    &&& (crate::urls::url_parse(link@) matches crate::urls::LinkParseV::Absolute(u)
                        && p.0.session.initial_url@ == u)
                    &&& p.0.phase is AwaitDir
                    &&& p.0.session.processed_pages@.len() == 0
                    &&& p.0.session.processed_static_files@.len() == 0
                    &&& p.1.notice is None
                    &&& p.1.action == (EngineAction::CreateDir { path: dest_dir })
                },
                Err(e) => {
                    &&& !(crate::urls::url_parse(link@) is Absolute)
                    &&& e == WscError::InvalidUrl(link)
                },
            },
    {
        let url = match parse_link(link.as_str()) {
            LinkParse::Absolute(u) => u,
            LinkParse::Relative => {
                return Err(WscError::InvalidUrl(link));
            },
            LinkParse::Invalid => {
                return Err(WscError::InvalidUrl(link));
            },
        };
        let seed_for_cur = url.duplicate();
        let session = Session::new(url, session_id.clone());
        let engine = Engine {
            session_id,
            dest_dir: dest_dir.clone(),
            levels_left: rule.max_level,
            rule,
            session,
            frontier: Vec::new(),
            cursor: 0,
            next_frontier: Vec::new(),
            level_now: Ghost(0nat),
            phase: EnginePhase::AwaitDir,
            cur_rel: link,
            cur_url: seed_for_cur,
            cur_is_seed: true,
            cur_path: String::new(),
            cur_level: Ghost(0nat),
            want_anchors: false,
            assets: Vec::new(),
            asset_idx: 0,
            patterns: Vec::new(),
            replacements: Vec::new(),
            page_paths: Vec::new(),
            rewrite_idx: 0,
        };
        let step = EngineStep { notice: None, action: EngineAction::CreateDir { path: dest_dir } };
        Ok((engine, step))
    }

    /// Handles the destination directory's creation.  Failure ends the
    /// session; success starts the seed fetch under the seed rule
    /// override, saved as `index.html`.
    pub fn on_dir_created(&mut self, result: Result<(), String>) -> (r: EngineStep)
        requires
            old(self).wf(),
            old(self).phase is AwaitDir,
        ensures
            final(self).wf(),
            final(self).session == old(self).session,
            r.notice is None,
            match result {
                Err(message) => r.action == EngineAction::Finished(
                    Err(WscError::ErrorCreatingDestinationDirectory(message)),
                ) && final(self).phase is Done,
                Ok(u) => {
                    &&& final(self).phase is AwaitPage
                    &&& final(self).cur_is_seed
                    &&& final(self).cur_url@ == old(self).session.initial_url@
                    &&& (r.action matches EngineAction::FetchPage { url, forced_name, rule }
                        && url@ == old(self).session.initial_url@ && (forced_name matches Some(n)
                        && n@ == "index.html"@) && seed_rule(&old(self).rule, &rule))
                },
            },
    {
        match result {
            Err(message) => {
                self.phase = EnginePhase::Done;
                EngineStep {
                    notice: None,
                    action: EngineAction::Finished(
                        Err(WscError::ErrorCreatingDestinationDirectory(message)),
                    ),
                }
            },
            Ok(_) => {
                self.phase = EnginePhase::AwaitPage;
                self.cur_is_seed = true;
                proof {
                    self.cur_level@ = self.level_now@;
                }
                self.cur_url = self.session.initial_url.duplicate();
                self.want_anchors = self.levels_left > 0;
                let base = self.rule.duplicate();
                let over = DownloadRule {
                    download_static_resource_with_unknown_size: true,
                    abort_on_download_error: true,
                    max_static_file_size: base.max_static_file_size,
                    progress_update_interval: base.progress_update_interval,
                    max_level: base.max_level,
                    black_list_urls: base.black_list_urls,
                };
                let name = String::from_str("index.html");
                EngineStep {
                    notice: None,
                    action: EngineAction::FetchPage {
                        url: self.session.initial_url.duplicate(),
                        forced_name: Some(name),
                        rule: over,
                    },
                }
            },
        }
    }
}

/// The current page was recorded under its URL: the asset registry is
/// untouched; the page registry gains exactly one entry — the page's URL,
/// the link text it was reached by, its saved path and the `href`
/// attribute — unless the URL was already recorded somewhere.
pub open spec fn page_recorded(pre: Engine, post: Engine, path: String) -> bool {
    let key = pre.cur_url@.text;
    let already = has_entry(pre.session.processed_pages@, key) || has_entry(
        pre.session.processed_static_files@,
        key,
    );
    &&& post.session.processed_static_files@ == pre.session.processed_static_files@
    &&& already ==> post.session.processed_pages@ == pre.session.processed_pages@
    &&& !already ==> {
        &&& post.session.processed_pages@.len() == pre.session.processed_pages@.len() + 1
        &&& post.session.processed_pages@.drop_last() == pre.session.processed_pages@
        &&& post.session.processed_pages@.last().0@ == key
        &&& post.session.processed_pages@.last().1@ == (LinkInfoV {
            relative_link: pre.cur_rel@,
            file_path: path@,
            element_attribute: "href"@,
        })
    }
}

/// The current asset was recorded under its URL, symmetrically.
pub open spec fn asset_recorded(pre: Engine, post: Engine, path: String) -> bool {
    let entry = pre.assets@[pre.asset_idx as int];
    let key = entry.url@.text;
    let already = has_entry(pre.session.processed_static_files@, key) || has_entry(
        pre.session.processed_pages@,
        key,
    );
    &&& post.session.processed_pages@ == pre.session.processed_pages@
    &&& already ==> post.session.processed_static_files@
        == pre.session.processed_static_files@
    &&& !already ==> {
        &&& post.session.processed_static_files@.len() == pre.session.processed_static_files@.len()
            + 1
        &&& post.session.processed_static_files@.drop_last()
            == pre.session.processed_static_files@
        &&& post.session.processed_static_files@.last().0@ == key
        &&& post.session.processed_static_files@.last().1@ == (LinkInfoV {
            relative_link: entry.relative_link@,
            file_path: path@,
            element_attribute: entry.attribute@,
        })
    }
}

/// Moves a frontier out, leaving the source empty.
fn take_refs(v: &mut Vec<PageRef>) -> (r: Vec<PageRef>)
    ensures
        r@ == old(v)@,
        final(v)@.len() == 0,
{
    let mut taken: Vec<PageRef> = Vec::new();
    core::mem::swap(&mut taken, v);
    taken
}

impl Engine {
    /// Chooses the next step once the current page is dealt with: the
    /// next due frontier page (skipping foreign hosts and recorded URLs),
    /// the next depth level while the budget lasts, and finally the
    /// rewrite pass.
    fn proceed(&mut self) -> (r: EngineStep)
        requires
            old(self).wf(),
            old(self).phase is Advancing,
        ensures
            final(self).wf(),
            final(self).session == old(self).session,
            final(self).session_id == old(self).session_id,
            final(self).dest_dir == old(self).dest_dir,
            final(self).rule == old(self).rule,
            final(self).assets == old(self).assets,
            final(self).asset_idx == old(self).asset_idx,
            r.notice is None,
            advanced(advance_pre(*old(self)), *final(self), r),
        decreases old(self).levels_left, old(self).frontier@.len() - old(self).cursor,
    {
        let ghost from = advance_pre(*old(self));
        while self.cursor < self.frontier.len()
            invariant
                self.wf(),
                self.session == old(self).session,
                self.session_id == old(self).session_id,
                self.dest_dir == old(self).dest_dir,
                self.rule == old(self).rule,
                self.levels_left == old(self).levels_left,
                self.frontier == old(self).frontier,
                self.next_frontier == old(self).next_frontier,
                self.phase == old(self).phase,
                self.level_now == old(self).level_now,
                self.assets == old(self).assets,
                self.asset_idx == old(self).asset_idx,
                from == advance_pre(*old(self)),
                old(self).cursor <= self.cursor,
                passed_over(
                    from.frontier,
                    from.cursor,
                    self.cursor as int,
                    self.session.processed_pages@,
                    self.session.initial_url@,
                ),
            decreases self.frontier@.len() - self.cursor,
        {
            let allowed = allowed_host(&self.frontier[self.cursor].url, &self.session.initial_url);
            let fresh = !self.session.has_page(self.frontier[self.cursor].url.text.as_str());
            if allowed && fresh {
                let rel = self.frontier[self.cursor].relative_link.clone();
                let u = self.frontier[self.cursor].url.duplicate();
                let ghost lvl = self.frontier@[self.cursor as int].level@;
                self.cur_rel = rel;
                self.cur_url = u;
                self.cur_is_seed = false;
                proof {
                    self.cur_level@ = lvl;
                }
                self.want_anchors = self.levels_left > 0;
                self.cursor = self.cursor + 1;
                self.phase = EnginePhase::AwaitPage;
                let action_url = self.cur_url.duplicate();
                proof {
                    assert(refs_view(self.frontier@)[self.cursor - 1] == (
                    self.cur_rel@,
                    self.cur_url@,
                    ));
                }
                return EngineStep {
                    notice: None,
                    action: EngineAction::FetchPage {
                        url: action_url,
                        forced_name: None,
                        rule: self.rule.duplicate(),
                    },
                };
            }
            proof {
                assert(refs_view(self.frontier@)[self.cursor as int].1 == self.frontier@[
                self.cursor as int
                ].url@);
            }
            self.cursor = self.cursor + 1;
        }
        if self.levels_left > 0 {
            self.levels_left = self.levels_left - 1;
            proof {
                self.level_now@ = self.level_now@ + 1;
            }
            let moved = take_refs(&mut self.next_frontier);
            self.frontier = moved;
            self.cursor = 0;
            let ghost mid_from = advance_pre(*self);
            let step = self.proceed();
            proof {
                assert(mid_from.frontier == from.next);
                assert(mid_from.next =~= Seq::<(Seq<char>, WebUrlV)>::empty());
                assert(advanced(from, *self, step)) by {
                    if page_fetch_issued(mid_from, *self, step) {
                        if refs_view(self.frontier@) == mid_from.frontier {
                        } else {
                            assert(refs_view(self.frontier@) == mid_from.next);
                            assert(refs_view(self.frontier@).len() == 0);
                            assert(false);
                        }
                    } else if rewrite_started(mid_from, *self, step) {
                        assert(passed_over(
                            from.next,
                            0,
                            from.next.len() as int,
                            self.session.processed_pages@,
                            self.session.initial_url@,
                        ));
                    } else {
                        assert(all_done(mid_from, *self, step));
                    }
                }
            }
            step
        } else {
            assert(self.next_frontier@.len() == 0);
            assert(from.next.len() == 0) by {
                assert(from.next == refs_view(old(self).next_frontier@));
            }
            let step = self.start_rewrite();
            proof {
                assert(traversal_exhausted(from, *self));
            }
            step
        }
    }

    /// Builds the pattern and replacement lists from every recorded
    /// resource — assets first, then pages — and begins rewriting, or ends
    /// the session when no page was saved.
    fn start_rewrite(&mut self) -> (r: EngineStep)
        requires
            old(self).wf(),
            old(self).phase is Advancing,
            old(self).cursor == old(self).frontier@.len(),
            old(self).levels_left == 0,
        ensures
            final(self).wf(),
            final(self).session == old(self).session,
            final(self).session_id == old(self).session_id,
            final(self).dest_dir == old(self).dest_dir,
            final(self).rule == old(self).rule,
            final(self).assets == old(self).assets,
            final(self).asset_idx == old(self).asset_idx,
            final(self).frontier == old(self).frontier,
            final(self).cursor == old(self).cursor,
            final(self).next_frontier == old(self).next_frontier,
            final(self).levels_left == old(self).levels_left,
            r.notice is None,
            rewrite_pass_ready(*final(self), r) || (final(self).session.processed_pages@.len()
                == 0 && final(self).phase is Done && r.action == EngineAction::Finished(
                Result::<(), WscError>::Ok(()),
            )),
    {
        let ghost statics = self.session.processed_static_files@;
        let ghost pages = self.session.processed_pages@;
        let mut pats: Vec<Vec<char>> = Vec::new();
        let mut reps: Vec<Vec<char>> = Vec::new();
        let na: usize = self.session.processed_static_files.len();
        let mut i: usize = 0;
        while i < na
            invariant
                na == statics.len(),
                statics == self.session.processed_static_files@,
                i <= na,
                pats.deep_view() =~~= patterns_of(statics.subrange(0, i as int)),
                reps.deep_view() =~~= replacements_of(statics.subrange(0, i as int)),
            decreases na - i,
        {
            let pair = entry_patterns(&self.session.processed_static_files[i].1);
            let ghost old_pats = pats.deep_view();
            let ghost old_reps = reps.deep_view();
            pats.push(pair.0);
            reps.push(pair.1);
            proof {
                assert(pats.deep_view() =~~= old_pats.push(
                    pattern_spec(statics[i as int].1@.element_attribute, statics[i as int].1@.relative_link),
                ));
                assert(reps.deep_view() =~~= old_reps.push(
                    pattern_spec(statics[i as int].1@.element_attribute, statics[i as int].1@.file_path),
                ));
                assert(patterns_of(statics.subrange(0, i + 1)) =~= patterns_of(
                    statics.subrange(0, i as int),
                ).push(
                    pattern_spec(statics[i as int].1@.element_attribute, statics[i as int].1@.relative_link),
                ));
                assert(replacements_of(statics.subrange(0, i + 1)) =~= replacements_of(
                    statics.subrange(0, i as int),
                ).push(
                    pattern_spec(statics[i as int].1@.element_attribute, statics[i as int].1@.file_path),
                ));
            }
            i = i + 1;
        }
        proof {
            assert(statics.subrange(0, na as int) =~= statics);
        }
        let np: usize = self.session.processed_pages.len();
        let mut paths: Vec<String> = Vec::new();
        let mut j: usize = 0;
        while j < np
            invariant
                np == pages.len(),
                pages == self.session.processed_pages@,
                statics == self.session.processed_static_files@,
                j <= np,
                pats.deep_view() =~~= patterns_of(statics + pages.subrange(0, j as int)),
                reps.deep_view() =~~= replacements_of(statics + pages.subrange(0, j as int)),
                paths.deep_view() =~~= paths_of(pages.subrange(0, j as int)),
            decreases np - j,
        {
            let pair = entry_patterns(&self.session.processed_pages[j].1);
            let ghost old_pats = pats.deep_view();
            let ghost old_reps = reps.deep_view();
            let ghost old_paths = paths.deep_view();
            pats.push(pair.0);
            reps.push(pair.1);
            paths.push(self.session.processed_pages[j].1.file_path.clone());
            proof {
                assert(pats.deep_view() =~~= old_pats.push(
                    pattern_spec(pages[j as int].1@.element_attribute, pages[j as int].1@.relative_link),
                ));
                assert(reps.deep_view() =~~= old_reps.push(
                    pattern_spec(pages[j as int].1@.element_attribute, pages[j as int].1@.file_path),
                ));
                assert(paths.deep_view() =~~= old_paths.push(pages[j as int].1@.file_path));
                assert(statics + pages.subrange(0, j + 1) =~= (statics + pages.subrange(
                    0,
                    j as int,
                )).push(pages[j as int]));
                let grown = statics + pages.subrange(0, j as int);
                assert(patterns_of(grown.push(pages[j as int])) =~= patterns_of(grown).push(
                    pattern_spec(pages[j as int].1@.element_attribute, pages[j as int].1@.relative_link),
                ));
                assert(replacements_of(grown.push(pages[j as int])) =~= replacements_of(
                    grown,
                ).push(
                    pattern_spec(pages[j as int].1@.element_attribute, pages[j as int].1@.file_path),
                ));
                assert(paths_of(pages.subrange(0, j + 1)) =~= paths_of(
                    pages.subrange(0, j as int),
                ).push(pages[j as int].1@.file_path));
            }
            j = j + 1;
        }
        proof {
            assert(pages.subrange(0, np as int) =~= pages);
            assert(statics + pages.subrange(0, np as int) =~= statics + pages);
        }
        self.patterns = pats;
        self.replacements = reps;
        self.page_paths = paths;
        self.rewrite_idx = 0;
        if self.page_paths.len() == 0 {
            self.phase = EnginePhase::Done;
            assert(paths_of(pages).len() == 0);
            EngineStep {
                notice: None,
                action: EngineAction::Finished(Result::<(), WscError>::Ok(())),
            }
        } else {
            self.phase = EnginePhase::AwaitLoad;
            let first = self.page_paths[0].clone();
            assert(first@ == paths_of(pages)[0]);
            EngineStep { notice: None, action: EngineAction::LoadPage { path: first } }
        }
    }

    /// Handles the current page's download.  Any failure of a page fetch
    /// is fatal; a skipped page yields nothing; a saved page is recorded
    /// and its HTML is asked for.
    pub fn on_page_fetched(&mut self, outcome: FetchOutcome) -> (r: EngineStep)
        requires
            old(self).wf(),
            old(self).phase is AwaitPage,
        ensures
            final(self).wf(),
            final(self).session_id == old(self).session_id,
            final(self).dest_dir == old(self).dest_dir,
            final(self).rule == old(self).rule,
            match outcome {
                FetchOutcome::Failed(e) => r.notice is None && final(self).phase is Done
                    && r.action == EngineAction::Finished(Result::<(), WscError>::Err(e))
                    && final(self).session == old(self).session,
                FetchOutcome::Skipped => r.notice is None && final(self).session == old(self).session && advanced(advance_pre(*old(self)), *final(self), r),
                FetchOutcome::Saved(path) => {
                    &&& r.notice is None
                    &&& final(self).phase is AwaitRead
                    &&& final(self).cur_path == path
                    &&& final(self).cur_url@ == old(self).cur_url@
                    &&& final(self).cur_is_seed == old(self).cur_is_seed
                    &&& final(self).want_anchors == old(self).want_anchors
                    &&& r.action == (EngineAction::ReadPage { path: path })
                    &&& page_recorded(*old(self), *final(self), path)
                },
            },
    {
        match outcome {
            FetchOutcome::Failed(e) => {
                self.phase = EnginePhase::Done;
                EngineStep {
                    notice: None,
                    action: EngineAction::Finished(Result::<(), WscError>::Err(e)),
                }
            },
            FetchOutcome::Skipped => {
                self.phase = EnginePhase::Advancing;
                self.proceed()
            },
            FetchOutcome::Saved(path) => {
                let info = LinkInfo {
                    relative_link: self.cur_rel.clone(),
                    file_path: path.clone(),
                    element_attribute: String::from_str("href"),
                };
                let u = self.cur_url.duplicate();
                self.session.record_page(&u, info);
                proof {
                    let prev = old(self).session.processed_pages@;
                    if self.session.processed_pages@.len() == prev.len() + 1 {
                        assert(self.session.processed_pages@.drop_last() =~= prev);
                    }
                }
                self.cur_path = path.clone();
                self.phase = EnginePhase::AwaitRead;
                EngineStep { notice: None, action: EngineAction::ReadPage { path } }
            },
        }
    }
    /// Handles the current page's saved HTML.  An unreadable seed is
    /// fatal; an unreadable sub-page only produces a notice and yields no
    /// links.  Otherwise the anchors (while depth remains) and assets are
    /// extracted, filtered against the destination directory and the
    /// session, and the page's asset downloads begin.
    pub fn on_page_read(&mut self, result: Result<String, String>) -> (r: EngineStep)
        requires
            old(self).wf(),
            old(self).phase is AwaitRead,
        ensures
            final(self).wf(),
            final(self).session_id == old(self).session_id,
            final(self).dest_dir == old(self).dest_dir,
            final(self).rule == old(self).rule,
            result matches Err(message) ==> final(self).session == old(self).session,
            result matches Err(message) && old(self).cur_is_seed ==> r.notice is None,
            result matches Err(message) && old(self).cur_is_seed ==> final(self).phase is Done,
            match result {
                Err(message) => old(self).cur_is_seed ==> (
                r.action matches EngineAction::Finished(
                    Err(WscError::FileOperationError { file_name, message: m }),
                ) && file_name == old(self).cur_path && m == message),
                Ok(h) => true,
            },
            match result {
                Err(message) => old(self).cur_is_seed || (r.notice matches Some(m) && m.is_error
                    && m.content@ == "Error reading file for resource links. "@ + message@
                    && m.resource_name@ == old(self).cur_path@),
                Ok(h) => true,
            },
            result matches Err(message) && !old(self).cur_is_seed ==> advanced(
                advance_pre(*old(self)),
                *final(self),
                r,
            ),
            match result {
                Err(message) => true,
                Ok(html) => final(self).session == old(self).session,
            },
            match result {
                Err(message) => true,
                Ok(html) => asset_refs_view(final(self).assets@) == kept_assets(
                    assets_spec(html@, old(self).cur_url@.text),
                    old(self).dest_dir@,
                    old(self).session.processed_static_files@,
                ),
            },
            match result {
                Err(message) => true,
                Ok(html) => r.notice is None,
            },
            match result {
                Err(message) => true,
                Ok(html) => {
                    let collected = if old(self).want_anchors {
                        refs_view(old(self).next_frontier@) + kept_anchors(
                            anchors_spec(html@, old(self).cur_url@.text),
                            old(self).dest_dir@,
                            old(self).session.processed_pages@,
                        )
                    } else {
                        refs_view(old(self).next_frontier@)
                    };
                    if kept_assets(
                        assets_spec(html@, old(self).cur_url@.text),
                        old(self).dest_dir@,
                        old(self).session.processed_static_files@,
                    ).len() > 0 {
                        &&& final(self).phase is AwaitAsset
                        &&& final(self).asset_idx == 0
                        &&& (r.action matches EngineAction::FetchAsset { url, rule } && url@ == final(self).assets@[0].url@ && rule.same_rule(&old(self).rule))
                        &&& refs_view(final(self).next_frontier@) == collected
                        &&& final(self).frontier == old(self).frontier
                        &&& final(self).cursor == old(self).cursor
                        &&& final(self).levels_left == old(self).levels_left
                    } else {
                        advanced(
                            AdvanceFrom {
                                frontier: refs_view(old(self).frontier@),
                                cursor: old(self).cursor as int,
                                next: collected,
                                levels_left: old(self).levels_left,
                            },
                            *final(self),
                            r,
                        )
                    }
                },
            },
    {
        match result {
            Err(message) => {
                if self.cur_is_seed {
                    self.phase = EnginePhase::Done;
                    EngineStep {
                        notice: None,
                        action: EngineAction::Finished(
                            Err(
                                WscError::FileOperationError {
                                    file_name: self.cur_path.clone(),
                                    message,
                                },
                            ),
                        ),
                    }
                } else {
                    self.phase = EnginePhase::Advancing;
                    let mut content = String::from_str("Error reading file for resource links. ");
                    content.append(message.as_str());
                    let notice = Message {
                        session_id: self.session_id.clone(),
                        content,
                        resource_name: self.cur_path.clone(),
                        is_error: true,
                    };
                    let step = self.proceed();
                    EngineStep { notice: Some(notice), action: step.action }
                }
            },
            Ok(html) => {
                let ghost base = self.cur_url@.text;
                if self.want_anchors {
                    let found = get_anchor_links(html.as_str(), &self.cur_url);
                    let dest = to_chars(self.dest_dir.as_str());
                    let n: usize = found.len();
                    let mut i: usize = 0;
                    while i < n
                        invariant
                            self.wf(),
                            self.want_anchors,
                            self.levels_left > 0,
                            n == found@.len(),
                            i <= n,
                            self.session == old(self).session,
                            self.session_id == old(self).session_id,
                            self.dest_dir == old(self).dest_dir,
                            self.rule == old(self).rule,
                            self.phase == old(self).phase,
                            self.cur_url@ == old(self).cur_url@,
                            self.cur_is_seed == old(self).cur_is_seed,
                            self.cur_path == old(self).cur_path,
                            self.cur_rel == old(self).cur_rel,
                            self.cur_level == old(self).cur_level,
                            self.want_anchors == old(self).want_anchors,
                            self.frontier == old(self).frontier,
                            self.cursor == old(self).cursor,
                            self.levels_left == old(self).levels_left,
                            self.level_now == old(self).level_now,
                            self.cur_level@ == self.level_now@,
                            forall|t: int|
                                0 <= t < self.next_frontier@.len() ==> (
                                #[trigger] self.next_frontier@[t]).level@ == self.level_now@ + 1,
                            self.assets == old(self).assets,
                            self.asset_idx == old(self).asset_idx,
                            dest@ == self.dest_dir@,
                            refs_view(self.next_frontier@) =~= refs_view(old(self).next_frontier@)
                                + kept_anchors(
                                pairs_view(found@).subrange(0, i as int),
                                self.dest_dir@,
                                self.session.processed_pages@,
                            ),
                        decreases n - i,
                    {
                        let ghost prefix = kept_anchors(
                            pairs_view(found@).subrange(0, i as int),
                            self.dest_dir@,
                            self.session.processed_pages@,
                        );
                        proof {
                            assert(pairs_view(found@).subrange(0, i + 1).drop_last()
                                =~= pairs_view(found@).subrange(0, i as int));
                            assert(pairs_view(found@).subrange(0, i + 1).last() == (
                            found@[i as int].0@,
                            found@[i as int].1@,
                            ));
                        }
                        let rel_chars = to_chars(found[i].0.as_str());
                        let hit = contains_sub(&rel_chars, &dest);
                        let known = self.session.has_page(found[i].1.text.as_str());
                        if !hit && !known {
                            let ghost prev = self.next_frontier@;
                            self.next_frontier.push(
                                PageRef {
                                    relative_link: found[i].0.clone(),
                                    url: found[i].1.duplicate(),
                                    level: Ghost((self.cur_level@ + 1) as nat),
                                },
                            );
                            proof {
                                assert(refs_view(self.next_frontier@) =~= refs_view(prev).push(
                                    (found@[i as int].0@, found@[i as int].1@),
                                ));
                                assert(self.cur_level@ == self.level_now@);
                                assert forall|t: int|
                                    0 <= t < self.next_frontier@.len() implies (
                                #[trigger] self.next_frontier@[t]).level@ == self.level_now@
                                    + 1 by {
                                    if t < prev.len() {
                                        assert(self.next_frontier@[t] == prev[t]);
                                        assert(prev[t].level@ == self.level_now@ + 1);
                                    } else {
                                        assert(self.next_frontier@[t].level@ == self.cur_level@
                                            + 1);
                                    }
                                }
                            }
                        }
                        i = i + 1;
                    }
                    proof {
                        assert(pairs_view(found@).subrange(0, n as int) =~= pairs_view(found@));
                        assert(pairs_view(found@) == anchors_spec(html@, base));
                    }
                }
                let found3 = get_static_resource_links(html.as_str(), &self.cur_url);
                let dest = to_chars(self.dest_dir.as_str());
                let mut queue: Vec<AssetRef> = Vec::new();
                let m: usize = found3.len();
                let mut k: usize = 0;
                while k < m
                    invariant
                        m == found3@.len(),
                        k <= m,
                        self.session == old(self).session,
                        self.dest_dir == old(self).dest_dir,
                        dest@ == self.dest_dir@,
                        triples_view(found3@) == assets_spec(html@, base),
                        asset_refs_view(queue@) =~= kept_assets(
                            triples_view(found3@).subrange(0, k as int),
                            self.dest_dir@,
                            self.session.processed_static_files@,
                        ),
                    decreases m - k,
                {
                    let ghost prefix = kept_assets(
                        triples_view(found3@).subrange(0, k as int),
                        self.dest_dir@,
                        self.session.processed_static_files@,
                    );
                    proof {
                        assert(triples_view(found3@).subrange(0, k + 1).drop_last()
                            =~= triples_view(found3@).subrange(0, k as int));
                        assert(triples_view(found3@).subrange(0, k + 1).last() == (
                        found3@[k as int].0@,
                        found3@[k as int].1@,
                        found3@[k as int].2@,
                        ));
                    }
                    let rel_chars = to_chars(found3[k].0.as_str());
                    let hit = contains_sub(&rel_chars, &dest);
                    let known = self.session.has_asset(found3[k].1.text.as_str());
                    if !hit && !known {
                        let ghost prev = queue@;
                        queue.push(
                            AssetRef {
                                relative_link: found3[k].0.clone(),
                                url: found3[k].1.duplicate(),
                                attribute: found3[k].2.clone(),
                            },
                        );
                        proof {
                            assert(asset_refs_view(queue@) =~= asset_refs_view(prev).push(
                                (found3@[k as int].0@, found3@[k as int].1@, found3@[k as int].2@),
                            ));
                        }
                    }
                    k = k + 1;
                }
                proof {
                    assert(triples_view(found3@).subrange(0, m as int) =~= triples_view(found3@));
                }
                self.assets = queue;
                self.asset_idx = 0;
                let ghost collected = if old(self).want_anchors {
                    refs_view(old(self).next_frontier@) + kept_anchors(
                        anchors_spec(html@, old(self).cur_url@.text),
                        old(self).dest_dir@,
                        old(self).session.processed_pages@,
                    )
                } else {
                    refs_view(old(self).next_frontier@)
                };
                proof {
                    assert(refs_view(self.next_frontier@) == collected);
                }
                if self.assets.len() > 0 {
                    self.phase = EnginePhase::AwaitAsset;
                    let url = self.assets[0].url.duplicate();
                    EngineStep {
                        notice: None,
                        action: EngineAction::FetchAsset { url, rule: self.rule.duplicate() },
                    }
                } else {
                    self.phase = EnginePhase::Advancing;
                    proof {
                        assert(advance_pre(*self) == (AdvanceFrom {
                            frontier: refs_view(old(self).frontier@),
                            cursor: old(self).cursor as int,
                            next: collected,
                            levels_left: old(self).levels_left,
                        }));
                    }
                    self.proceed()
                }
            },
        }
    }

    /// Handles one asset download of the current page.  A saved asset is
    /// recorded; a skipped one leaves no trace; a failed one ends the
    /// session when the error is always fatal or the rule says to abort,
    /// and is tolerated otherwise.
    pub fn on_asset_fetched(&mut self, outcome: FetchOutcome) -> (r: EngineStep)
        requires
            old(self).wf(),
            old(self).phase is AwaitAsset,
        ensures
            final(self).wf(),
            final(self).session_id == old(self).session_id,
            final(self).dest_dir == old(self).dest_dir,
            final(self).rule == old(self).rule,
            r.notice is None,
            match outcome {
                FetchOutcome::Failed(e) => if e.always_fatal() || old(self).rule.abort_on_download_error {
                    final(self).phase is Done && r.action == EngineAction::Finished(
                        Result::<(), WscError>::Err(e),
                    ) && final(self).session == old(self).session
                } else {
                    final(self).session == old(self).session && asset_step_taken(
                        *old(self),
                        *final(self),
                        r,
                    )
                },
                FetchOutcome::Skipped => final(self).session == old(self).session
                    && asset_step_taken(*old(self), *final(self), r),
                FetchOutcome::Saved(path) => asset_recorded(*old(self), *final(self), path)
                    && asset_step_taken(*old(self), *final(self), r),
            },
    {
        match outcome {
            FetchOutcome::Failed(e) => {
                let fatal = e.should_abort(self.rule.abort_on_download_error);
                if fatal {
                    self.phase = EnginePhase::Done;
                    EngineStep {
                        notice: None,
                        action: EngineAction::Finished(Result::<(), WscError>::Err(e)),
                    }
                } else {
                    self.next_asset()
                }
            },
            FetchOutcome::Skipped => self.next_asset(),
            FetchOutcome::Saved(path) => {
                let idx = self.asset_idx;
                let info = LinkInfo {
                    relative_link: self.assets[idx].relative_link.clone(),
                    file_path: path,
                    element_attribute: self.assets[idx].attribute.clone(),
                };
                let u = self.assets[idx].url.duplicate();
                self.session.record_asset(&u, info);
                proof {
                    let prev = old(self).session.processed_static_files@;
                    if self.session.processed_static_files@.len() == prev.len() + 1 {
                        assert(self.session.processed_static_files@.drop_last() =~= prev);
                    }
                }
                self.next_asset()
            },
        }
    }

    /// Moves to the next queued asset, or past this page when none is
    /// left.
    fn next_asset(&mut self) -> (r: EngineStep)
        requires
            old(self).wf(),
            old(self).phase is AwaitAsset,
        ensures
            final(self).wf(),
            final(self).session == old(self).session,
            final(self).session_id == old(self).session_id,
            final(self).dest_dir == old(self).dest_dir,
            final(self).rule == old(self).rule,
            r.notice is None,
            asset_step_taken(*old(self), *final(self), r),
    {
        let n: usize = self.assets.len();
        if self.asset_idx + 1 < n {
            self.asset_idx = self.asset_idx + 1;
            let url = self.assets[self.asset_idx].url.duplicate();
            EngineStep {
                notice: None,
                action: EngineAction::FetchAsset { url, rule: self.rule.duplicate() },
            }
        } else {
            self.phase = EnginePhase::Advancing;
            self.proceed()
        }
    }

    /// Handles a page's text in the rewrite pass: any read failure is
    /// fatal; otherwise the substitution is applied and the result is
    /// written back.
    pub fn on_page_loaded(&mut self, result: Result<String, String>) -> (r: EngineStep)
        requires
            old(self).wf(),
            old(self).phase is AwaitLoad,
        ensures
            final(self).wf(),
            final(self).session == old(self).session,
            final(self).rule == old(self).rule,
            match result {
                Err(message) => r.notice is None && final(self).phase is Done && (
                r.action matches EngineAction::Finished(
                    Err(WscError::FileOperationError { file_name, message: m }),
                ) && file_name@ == old(self).page_paths.deep_view()[old(self).rewrite_idx as int]
                    && m == message),
                Ok(text) => {
                    &&& r.notice is None
                    &&& final(self).phase is AwaitStore
                    &&& final(self).rewrite_idx == old(self).rewrite_idx
                    &&& final(self).page_paths == old(self).page_paths
                    &&& (r.action matches EngineAction::StorePage { path, content } && path@
                        == old(self).page_paths.deep_view()[old(self).rewrite_idx as int]
                        && content@ == rewrite_spec(
                        text@,
                        old(self).patterns.deep_view(),
                        old(self).replacements.deep_view(),
                    ))
                },
            },
    {
        match result {
            Err(message) => {
                self.phase = EnginePhase::Done;
                EngineStep {
                    notice: None,
                    action: EngineAction::Finished(
                        Err(
                            WscError::FileOperationError {
                                file_name: self.page_paths[self.rewrite_idx].clone(),
                                message,
                            },
                        ),
                    ),
                }
            },
            Ok(text) => {
                let tv = to_chars(text.as_str());
                let rewritten = rewrite_all(&tv, &self.patterns, &self.replacements);
                let content = chars_to_string(&rewritten);
                let path = self.page_paths[self.rewrite_idx].clone();
                self.phase = EnginePhase::AwaitStore;
                EngineStep { notice: None, action: EngineAction::StorePage { path, content } }
            },
        }
    }

    /// Handles a rewritten page's write-back: any failure is fatal; the
    /// pass moves to the next recorded page and the session ends cleanly
    /// after the last one.
    pub fn on_page_stored(&mut self, result: Result<(), String>) -> (r: EngineStep)
        requires
            old(self).wf(),
            old(self).phase is AwaitStore,
        ensures
            final(self).wf(),
            final(self).session == old(self).session,
            final(self).rule == old(self).rule,
            r.notice is None,
            match result {
                Err(message) => final(self).phase is Done && (
                r.action matches EngineAction::Finished(
                    Err(WscError::FileOperationError { file_name, message: m }),
                ) && file_name@ == old(self).page_paths.deep_view()[old(self).rewrite_idx as int]
                    && m == message),
                Ok(u) => if old(self).rewrite_idx + 1 < old(self).page_paths@.len() {
                    final(self).phase is AwaitLoad && final(self).rewrite_idx == old(self).rewrite_idx + 1 && final(self).page_paths == old(self).page_paths && (
                    r.action matches EngineAction::LoadPage { path } && path@ == old(self).page_paths.deep_view()[old(self).rewrite_idx + 1])
                } else {
                    final(self).phase is Done && r.action == EngineAction::Finished(
                        Result::<(), WscError>::Ok(()),
                    )
                },
            },
    {
        match result {
            Err(message) => {
                self.phase = EnginePhase::Done;
                EngineStep {
                    notice: None,
                    action: EngineAction::Finished(
                        Err(
                            WscError::FileOperationError {
                                file_name: self.page_paths[self.rewrite_idx].clone(),
                                message,
                            },
                        ),
                    ),
                }
            },
            Ok(_) => {
                let n: usize = self.page_paths.len();
                if self.rewrite_idx + 1 < n {
                    self.rewrite_idx = self.rewrite_idx + 1;
                    let path = self.page_paths[self.rewrite_idx].clone();
                    self.phase = EnginePhase::AwaitLoad;
                    EngineStep { notice: None, action: EngineAction::LoadPage { path } }
                } else {
                    self.phase = EnginePhase::Done;
                    EngineStep {
                        notice: None,
                        action: EngineAction::Finished(Result::<(), WscError>::Ok(())),
                    }
                }
            },
        }
    }
}

} // verus!
