//! Link extraction from saved HTML.
//!
//! The CSS selection itself — parsing the document and picking elements —
//! is done by the `scraper` crate behind one trusted wrapper whose result
//! is a function of the document, selector and attribute texts alone.  The
//! filtering, resolution against the page URL and deduplication on top are
//! verified.
use vstd::prelude::*;

use crate::text::to_chars;
use crate::text::chars_eq_str;
use crate::naming::has_char;
use crate::naming::contains_char;
use crate::urls::WebUrl;
use crate::urls::WebUrlV;
use crate::urls::resolve_spec;
use crate::urls::get_full_link;

verus! {

/// The attribute values, in document order, of the elements of `html`
/// that the CSS selector `selector` picks; nothing when the selector text
/// is invalid.  A function of the three strings alone.
pub uninterp spec fn html_select(html: Seq<char>, selector: Seq<char>, attr: Seq<char>) -> Option<
    Seq<Seq<char>>,
>;

/// Relies on `scraper`: `Selector::parse`, `Html::parse_document` and
/// `Html::select` yield the matched elements in document order, and
/// `Element::attr` their attribute values; all determined by the inputs.
#[verifier::external_body]
fn select_attr(html: &str, selector: &str, attr: &str) -> (r: Option<Vec<String>>)
    ensures
        match r {
            Some(v) => html_select(html@, selector@, attr@) == Some(v.deep_view()),
            None => html_select(html@, selector@, attr@) is None,
        },
{
    let sel = match scraper::Selector::parse(selector) {
        Ok(s) => s,
        Err(_) => return None,
    };
    let doc = scraper::Html::parse_document(html);
    Some(doc.select(&sel).filter_map(|el| el.value().attr(attr)).map(String::from).collect())
}

/// `s` with later repetitions of earlier elements dropped.
pub open spec fn dedup_seq<T>(s: Seq<T>) -> Seq<T>
    decreases s.len(),
{
    if s.len() == 0 {
        s
    } else {
        let prefix = dedup_seq(s.drop_last());
        if s.drop_last().contains(s.last()) {
            prefix
        } else {
            prefix.push(s.last())
        }
    }
}

/// Deduplication keeps exactly the members.
pub proof fn lemma_dedup_contains<T>(s: Seq<T>, x: T)
    ensures
        dedup_seq(s).contains(x) == s.contains(x),
    decreases s.len(),
{
    if s.len() > 0 {
        lemma_dedup_contains(s.drop_last(), x);
        if s.last() == x {
            if s.drop_last().contains(x) {
            } else {
                assert(dedup_seq(s) == dedup_seq(s.drop_last()).push(x));
                assert(dedup_seq(s).contains(x)) by {
                    assert(dedup_seq(s).last() == x);
                }
            }
            assert(s.contains(x)) by {
                assert(s.last() == x);
            }
        } else {
            assert(s.drop_last().contains(x) == s.contains(x)) by {
                if s.contains(x) {
                    let i = choose|i: int| 0 <= i < s.len() && s[i] == x;
                    assert(i < s.len() - 1);
                    assert(s.drop_last()[i] == x);
                }
            }
            if !s.drop_last().contains(s.last()) {
                assert(dedup_seq(s).contains(x) == dedup_seq(s.drop_last()).contains(x)) by {
                    let d = dedup_seq(s.drop_last());
                    if d.contains(x) {
                        let i = choose|i: int| 0 <= i < d.len() && d[i] == x;
                        assert(d.push(s.last())[i] == x);
                    } else {
                        if d.push(s.last()).contains(x) {
                            let i = choose|i: int|
                                0 <= i < d.len() + 1 && d.push(s.last())[i] == x;
                            assert(i == d.len());
                            assert(false);
                        }
                    }
                }
            }
        }
    }
}

/// An anchor's raw value is kept when it is non-empty and fragment-free.
pub open spec fn anchor_keep(v: Seq<char>) -> bool {
    v.len() > 0 && !has_char(v, '#')
}

/// The kept anchors among `vals`, each paired with its resolved URL, in
/// order of appearance.
pub open spec fn resolved_anchors(vals: Seq<Seq<char>>, base: Seq<char>) -> Seq<
    (Seq<char>, WebUrlV),
>
    decreases vals.len(),
{
    if vals.len() == 0 {
        Seq::empty()
    } else {
        let rest = resolved_anchors(vals.drop_last(), base);
        let v = vals.last();
        if anchor_keep(v) {
            match resolve_spec(v, base) {
                Some(u) => rest.push((v, u)),
                None => rest,
            }
        } else {
            rest
        }
    }
}

/// What anchor extraction yields for a document: the `href` values of the
/// anchor elements that are not downloads, placeholders or fragment links,
/// resolved against the page URL and deduplicated.
pub open spec fn anchors_spec(html: Seq<char>, base: Seq<char>) -> Seq<(Seq<char>, WebUrlV)> {
    match html_select(
        html,
        "a[href]:not([download]):not([href=\"javascript:void(0)\"]):not([href*=\"#\"])"@,
        "href"@,
    ) {
        None => Seq::empty(),
        Some(vals) => dedup_seq(resolved_anchors(vals, base)),
    }
}

/// The view of an extracted anchor list.
pub open spec fn pairs_view(s: Seq<(String, WebUrl)>) -> Seq<(Seq<char>, WebUrlV)> {
    Seq::new(s.len(), |i: int| (s[i].0@, s[i].1@))
}

/// Whether two URL values are equal.
pub fn weburl_eq(a: &WebUrl, b: &WebUrl) -> (r: bool)
    ensures
        r == (a@ == b@),
{
    let texts_eq: bool = a.text.eq(&b.text);
    if !texts_eq {
        return false;
    }
    match &a.host {
        Some(ha) => match &b.host {
            Some(hb) => {
                let r: bool = ha.eq(hb);
                assert(a@.host == Some(ha@) && b@.host == Some(hb@));
                r
            },
            None => {
                assert(a@.host is Some && b@.host is None);
                false
            },
        },
        None => match &b.host {
            Some(hb) => {
                assert(a@.host is None && b@.host is Some);
                false
            },
            None => true,
        },
    }
}

/// Gets all valid anchor links of a page: each pair holds the link text
/// found in the page and that link resolved against the page's URL.
pub fn get_anchor_links(html: &str, page_url: &WebUrl) -> (r: Vec<(String, WebUrl)>)
    ensures
        pairs_view(r@) == anchors_spec(html@, page_url@.text),
{
    let vals = select_attr(
        html,
        "a[href]:not([download]):not([href=\"javascript:void(0)\"]):not([href*=\"#\"])",
        "href",
    );
    let mut out: Vec<(String, WebUrl)> = Vec::new();
    match vals {
        None => {
            assert(pairs_view(out@) =~= anchors_spec(html@, page_url@.text));
            out
        },
        Some(list) => {
            let n: usize = list.len();
            let mut i: usize = 0;
            while i < n
                invariant
                    n == list@.len(),
                    i <= n,
                    list.deep_view().len() == n,
                    forall|j: int| 0 <= j < n ==> list.deep_view()[j] == list@[j]@,
                    pairs_view(out@) =~= dedup_seq(
                        resolved_anchors(list.deep_view().subrange(0, i as int), page_url@.text),
                    ),
                decreases n - i,
            {
                let v = to_chars(list[i].as_str());
                proof {
                    assert(list.deep_view().subrange(0, i + 1).drop_last() =~= list.deep_view()
                        .subrange(0, i as int));
                    assert(list.deep_view().subrange(0, i + 1).last() == v@);
                }
                if v.len() > 0 && !contains_char(&v, '#') {
                    match get_full_link(list[i].as_str(), page_url) {
                        Some(u) => {
                            push_dedup(&mut out, list[i].clone(), u);
                            proof {
                                let prefix = resolved_anchors(
                                    list.deep_view().subrange(0, i as int),
                                    page_url@.text,
                                );
                                assert(resolved_anchors(
                                    list.deep_view().subrange(0, i + 1),
                                    page_url@.text,
                                ) == prefix.push((v@, u@)));
                                lemma_dedup_contains(prefix, (v@, u@));
                                assert(prefix.push((v@, u@)).drop_last() =~= prefix);
                            }
                        },
                        None => {
                            assert(resolved_anchors(
                                list.deep_view().subrange(0, i + 1),
                                page_url@.text,
                            ) == resolved_anchors(
                                list.deep_view().subrange(0, i as int),
                                page_url@.text,
                            ));
                        },
                    }
                } else {
                    assert(resolved_anchors(list.deep_view().subrange(0, i + 1), page_url@.text)
                        == resolved_anchors(
                        list.deep_view().subrange(0, i as int),
                        page_url@.text,
                    ));
                }
                i = i + 1;
            }
            proof {
                assert(list.deep_view().subrange(0, n as int) =~= list.deep_view());
            }
            out
        },
    }
}

/// Appends a pair unless an equal pair is already present; the store then
/// mirrors `dedup_seq` of the resolved list.
fn push_dedup(out: &mut Vec<(String, WebUrl)>, rel: String, url: WebUrl)
    ensures
        final(out)@ == if pairs_view(old(out)@).contains((rel@, url@)) {
            old(out)@
        } else {
            old(out)@.push((rel, url))
        },
        pairs_view(final(out)@) == if pairs_view(old(out)@).contains((rel@, url@)) {
            pairs_view(old(out)@)
        } else {
            pairs_view(old(out)@).push((rel@, url@))
        },
{
    let n: usize = out.len();
    let rv = to_chars(rel.as_str());
    let mut i: usize = 0;
    while i < n
        invariant
            n == out@.len(),
            rv@ == rel@,
            forall|j: int| 0 <= j < i ==> pairs_view(out@)[j] != (rel@, url@),
        decreases n - i,
    {
        let same_rel = chars_eq_str(&rv, out[i].0.as_str());
        if same_rel && weburl_eq(&out[i].1, &url) {
            assert(pairs_view(out@)[i as int] == (rel@, url@));
            assert(pairs_view(out@).contains((rel@, url@)));
            return;
        }
        assert(pairs_view(out@)[i as int] != (rel@, url@));
        i = i + 1;
    }
    assert(!pairs_view(out@).contains((rel@, url@))) by {
        if pairs_view(out@).contains((rel@, url@)) {
            let j = choose|j: int|
                0 <= j < pairs_view(out@).len() && pairs_view(out@)[j] == (rel@, url@);
            assert(false);
        }
    }
    let ghost prev = out@;
    out.push((rel, url));
    assert(pairs_view(out@) =~= pairs_view(prev).push((rel@, url@)));
}

/// The resolvable values among `vals`, as `(value, url, attribute)`
/// triples in order of appearance.
pub open spec fn resolved_assets(vals: Seq<Seq<char>>, base: Seq<char>, attr: Seq<char>) -> Seq<
    (Seq<char>, WebUrlV, Seq<char>),
>
    decreases vals.len(),
{
    if vals.len() == 0 {
        Seq::empty()
    } else {
        let rest = resolved_assets(vals.drop_last(), base, attr);
        match resolve_spec(vals.last(), base) {
            Some(u) => rest.push((vals.last(), u, attr)),
            None => rest,
        }
    }
}

/// The values of one select pass, or nothing for an invalid selector.
pub open spec fn select_vals(html: Seq<char>, selector: Seq<char>, attr: Seq<char>) -> Seq<
    Seq<char>,
> {
    match html_select(html, selector, attr) {
        None => Seq::empty(),
        Some(v) => v,
    }
}

/// What asset extraction yields for a document: stylesheet links by their
/// `href`, script and image sources by their `src` (images except `data:`
/// and `blob:` values), each resolved against the page URL, deduplicated.
pub open spec fn assets_spec(html: Seq<char>, base: Seq<char>) -> Seq<
    (Seq<char>, WebUrlV, Seq<char>),
> {
    dedup_seq(
        resolved_assets(select_vals(html, "link[href][rel=\"stylesheet\"]"@, "href"@), base, "href"@)
            + resolved_assets(select_vals(html, "script[src]"@, "src"@), base, "src"@)
            + resolved_assets(
            select_vals(html, "img[src]:not([src^=\"data\"]):not([src^=\"blob\"])"@, "src"@),
            base,
            "src"@,
        ),
    )
}

/// The view of an extracted asset list.
pub open spec fn triples_view(s: Seq<(String, WebUrl, String)>) -> Seq<
    (Seq<char>, WebUrlV, Seq<char>),
> {
    Seq::new(s.len(), |i: int| (s[i].0@, s[i].1@, s[i].2@))
}

/// Appends a triple unless an equal one is already present.
fn push_dedup3(out: &mut Vec<(String, WebUrl, String)>, rel: String, url: WebUrl, attr: String)
    ensures
        triples_view(final(out)@) == if triples_view(old(out)@).contains((rel@, url@, attr@)) {
            triples_view(old(out)@)
        } else {
            triples_view(old(out)@).push((rel@, url@, attr@))
        },
{
    let n: usize = out.len();
    let rv = to_chars(rel.as_str());
    let av = to_chars(attr.as_str());
    let mut i: usize = 0;
    while i < n
        invariant
            n == out@.len(),
            rv@ == rel@,
            av@ == attr@,
            forall|j: int| 0 <= j < i ==> triples_view(out@)[j] != (rel@, url@, attr@),
        decreases n - i,
    {
        let same_rel = chars_eq_str(&rv, out[i].0.as_str());
        let same_attr = chars_eq_str(&av, out[i].2.as_str());
        if same_rel && same_attr && weburl_eq(&out[i].1, &url) {
            assert(triples_view(out@)[i as int] == (rel@, url@, attr@));
            assert(triples_view(out@).contains((rel@, url@, attr@)));
            return;
        }
        assert(triples_view(out@)[i as int] != (rel@, url@, attr@));
        i = i + 1;
    }
    assert(!triples_view(out@).contains((rel@, url@, attr@))) by {
        if triples_view(out@).contains((rel@, url@, attr@)) {
            let j = choose|j: int|
                0 <= j < triples_view(out@).len() && triples_view(out@)[j] == (rel@, url@, attr@);
            assert(false);
        }
    }
    let ghost prev = out@;
    out.push((rel, url, attr));
    assert(triples_view(out@) =~= triples_view(prev).push((rel@, url@, attr@)));
}

/// Adds one select pass's resolvable values to the asset list, keeping it
/// a deduplication of everything gathered so far.
fn collect_assets(
    out: &mut Vec<(String, WebUrl, String)>,
    list: &Vec<String>,
    attr: &str,
    page_url: &WebUrl,
    Ghost(done): Ghost<Seq<(Seq<char>, WebUrlV, Seq<char>)>>,
)
    requires
        triples_view(old(out)@) == dedup_seq(done),
    ensures
        triples_view(final(out)@) == dedup_seq(
            done + resolved_assets(list.deep_view(), page_url@.text, attr@),
        ),
{
    let n: usize = list.len();
    let mut i: usize = 0;
    while i < n
        invariant
            n == list@.len(),
            list.deep_view().len() == n,
            i <= n,
            forall|j: int| 0 <= j < n ==> list.deep_view()[j] == list@[j]@,
            triples_view(out@) == dedup_seq(
                done + resolved_assets(
                    list.deep_view().subrange(0, i as int),
                    page_url@.text,
                    attr@,
                ),
            ),
        decreases n - i,
    {
        let ghost prefix = done + resolved_assets(
            list.deep_view().subrange(0, i as int),
            page_url@.text,
            attr@,
        );
        proof {
            assert(list.deep_view().subrange(0, i + 1).drop_last() =~= list.deep_view().subrange(
                0,
                i as int,
            ));
            assert(list.deep_view().subrange(0, i + 1).last() == list@[i as int]@);
        }
        match get_full_link(list[i].as_str(), page_url) {
            Some(u) => {
                let attr_s = attr_string(attr);
                push_dedup3(out, list[i].clone(), u, attr_s);
                proof {
                    assert(done + resolved_assets(
                        list.deep_view().subrange(0, i + 1),
                        page_url@.text,
                        attr@,
                    ) =~= prefix.push((list@[i as int]@, u@, attr@)));
                    lemma_dedup_contains(prefix, (list@[i as int]@, u@, attr@));
                    assert(prefix.push((list@[i as int]@, u@, attr@)).drop_last() =~= prefix);
                }
            },
            None => {
                assert(done + resolved_assets(
                    list.deep_view().subrange(0, i + 1),
                    page_url@.text,
                    attr@,
                ) =~= prefix);
            },
        }
        i = i + 1;
    }
    proof {
        assert(list.deep_view().subrange(0, n as int) =~= list.deep_view());
    }
}

/// An owned copy of an attribute name.
fn attr_string(attr: &str) -> (r: String)
    ensures
        r@ == attr@,
{
    attr.to_owned()
}

/// Gets all static web resource links of a page: stylesheets, scripts and
/// images, each as `(link text, resolved URL, attribute name)`.
pub fn get_static_resource_links(html: &str, page_url: &WebUrl) -> (r: Vec<
    (String, WebUrl, String),
>)
    ensures
        triples_view(r@) == assets_spec(html@, page_url@.text),
{
    let mut out: Vec<(String, WebUrl, String)> = Vec::new();
    let ghost base = page_url@.text;
    let ghost css = resolved_assets(
        select_vals(html@, "link[href][rel=\"stylesheet\"]"@, "href"@),
        base,
        "href"@,
    );
    let ghost js = resolved_assets(select_vals(html@, "script[src]"@, "src"@), base, "src"@);
    assert(triples_view(out@) =~= dedup_seq(Seq::empty()));
    match select_attr(html, "link[href][rel=\"stylesheet\"]", "href") {
        Some(list) => {
            proof {
                assert(Seq::empty() + resolved_assets(list.deep_view(), base, "href"@) =~= css);
            }
            collect_assets(&mut out, &list, "href", page_url, Ghost(Seq::empty()));
        },
        None => {
            assert(css =~= Seq::<(Seq<char>, WebUrlV, Seq<char>)>::empty());
            assert(triples_view(out@) == dedup_seq(css));
        },
    }
    match select_attr(html, "script[src]", "src") {
        Some(list) => {
            proof {
                assert(resolved_assets(list.deep_view(), base, "src"@) =~= js);
            }
            collect_assets(&mut out, &list, "src", page_url, Ghost(css));
        },
        None => {
            assert(js =~= Seq::<(Seq<char>, WebUrlV, Seq<char>)>::empty());
            assert(css + js =~= css);
        },
    }
    match select_attr(html, "img[src]:not([src^=\"data\"]):not([src^=\"blob\"])", "src") {
        Some(list) => {
            collect_assets(&mut out, &list, "src", page_url, Ghost(css + js));
        },
        None => {
            let ghost img = resolved_assets(
                select_vals(html@, "img[src]:not([src^=\"data\"]):not([src^=\"blob\"])"@, "src"@),
                base,
                "src"@,
            );
            assert(img =~= Seq::<(Seq<char>, WebUrlV, Seq<char>)>::empty());
            assert(css + js + img =~= css + js);
        },
    }
    out
}

} // verus!
