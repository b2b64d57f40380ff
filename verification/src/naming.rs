//! File-name derivation for downloaded resources.
//!
//! A resource's local file name comes from its URL path, or failing that
//! from the `Content-Disposition` header, or is synthesized from a time
//! stamp and an extension taken from a fixed MIME table.  Everything here
//! is plain text manipulation, verified against recursive spec functions.
use vstd::prelude::*;

use crate::text::contains_seq;
use crate::text::lower_seq;
use crate::text::matches_at;
use crate::text::to_chars;
use crate::text::sub_chars;
use crate::text::append_chars;
use crate::text::match_at;
use crate::text::find_char;
use crate::text::rfind_char;
use crate::text::find_sub_from;
use crate::text::contains_sub;
use crate::text::chars_eq_str;
use crate::text::lower_ascii;

verus! {

/// The prefix of `s` before the first occurrence of `c`; all of `s` when
/// `c` does not occur.
pub open spec fn before_char_first(s: Seq<char>, c: char) -> Seq<char>
    decreases s.len(),
{
    if s.len() == 0 {
        s
    } else if s[0] == c {
        Seq::empty()
    } else {
        seq![s[0]] + before_char_first(s.drop_first(), c)
    }
}

/// The prefix of `s` before the last occurrence of `c`; all of `s` when
/// `c` does not occur.
pub open spec fn before_char_last(s: Seq<char>, c: char) -> Seq<char>
    decreases s.len(),
{
    if s.len() == 0 {
        s
    } else if s.last() == c {
        s.drop_last()
    } else {
        before_char_last(s.drop_last(), c)
    }
}

/// The suffix of `s` after the last occurrence of `c`; all of `s` when `c`
/// does not occur.
pub open spec fn after_char_last(s: Seq<char>, c: char) -> Seq<char>
    decreases s.len(),
{
    if s.len() == 0 {
        s
    } else if s.last() == c {
        Seq::empty()
    } else {
        after_char_last(s.drop_last(), c) + seq![s.last()]
    }
}

/// The suffix of `s` that starts at the first occurrence of `p`; empty
/// when `p` does not occur.
pub open spec fn tail_from_first(s: Seq<char>, p: Seq<char>) -> Seq<char>
    decreases s.len(),
{
    if matches_at(s, p, 0) {
        s
    } else if s.len() == 0 {
        s
    } else {
        tail_from_first(s.drop_first(), p)
    }
}

/// `s` with every occurrence of `p` removed, scanning left to right
/// without revisiting what was kept.
pub open spec fn remove_all(s: Seq<char>, p: Seq<char>) -> Seq<char>
    decreases s.len(),
{
    if p.len() == 0 || s.len() < p.len() {
        s
    } else if s.subrange(0, p.len() as int) == p {
        remove_all(s.skip(p.len() as int), p)
    } else {
        seq![s[0]] + remove_all(s.drop_first(), p)
    }
}

/// `s` with its first `n` occurrences of the character `c` removed.
pub open spec fn remove_first_n(s: Seq<char>, c: char, n: nat) -> Seq<char>
    decreases s.len(),
{
    if n == 0 || s.len() == 0 {
        s
    } else if s[0] == c {
        remove_first_n(s.drop_first(), c, (n - 1) as nat)
    } else {
        seq![s[0]] + remove_first_n(s.drop_first(), c, n)
    }
}

/// `s` without one leading and one trailing double quote, when it has both.
pub open spec fn strip_quotes_spec(s: Seq<char>) -> Seq<char> {
    if s.len() >= 2 && s[0] == '"' && s.last() == '"' {
        s.subrange(1, s.len() - 1)
    } else {
        s
    }
}

proof fn lemma_before_char_first(s: Seq<char>, c: char, i: int)
    requires
        0 <= i <= s.len(),
        forall|j: int| 0 <= j < i ==> s[j] != c,
        i == s.len() || s[i] == c,
    ensures
        before_char_first(s, c) == s.subrange(0, i),
    decreases i,
{
    if i == 0 {
        assert(before_char_first(s, c) =~= s.subrange(0, 0));
    } else {
        lemma_before_char_first(s.drop_first(), c, i - 1);
        assert(s.drop_first().subrange(0, i - 1) =~= s.subrange(1, i));
        assert(seq![s[0]] + s.subrange(1, i) =~= s.subrange(0, i));
    }
}

proof fn lemma_before_char_last(s: Seq<char>, c: char, i: int)
    requires
        0 <= i < s.len(),
        s[i] == c,
        forall|j: int| i < j < s.len() ==> s[j] != c,
    ensures
        before_char_last(s, c) == s.subrange(0, i),
    decreases s.len(),
{
    if i == s.len() - 1 {
        assert(s.drop_last() =~= s.subrange(0, i));
    } else {
        assert(s.last() != c);
        lemma_before_char_last(s.drop_last(), c, i);
        assert(s.drop_last().subrange(0, i) =~= s.subrange(0, i));
    }
}

proof fn lemma_after_char_last(s: Seq<char>, c: char, i: int)
    requires
        -1 <= i < s.len(),
        i >= 0 ==> s[i] == c,
        forall|j: int| i < j < s.len() ==> s[j] != c,
    ensures
        after_char_last(s, c) == s.subrange(i + 1, s.len() as int),
    decreases s.len(),
{
    if s.len() == 0 {
        assert(after_char_last(s, c) =~= s.subrange(i + 1, s.len() as int));
    } else if i == s.len() - 1 {
        assert(after_char_last(s, c) =~= s.subrange(i + 1, s.len() as int));
    } else {
        assert(s.last() != c);
        lemma_after_char_last(s.drop_last(), c, i);
        assert(s.drop_last().subrange(i + 1, s.len() - 1) + seq![s.last()] =~= s.subrange(
            i + 1,
            s.len() as int,
        ));
    }
}

proof fn lemma_matches_shift(s: Seq<char>, p: Seq<char>, j: int)
    requires
        s.len() > 0,
        j >= 0,
    ensures
        matches_at(s.drop_first(), p, j) == matches_at(s, p, j + 1),
{
    if j + 1 + p.len() <= s.len() {
        assert(s.drop_first().subrange(j, j + p.len()) =~= s.subrange(j + 1, j + 1 + p.len()));
    }
}

proof fn lemma_tail_from_first(s: Seq<char>, p: Seq<char>, i: int)
    requires
        0 <= i <= s.len(),
        matches_at(s, p, i),
        forall|j: int| 0 <= j < i ==> !matches_at(s, p, j),
    ensures
        tail_from_first(s, p) == s.skip(i),
    decreases i,
{
    if i == 0 {
        assert(tail_from_first(s, p) =~= s.skip(0));
    } else {
        assert(!matches_at(s, p, 0));
        assert(s.len() > 0);
        lemma_matches_shift(s, p, i - 1);
        assert forall|j: int| 0 <= j < i - 1 implies !matches_at(s.drop_first(), p, j) by {
            lemma_matches_shift(s, p, j);
        }
        lemma_tail_from_first(s.drop_first(), p, i - 1);
        assert(s.drop_first().skip(i - 1) =~= s.skip(i));
    }
}

/// The prefix of `v` before the first occurrence of `c`.
pub fn cut_before_first(v: &Vec<char>, c: char) -> (r: Vec<char>)
    ensures
        r@ == before_char_first(v@, c),
{
    match find_char(v, c) {
        Some(i) => {
            proof { lemma_before_char_first(v@, c, i as int); }
            sub_chars(v, 0, i)
        },
        None => {
            proof { lemma_before_char_first(v@, c, v@.len() as int); }
            let r = sub_chars(v, 0, v.len());
            assert(v@.subrange(0, v@.len() as int) =~= v@);
            r
        },
    }
}

/// The prefix of `v` before the last occurrence of `c`.
pub fn cut_before_last(v: &Vec<char>, c: char) -> (r: Vec<char>)
    ensures
        r@ == before_char_last(v@, c),
{
    match rfind_char(v, c) {
        Some(i) => {
            proof { lemma_before_char_last(v@, c, i as int); }
            sub_chars(v, 0, i)
        },
        None => {
            proof {
                lemma_no_char_before_last(v@, c);
            }
            Vec::new()
        },
    }
}

proof fn lemma_no_char_before_last(s: Seq<char>, c: char)
    requires
        forall|j: int| 0 <= j < s.len() ==> s[j] != c,
    ensures
        before_char_last(s, c) == Seq::<char>::empty(),
    decreases s.len(),
{
    if s.len() == 0 {
        assert(before_char_last(s, c) =~= Seq::<char>::empty());
    } else {
        lemma_no_char_before_last(s.drop_last(), c);
    }
}

/// The suffix of `v` after the last occurrence of `c`.
pub fn cut_after_last(v: &Vec<char>, c: char) -> (r: Vec<char>)
    ensures
        r@ == after_char_last(v@, c),
{
    match rfind_char(v, c) {
        Some(i) => {
            proof { lemma_after_char_last(v@, c, i as int); }
            let n: usize = v.len();
            assert(i < n);
            sub_chars(v, i + 1, n)
        },
        None => {
            proof { lemma_after_char_last(v@, c, -1); }
            let r = sub_chars(v, 0, v.len());
            assert(v@.subrange(0, v@.len() as int) =~= v@);
            r
        },
    }
}

/// The suffix of `v` from the first occurrence of `p` on; empty when `p`
/// does not occur.
pub fn tail_from(v: &Vec<char>, p: &Vec<char>) -> (r: Vec<char>)
    ensures
        r@ == tail_from_first(v@, p@),
{
    match find_sub_from(v, p, 0) {
        Some(i) => {
            proof { lemma_tail_from_first(v@, p@, i as int); }
            let r = sub_chars(v, i, v.len());
            assert(v@.subrange(i as int, v@.len() as int) =~= v@.skip(i as int));
            r
        },
        None => {
            proof { lemma_tail_from_first_none(v@, p@); }
            Vec::new()
        },
    }
}

proof fn lemma_tail_from_first_none(s: Seq<char>, p: Seq<char>)
    requires
        forall|j: int| 0 <= j ==> !matches_at(s, p, j),
    ensures
        tail_from_first(s, p) == Seq::<char>::empty(),
    decreases s.len(),
{
    if s.len() == 0 {
        assert(tail_from_first(s, p) =~= Seq::<char>::empty());
    } else {
        assert forall|j: int| 0 <= j implies !matches_at(s.drop_first(), p, j) by {
            lemma_matches_shift(s, p, j);
        }
        lemma_tail_from_first_none(s.drop_first(), p);
    }
}

/// `v` with every occurrence of `p` removed.
pub fn remove_all_chars(v: &Vec<char>, p: &Vec<char>) -> (r: Vec<char>)
    ensures
        r@ == remove_all(v@, p@),
    decreases v@.len(),
{
    if p.len() == 0 || v.len() < p.len() {
        return sub_all(v);
    }
    if match_at(v, p, 0) {
        let rest = sub_chars(v, p.len(), v.len());
        assert(rest@ =~= v@.skip(p@.len() as int));
        remove_all_chars(&rest, p)
    } else {
        let rest = sub_chars(v, 1, v.len());
        assert(rest@ =~= v@.drop_first());
        let mut r: Vec<char> = Vec::new();
        r.push(v[0]);
        let tail = remove_all_chars(&rest, p);
        append_chars(&mut r, &tail);
        assert(r@ =~= seq![v@[0]] + remove_all(v@.drop_first(), p@));
        r
    }
}

/// `v` with its first `n` double quotes removed.
pub fn remove_first_n_chars(v: &Vec<char>, c: char, n: usize) -> (r: Vec<char>)
    ensures
        r@ == remove_first_n(v@, c, n as nat),
    decreases v@.len(),
{
    if n == 0 || v.len() == 0 {
        return sub_all(v);
    }
    let rest = sub_chars(v, 1, v.len());
    assert(rest@ =~= v@.drop_first());
    if v[0] == c {
        remove_first_n_chars(&rest, c, n - 1)
    } else {
        let mut r: Vec<char> = Vec::new();
        r.push(v[0]);
        let tail = remove_first_n_chars(&rest, c, n);
        append_chars(&mut r, &tail);
        assert(r@ =~= seq![v@[0]] + remove_first_n(v@.drop_first(), c, n as nat));
        r
    }
}

/// `v` without one leading and one trailing double quote, when it has both.
pub fn strip_quotes(v: &Vec<char>) -> (r: Vec<char>)
    ensures
        r@ == strip_quotes_spec(v@),
{
    if v.len() >= 2 && v[0] == '"' && v[v.len() - 1] == '"' {
        sub_chars(v, 1, v.len() - 1)
    } else {
        sub_all(v)
    }
}

/// A fresh copy of `v`.
fn sub_all(v: &Vec<char>) -> (r: Vec<char>)
    ensures
        r@ == v@,
{
    let r = sub_chars(v, 0, v.len());
    assert(v@.subrange(0, v@.len() as int) =~= v@);
    r
}

/// Does the character `c` occur in `s`?
pub open spec fn has_char(s: Seq<char>, c: char) -> bool {
    exists|j: int| 0 <= j < s.len() && s[j] == c
}

/// Whether `c` occurs in `v`.
pub fn contains_char(v: &Vec<char>, c: char) -> (r: bool)
    ensures
        r == has_char(v@, c),
{
    match find_char(v, c) {
        Some(i) => {
            assert(has_char(v@, c));
            true
        },
        None => {
            assert(!has_char(v@, c));
            false
        },
    }
}

/// The file extension that the fixed MIME table assigns to a media type,
/// or nothing when the type is not in the table.
pub open spec fn mime_ext(m: Seq<char>) -> Seq<char> {
    if m == "text/html"@ {
        ".html"@
    } else if m == "image/jpeg"@ {
        ".jpg"@
    } else if m == "text/javascript"@ {
        ".js"@
    } else if m == "application/javascript"@ {
        ".js"@
    } else if m == "application/json"@ {
        ".json"@
    } else if m == "audio/mpeg"@ {
        ".mp3"@
    } else if m == "video/mp4"@ {
        ".mp4"@
    } else if m == "video/mpeg"@ {
        ".mpeg"@
    } else if m == "audio/ogg"@ {
        ".oga"@
    } else if m == "video/ogg"@ {
        ".ogv"@
    } else if m == "font/otf"@ {
        ".otf"@
    } else if m == "image/png"@ {
        ".png"@
    } else if m == "application/pdf"@ {
        ".pdf"@
    } else if m == "application/vnd.ms-powerpoint"@ {
        ".ppt"@
    } else if m == "application/xhtml+xml"@ {
        ".xhtml"@
    } else if m == "text/css"@ {
        ".css"@
    } else if m == "image/gif"@ {
        ".gif"@
    } else {
        Seq::empty()
    }
}

/// The MIME table as an executable lookup.
pub fn mime_lookup(m: &Vec<char>) -> (r: Vec<char>)
    ensures
        r@ == mime_ext(m@),
{
    if chars_eq_str(m, "text/html") {
        to_chars(".html")
    } else if chars_eq_str(m, "image/jpeg") {
        to_chars(".jpg")
    } else if chars_eq_str(m, "text/javascript") {
        to_chars(".js")
    } else if chars_eq_str(m, "application/javascript") {
        to_chars(".js")
    } else if chars_eq_str(m, "application/json") {
        to_chars(".json")
    } else if chars_eq_str(m, "audio/mpeg") {
        to_chars(".mp3")
    } else if chars_eq_str(m, "video/mp4") {
        to_chars(".mp4")
    } else if chars_eq_str(m, "video/mpeg") {
        to_chars(".mpeg")
    } else if chars_eq_str(m, "audio/ogg") {
        to_chars(".oga")
    } else if chars_eq_str(m, "video/ogg") {
        to_chars(".ogv")
    } else if chars_eq_str(m, "font/otf") {
        to_chars(".otf")
    } else if chars_eq_str(m, "image/png") {
        to_chars(".png")
    } else if chars_eq_str(m, "application/pdf") {
        to_chars(".pdf")
    } else if chars_eq_str(m, "application/vnd.ms-powerpoint") {
        to_chars(".ppt")
    } else if chars_eq_str(m, "application/xhtml+xml") {
        to_chars(".xhtml")
    } else if chars_eq_str(m, "text/css") {
        to_chars(".css")
    } else if chars_eq_str(m, "image/gif") {
        to_chars(".gif")
    } else {
        Vec::new()
    }
}

/// The extension for a `Content-Type` header taken as it stands: any
/// `;charset` suffix is cut, the remainder is looked up in the MIME table.
pub open spec fn extension_raw_spec(ct: Option<Seq<char>>) -> Seq<char> {
    match ct {
        None => Seq::empty(),
        Some(v) => mime_ext(before_char_first(v, ';')),
    }
}

/// The extension for a `Content-Type` header after ASCII case folding.
pub open spec fn extension_lower_spec(ct: Option<Seq<char>>) -> Seq<char> {
    match ct {
        None => Seq::empty(),
        Some(v) => mime_ext(before_char_first(lower_seq(v), ';')),
    }
}

/// The extension assigned to a `Content-Type` value, without case folding.
pub fn extension_raw(ct: Option<&str>) -> (r: Vec<char>)
    ensures
        r@ == extension_raw_spec(match ct {
            Some(s) => Some(s@),
            None => None,
        }),
{
    match ct {
        None => Vec::new(),
        Some(s) => {
            let v = to_chars(s);
            let m = cut_before_first(&v, ';');
            mime_lookup(&m)
        },
    }
}

/// The extension assigned to a `Content-Type` value after lower-casing.
pub fn extension_lower(ct: Option<&str>) -> (r: Vec<char>)
    ensures
        r@ == extension_lower_spec(match ct {
            Some(s) => Some(s@),
            None => None,
        }),
{
    match ct {
        None => Vec::new(),
        Some(s) => {
            let v = to_chars(s);
            let low = lower_ascii(&v);
            let m = cut_before_first(&low, ';');
            mime_lookup(&m)
        },
    }
}

/// The synthesized name `file-<stamp><ext>` used when nothing better is
/// known.
pub open spec fn generic_name(stamp: Seq<char>, ext: Seq<char>) -> Seq<char> {
    "file-"@ + stamp + ext
}

/// The name taken from a `Content-Disposition` header: an RFC 5987
/// `filename*=` value keeps what follows its last single quote, a plain
/// `filename=` value loses its first two double quotes; a header with
/// neither yields the fallback.
pub open spec fn cd_name_raw(cd: Seq<char>, fallback: Seq<char>) -> Seq<char> {
    if contains_seq(cd, "filename*="@) {
        let f = remove_all(tail_from_first(cd, "filename*="@), "filename*="@);
        if f.len() > 0 && f.last() == '\'' {
            f
        } else {
            after_char_last(f, '\'')
        }
    } else if contains_seq(cd, "filename="@) {
        let f = remove_all(tail_from_first(cd, "filename="@), "filename="@);
        remove_first_n(f, '"', 2)
    } else {
        fallback
    }
}

/// The file name for a resource, derived from its URL and response
/// headers: the last path segment when the URL has one; otherwise a name
/// synthesized from the media type (`page-…` for HTML, `static-…` for
/// other known types); otherwise the `Content-Disposition` name; and
/// `file-<stamp>` as the last resort.
pub open spec fn file_name_spec(
    link: Seq<char>,
    ct: Option<Seq<char>>,
    cd: Option<Seq<char>>,
    stamp: Seq<char>,
) -> Seq<char> {
    let l1 = if has_char(link, '?') {
        before_char_last(link, '?')
    } else {
        link
    };
    let l2 = after_char_last(l1, '/');
    let ext = extension_raw_spec(ct);
    if l2.len() > 0 && ext.len() > 0 {
        if contains_seq(l2, ext) {
            l2
        } else if ext == ".html"@ {
            "page-"@ + stamp + ext
        } else {
            l2 + "-"@ + stamp + ext
        }
    } else if l2.len() > 1 && has_char(l2, '.') {
        l2
    } else if ext.len() > 0 {
        if ext == ".html"@ {
            "page-"@ + stamp + ext
        } else {
            "static-"@ + stamp + ext
        }
    } else {
        match cd {
            None => generic_name(stamp, ext),
            Some(cdv) => cd_name_raw(cdv, generic_name(stamp, ext)),
        }
    }
}

/// Builds `prefix + stamp + ext` as characters.
fn build_stamped(prefix: &str, stamp: &Vec<char>, ext: &Vec<char>) -> (r: Vec<char>)
    ensures
        r@ == prefix@ + stamp@ + ext@,
{
    let mut r = to_chars(prefix);
    append_chars(&mut r, stamp);
    append_chars(&mut r, ext);
    r
}

/// Derives the local file name for a resource from its URL text and the
/// `Content-Type` / `Content-Disposition` headers; `stamp` is the caller's
/// rendering of the current time, used for synthesized names.
pub fn file_name_for(
    link: &str,
    content_type: Option<&str>,
    content_disposition: Option<&str>,
    stamp: &str,
) -> (r: String)
    ensures
        r@ == file_name_spec(
            link@,
            match content_type {
                Some(s) => Some(s@),
                None => None,
            },
            match content_disposition {
                Some(s) => Some(s@),
                None => None,
            },
            stamp@,
        ),
{
    let lv = to_chars(link);
    let l1 = if contains_char(&lv, '?') {
        cut_before_last(&lv, '?')
    } else {
        lv
    };
    let l2 = cut_after_last(&l1, '/');
    let ext = extension_raw(content_type);
    let stamp_v = to_chars(stamp);
    let out: Vec<char> = if l2.len() > 0 && ext.len() > 0 {
        if contains_sub(&l2, &ext) {
            l2
        } else if chars_eq_str(&ext, ".html") {
            build_stamped("page-", &stamp_v, &ext)
        } else {
            let mut r = sub_all(&l2);
            let dash = to_chars("-");
            append_chars(&mut r, &dash);
            append_chars(&mut r, &stamp_v);
            append_chars(&mut r, &ext);
            r
        }
    } else if l2.len() > 1 && contains_char(&l2, '.') {
        l2
    } else if ext.len() > 0 {
        if chars_eq_str(&ext, ".html") {
            build_stamped("page-", &stamp_v, &ext)
        } else {
            build_stamped("static-", &stamp_v, &ext)
        }
    } else {
        match content_disposition {
            None => build_stamped("file-", &stamp_v, &ext),
            Some(cd) => {
                let cdv = to_chars(cd);
                let star = to_chars("filename*=");
                let plain = to_chars("filename=");
                if contains_sub(&cdv, &star) {
                    let f = remove_all_chars(&tail_from(&cdv, &star), &star);
                    if f.len() > 0 && f[f.len() - 1] == '\'' {
                        assert(f@.last() == '\'');
                        f
                    } else {
                        cut_after_last(&f, '\'')
                    }
                } else if contains_sub(&cdv, &plain) {
                    let f = remove_all_chars(&tail_from(&cdv, &plain), &plain);
                    remove_first_n_chars(&f, '"', 2)
                } else {
                    build_stamped("file-", &stamp_v, &ext)
                }
            },
        }
    };
    crate::text::chars_to_string(&out)
}

proof fn lemma_tail_matches(s: Seq<char>, p: Seq<char>)
    requires
        contains_seq(s, p),
    ensures
        matches_at(tail_from_first(s, p), p, 0),
    decreases s.len(),
{
    if !matches_at(s, p, 0) {
        let i = choose|i: int| matches_at(s, p, i);
        assert(i >= 1);
        assert(s.len() > 0);
        lemma_matches_shift(s, p, i - 1);
        assert(contains_seq(s.drop_first(), p));
        lemma_tail_matches(s.drop_first(), p);
    }
}

/// The name that the download step gives a fetched resource: the URL
/// path's last segment with any query cut off; when that is empty, the
/// `Content-Disposition` name (both `filename=` and RFC 5987 `filename*=`
/// forms, surrounding quotes stripped); and otherwise `file-<stamp><ext>`
/// with the extension taken from the case-folded media type.
pub open spec fn cd_name_fetch(cd: Seq<char>, fallback: Seq<char>) -> Seq<char> {
    if contains_seq(cd, "filename*="@) {
        let t = tail_from_first(cd, "filename*="@).skip("filename*="@.len() as int);
        let n = if has_char(t, '\'') {
            after_char_last(t, '\'')
        } else {
            t
        };
        strip_quotes_spec(n)
    } else if contains_seq(cd, "filename="@) {
        let t = tail_from_first(cd, "filename="@).skip("filename="@.len() as int);
        strip_quotes_spec(before_char_first(t, ';'))
    } else {
        fallback
    }
}

/// See `cd_name_fetch`: the complete naming rule for fetched resources.
pub open spec fn fetch_name_spec(
    url_text: Seq<char>,
    ct: Option<Seq<char>>,
    cd: Option<Seq<char>>,
    stamp: Seq<char>,
) -> Seq<char> {
    let l2 = after_char_last(before_char_first(url_text, '?'), '/');
    if l2.len() > 0 {
        l2
    } else {
        let ext = extension_lower_spec(ct);
        match cd {
            None => generic_name(stamp, ext),
            Some(c) => cd_name_fetch(c, generic_name(stamp, ext)),
        }
    }
}

/// Derives the saved file's name for a fetched resource; used for every
/// download that was not given a fixed name by the coordinator.
pub fn fetch_file_name(
    url_text: &str,
    content_type: Option<&str>,
    content_disposition: Option<&str>,
    stamp: &str,
) -> (r: String)
    ensures
        r@ == fetch_name_spec(
            url_text@,
            match content_type {
                Some(s) => Some(s@),
                None => None,
            },
            match content_disposition {
                Some(s) => Some(s@),
                None => None,
            },
            stamp@,
        ),
{
    let uv = to_chars(url_text);
    let l1 = cut_before_first(&uv, '?');
    let l2 = cut_after_last(&l1, '/');
    if l2.len() > 0 {
        return crate::text::chars_to_string(&l2);
    }
    let ext = extension_lower(content_type);
    let stamp_v = to_chars(stamp);
    let out: Vec<char> = match content_disposition {
        None => build_stamped("file-", &stamp_v, &ext),
        Some(cd) => {
            let cdv = to_chars(cd);
            let star = to_chars("filename*=");
            let plain = to_chars("filename=");
            if contains_sub(&cdv, &star) {
                let full = tail_from(&cdv, &star);
                proof { lemma_tail_matches(cdv@, star@); }
                let t = sub_chars(&full, star.len(), full.len());
                assert(t@ =~= tail_from_first(cdv@, star@).skip(star@.len() as int));
                let n = if contains_char(&t, '\'') {
                    cut_after_last(&t, '\'')
                } else {
                    t
                };
                strip_quotes(&n)
            } else if contains_sub(&cdv, &plain) {
                let full = tail_from(&cdv, &plain);
                proof { lemma_tail_matches(cdv@, plain@); }
                let t = sub_chars(&full, plain.len(), full.len());
                assert(t@ =~= tail_from_first(cdv@, plain@).skip(plain@.len() as int));
                let cut = cut_before_first(&t, ';');
                strip_quotes(&cut)
            } else {
                build_stamped("file-", &stamp_v, &ext)
            }
        },
    };
    crate::text::chars_to_string(&out)
}

/// `dir` and `name` joined with exactly one `/` between them.
pub open spec fn joined_path(dir: Seq<char>, name: Seq<char>) -> Seq<char> {
    if dir.len() > 0 && dir.last() == '/' {
        dir + name
    } else {
        dir + seq!['/'] + name
    }
}

/// Joins a directory and a file name into one path.
pub fn join_path(dir: &str, name: &str) -> (r: String)
    ensures
        r@ == joined_path(dir@, name@),
{
    let dv = to_chars(dir);
    let nv = to_chars(name);
    let mut out = sub_all(&dv);
    if dv.len() > 0 && dv[dv.len() - 1] == '/' {
        append_chars(&mut out, &nv);
    } else {
        out.push('/');
        append_chars(&mut out, &nv);
        assert(out@ =~= dir@ + seq!['/'] + name@);
    }
    crate::text::chars_to_string(&out)
}

} // verus!
