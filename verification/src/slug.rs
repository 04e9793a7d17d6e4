//! Slugs: the public identifiers of catalog entries.

use crate::text::{chars_of, string_of};
use vstd::prelude::*;
use vstd::utf8::is_ascii_chars;

verus! {

/// The characters a slug may hold: ASCII lowercase letters, digits and `-`.
pub open spec fn is_slug_char(c: char) -> bool {
    ('a' <= c && c <= 'z') || ('0' <= c && c <= '9') || c == '-'
}

/// A valid slug: 1 to 64 characters of `[a-z0-9-]`, lowercase words joined
/// by single dashes (no leading, trailing or doubled dash).
pub open spec fn is_valid_slug(s: Seq<char>) -> bool {
    &&& 0 < s.len() <= 64
    &&& forall|i: int| 0 <= i < s.len() ==> is_slug_char(#[trigger] s[i])
    &&& s[0] != '-'
    &&& s[s.len() - 1] != '-'
    &&& forall|i: int| 0 <= i < s.len() - 1 ==> !(#[trigger] s[i] == '-' && s[i + 1] == '-')
}

/// Whether `slug` has the slug shape: lowercase ascii words joined by
/// single dashes, at most 64 characters.
pub fn valid_slug(slug: &str) -> (ok: bool)
    ensures
        ok == is_valid_slug(slug@),
{
    let n = slug.unicode_len();
    if n == 0 || n > 64 {
        return false;
    }
    let mut i: usize = 0;
    while i < n
        invariant
            n == slug@.len(),
            0 < n <= 64,
            i <= n,
            forall|j: int| 0 <= j < i ==> is_slug_char(#[trigger] slug@[j]),
            forall|j: int| 0 <= j < i - 1 ==> !(#[trigger] slug@[j] == '-' && slug@[j + 1] == '-'),
            forall|j: int| 0 <= j < i && #[trigger] slug@[j] == '-' ==> 0 < j < n - 1,
        decreases n - i,
    {
        let c = slug.get_char(i);
        let ok_char = ('a' <= c && c <= 'z') || ('0' <= c && c <= '9') || c == '-';
        if !ok_char {
            return false;
        }
        if c == '-' {
            if i == 0 || i + 1 == n {
                return false;
            }
            if slug.get_char(i - 1) == '-' {
                assert(slug@[i - 1] == '-' && slug@[(i - 1) + 1] == '-');
                return false;
            }
        }
        i = i + 1;
    }
    true
}


// ---------------------------------------------------------------------------
// slugify
// ---------------------------------------------------------------------------

/// ASCII lowercasing of one character; every other character is unchanged.
pub open spec fn ascii_lower(c: char) -> char {
    if 'A' <= c && c <= 'Z' {
        ((c as u32) + 32) as char
    } else {
        c
    }
}

/// What `str::to_lowercase` returns for a string: its lowercase mapping as
/// defined by Unicode's `Lowercase` property.
pub uninterp spec fn lowercase(s: Seq<char>) -> Seq<char>;

/// Calls `str::to_lowercase`. The contract names the result `lowercase(s@)`
/// and states the one fact its documentation makes plain for ASCII text:
/// ASCII characters map by ASCII lowercasing, one for one.
#[verifier::external_body]
fn to_lowercase(s: &str) -> (r: String)
    ensures
        r@ == lowercase(s@),
        is_ascii_chars(s@) ==> r@ == ascii_lowercase(s@),
{
    s.to_lowercase()
}

/// Each character of a lowercased name becomes itself when it is an ASCII
/// lowercase letter or digit, and a dash otherwise.
pub open spec fn slug_map_char(c: char) -> char {
    if ('a' <= c && c <= 'z') || ('0' <= c && c <= '9') {
        c
    } else {
        '-'
    }
}

/// `s` without its leading dashes.
pub open spec fn trim_leading_dashes(s: Seq<char>) -> Seq<char>
    decreases s.len(),
{
    if s.len() > 0 && s[0] == '-' {
        trim_leading_dashes(s.drop_first())
    } else {
        s
    }
}

/// `s` without its trailing dashes.
pub open spec fn trim_trailing_dashes(s: Seq<char>) -> Seq<char>
    decreases s.len(),
{
    if s.len() > 0 && s[s.len() - 1] == '-' {
        trim_trailing_dashes(s.drop_last())
    } else {
        s
    }
}

/// `s` with every run of dashes shortened to a single dash.
pub open spec fn collapse_dashes(s: Seq<char>) -> Seq<char>
    decreases s.len(),
{
    if s.len() == 0 {
        s
    } else {
        let p = collapse_dashes(s.drop_last());
        if s[s.len() - 1] == '-' && p.len() > 0 && p[p.len() - 1] == '-' {
            p
        } else {
            p.push(s[s.len() - 1])
        }
    }
}

/// The longest slug text `slugify` keeps.
pub const SLUGIFY_MAX_CHARS: usize = 80;

/// The slug of an already lowercased name: turn every character that is
/// not `[a-z0-9]` into a dash, strip dashes at both ends, collapse dash
/// runs, and keep at most 80 characters; an empty result becomes
/// `unnamed-section`.
pub open spec fn slug_of_lowered(lower: Seq<char>) -> Seq<char> {
    let d = collapse_dashes(
        trim_trailing_dashes(trim_leading_dashes(lower.map_values(|c: char| slug_map_char(c)))),
    );
    if d.len() == 0 {
        "unnamed-section"@
    } else if d.len() <= SLUGIFY_MAX_CHARS {
        d
    } else {
        d.take(SLUGIFY_MAX_CHARS as int)
    }
}

/// ASCII lowercasing of a whole text.
pub open spec fn ascii_lowercase(s: Seq<char>) -> Seq<char> {
    s.map_values(|c: char| ascii_lower(c))
}

/// The slug derived from a section name: `slug_of_lowered` of its
/// lowercase form.
pub open spec fn slugify_spec(name: Seq<char>) -> Seq<char> {
    slug_of_lowered(lowercase(name))
}

/// Derives a slug from a prompt section name (see `slugify_spec`).
pub fn slugify(name: &str) -> (r: String)
    ensures
        r@ == slugify_spec(name@),
        is_ascii_chars(name@) ==> lowercase(name@) == ascii_lowercase(name@),
        is_ascii_chars(name@) ==> r@ == slug_of_lowered(ascii_lowercase(name@)),
        is_valid_slug(name@) ==> r@ == name@,
{
    let lower = to_lowercase(name);
    proof {
        if is_valid_slug(name@) {
            lemma_slug_shape_is_fixed(name@);
        }
    }
    let cs = chars_of(lower.as_str());
    let ghost m = lower@.map_values(|c: char| slug_map_char(c));
    let mut mapped: Vec<char> = Vec::new();
    let mut i: usize = 0;
    while i < cs.len()
        invariant
            i <= cs.len(),
            cs@ == lower@,
            m == lower@.map_values(|c: char| slug_map_char(c)),
            mapped@ == m.take(i as int),
        decreases cs.len() - i,
    {
        let c = cs[i];
        let d = if ('a' <= c && c <= 'z') || ('0' <= c && c <= '9') { c } else { '-' };
        mapped.push(d);
        i = i + 1;
        assert(mapped@ == m.take(i as int));
    }
    assert(mapped@ == m);
    let n = mapped.len();
    // leading dashes
    let mut start: usize = 0;
    while start < n && mapped[start] == '-'
        invariant
            n == mapped@.len(),
            start <= n,
            trim_leading_dashes(m) == trim_leading_dashes(m.subrange(start as int, n as int)),
            mapped@ == m,
        decreases n - start,
    {
        assert(m.subrange(start as int, n as int).drop_first() == m.subrange(start + 1, n as int));
        start = start + 1;
    }
    assert(trim_leading_dashes(m) == m.subrange(start as int, n as int));
    // trailing dashes
    let mut end: usize = n;
    while end > start && mapped[end - 1] == '-'
        invariant
            n == mapped@.len(),
            start <= end <= n,
            trim_trailing_dashes(m.subrange(start as int, n as int))
                == trim_trailing_dashes(m.subrange(start as int, end as int)),
            mapped@ == m,
        decreases end,
    {
        assert(m.subrange(start as int, end as int).drop_last() == m.subrange(start as int, end - 1));
        end = end - 1;
    }
    let ghost u = m.subrange(start as int, end as int);
    assert(trim_trailing_dashes(trim_leading_dashes(m)) == u);
    // collapse dash runs
    let mut deduped: Vec<char> = Vec::new();
    let mut prev_dash = false;
    let mut k: usize = start;
    while k < end
        invariant
            start <= k <= end <= n,
            n == mapped@.len(),
            mapped@ == m,
            u == m.subrange(start as int, end as int),
            deduped@ == collapse_dashes(m.subrange(start as int, k as int)),
            prev_dash <==> (deduped@.len() > 0 && deduped@[deduped@.len() - 1] == '-'),
        decreases end - k,
    {
        let ch = mapped[k];
        assert(m.subrange(start as int, k + 1).drop_last() == m.subrange(start as int, k as int));
        if ch == '-' {
            if !prev_dash {
                deduped.push('-');
            }
            prev_dash = true;
        } else {
            deduped.push(ch);
            prev_dash = false;
        }
        k = k + 1;
    }
    assert(deduped@ == collapse_dashes(u));
    if deduped.len() == 0 {
        return "unnamed-section".to_owned();
    }
    if deduped.len() <= SLUGIFY_MAX_CHARS {
        string_of(&deduped)
    } else {
        let mut kept: Vec<char> = Vec::new();
        let mut j: usize = 0;
        while j < SLUGIFY_MAX_CHARS
            invariant
                j <= SLUGIFY_MAX_CHARS < deduped.len(),
                kept@ == deduped@.take(j as int),
            decreases SLUGIFY_MAX_CHARS - j,
        {
            kept.push(deduped[j]);
            j = j + 1;
            assert(kept@ == deduped@.take(j as int));
        }
        string_of(&kept)
    }
}


proof fn lemma_trim_leading(s: Seq<char>)
    ensures
        exists|k: int| 0 <= k <= s.len() && trim_leading_dashes(s) == #[trigger] s.subrange(k, s.len() as int),
        trim_leading_dashes(s).len() > 0 ==> trim_leading_dashes(s)[0] != '-',
    decreases s.len(),
{
    if s.len() > 0 && s[0] == '-' {
        lemma_trim_leading(s.drop_first());
        let k = choose|k: int| 0 <= k <= s.drop_first().len() && trim_leading_dashes(s.drop_first()) == #[trigger] s.drop_first().subrange(k, s.drop_first().len() as int);
        assert(s.drop_first().subrange(k, s.drop_first().len() as int) == s.subrange(k + 1, s.len() as int));
    } else {
        assert(s == s.subrange(0, s.len() as int));
    }
}

proof fn lemma_trim_trailing(s: Seq<char>)
    ensures
        exists|k: int| 0 <= k <= s.len() && trim_trailing_dashes(s) == #[trigger] s.subrange(0, k),
        trim_trailing_dashes(s).len() > 0 ==> trim_trailing_dashes(s)[trim_trailing_dashes(s).len() - 1] != '-',
    decreases s.len(),
{
    if s.len() > 0 && s[s.len() - 1] == '-' {
        lemma_trim_trailing(s.drop_last());
        let k = choose|k: int| 0 <= k <= s.drop_last().len() && trim_trailing_dashes(s.drop_last()) == #[trigger] s.drop_last().subrange(0, k);
        assert(s.drop_last().subrange(0, k) == s.subrange(0, k));
    } else {
        assert(s == s.subrange(0, s.len() as int));
    }
}

/// Dash runs collapsed: slug characters stay slug characters, no two dashes
/// follow each other, and the ends are kept.
proof fn lemma_collapse(u: Seq<char>)
    requires
        forall|i: int| 0 <= i < u.len() ==> is_slug_char(#[trigger] u[i]),
    ensures
        ({
            let c = collapse_dashes(u);
            &&& c.len() <= u.len()
            &&& forall|i: int| 0 <= i < c.len() ==> is_slug_char(#[trigger] c[i])
            &&& forall|i: int| 0 <= i < c.len() - 1 ==> !(#[trigger] c[i] == '-' && c[i + 1] == '-')
            &&& u.len() > 0 ==> c.len() > 0 && c[0] == u[0] && c[c.len() - 1] == u[u.len() - 1]
        }),
    decreases u.len(),
{
    if u.len() > 0 {
        let p = u.drop_last();
        lemma_collapse(p);
        let c = collapse_dashes(u);
        if u.len() == 1 {
            assert(p.len() == 0);
            assert(c == seq![u[0]]);
        }
    }
}

/// Collapsing dash runs leaves text without doubled dashes unchanged.
proof fn lemma_collapse_identity(u: Seq<char>)
    requires
        forall|i: int| 0 <= i < u.len() - 1 ==> !(#[trigger] u[i] == '-' && u[i + 1] == '-'),
    ensures
        collapse_dashes(u) == u,
    decreases u.len(),
{
    if u.len() > 0 {
        let p = u.drop_last();
        assert forall|i: int| 0 <= i < p.len() - 1 implies !(#[trigger] p[i] == '-' && p[i + 1] == '-') by {
            assert(u[i] == p[i] && u[i + 1] == p[i + 1]);
        }
        lemma_collapse_identity(p);
        assert(p.push(u[u.len() - 1]) == u);
        if u.len() >= 2 {
            assert(!(u[u.len() - 2] == '-' && u[u.len() - 1] == '-'));
        }
    }
}

/// The shape of `slug_of_lowered`'s result, whatever the lowercased text.
proof fn lemma_slug_of_lowered_shape(lower: Seq<char>)
    ensures
        ({
            let r = slug_of_lowered(lower);
            &&& 1 <= r.len() <= SLUGIFY_MAX_CHARS
            &&& forall|i: int| 0 <= i < r.len() ==> is_slug_char(#[trigger] r[i])
            &&& r[0] != '-'
            &&& r.len() < SLUGIFY_MAX_CHARS ==> r[r.len() - 1] != '-'
            &&& forall|i: int| 0 <= i < r.len() - 1 ==> !(#[trigger] r[i] == '-' && r[i + 1] == '-')
        }),
{
    let m = lower.map_values(|c: char| slug_map_char(c));
    let t1 = trim_leading_dashes(m);
    let u = trim_trailing_dashes(t1);
    let d = collapse_dashes(u);
    lemma_trim_leading(m);
    lemma_trim_trailing(t1);
    let k1 = choose|k: int| 0 <= k <= m.len() && t1 == #[trigger] m.subrange(k, m.len() as int);
    let k2 = choose|k: int| 0 <= k <= t1.len() && u == #[trigger] t1.subrange(0, k);
    assert forall|i: int| 0 <= i < u.len() implies is_slug_char(#[trigger] u[i]) by {
        assert(u[i] == m[k1 + i]);
    }
    if u.len() > 0 {
        assert(u[0] == t1[0]);
    }
    lemma_collapse(u);
    let r = slug_of_lowered(lower);
    if d.len() == 0 {
        reveal_strlit("unnamed-section");
        assert(r == "unnamed-section"@);
        assert(r[7] == '-');
    } else if d.len() > SLUGIFY_MAX_CHARS {
        assert(r == d.take(SLUGIFY_MAX_CHARS as int));
        assert forall|i: int| 0 <= i < r.len() - 1 implies !(#[trigger] r[i] == '-' && r[i + 1] == '-') by {
            assert(r[i] == d[i] && r[i + 1] == d[i + 1]);
        }
    }
}

/// Every slug `slugify` derives is 1 to 80 characters of `[a-z0-9-]` that
/// start with a letter or digit and never hold two dashes in a row; it ends
/// in a dash only when it was cut at 80 characters, and one of at most 64
/// characters is a valid slug.
pub proof fn lemma_slugify_shape(name: Seq<char>)
    ensures
        ({
            let r = slugify_spec(name);
            &&& 1 <= r.len() <= SLUGIFY_MAX_CHARS
            &&& forall|i: int| 0 <= i < r.len() ==> is_slug_char(#[trigger] r[i])
            &&& r[0] != '-'
            &&& r.len() < SLUGIFY_MAX_CHARS ==> r[r.len() - 1] != '-'
            &&& forall|i: int| 0 <= i < r.len() - 1 ==> !(#[trigger] r[i] == '-' && r[i + 1] == '-')
            &&& r.len() <= 64 ==> is_valid_slug(r)
        }),
{
    lemma_slug_of_lowered_shape(lowercase(name));
}

/// Text of slug shape (1 to 80 slug characters, no dash at either end, no
/// doubled dash) is ASCII and passes the slug pipeline unchanged once
/// ASCII-lowercased.
proof fn lemma_slug_shape_is_fixed(s: Seq<char>)
    requires
        1 <= s.len() <= SLUGIFY_MAX_CHARS,
        forall|i: int| 0 <= i < s.len() ==> is_slug_char(#[trigger] s[i]),
        s[0] != '-',
        s[s.len() - 1] != '-',
        forall|i: int| 0 <= i < s.len() - 1 ==> !(#[trigger] s[i] == '-' && s[i + 1] == '-'),
    ensures
        is_ascii_chars(s),
        slug_of_lowered(ascii_lowercase(s)) == s,
{
    assert(ascii_lowercase(s) =~= s);
    let m = s.map_values(|c: char| slug_map_char(c));
    assert(m =~= s);
    assert(trim_leading_dashes(m) == m);
    assert(trim_trailing_dashes(m) == m);
    lemma_collapse_identity(m);
}

/// Slugifying a derived slug gives it back, unless it was cut at 80
/// characters right after a dash: the slug is ASCII text, and `slugify`
/// maps ASCII text `t` to `slug_of_lowered(ascii_lowercase(t))`.
pub proof fn lemma_slugify_idempotent(name: Seq<char>)
    requires
        slugify_spec(name)[slugify_spec(name).len() - 1] != '-',
    ensures
        is_ascii_chars(slugify_spec(name)),
        slug_of_lowered(ascii_lowercase(slugify_spec(name))) == slugify_spec(name),
{
    lemma_slugify_shape(name);
    lemma_slug_shape_is_fixed(slugify_spec(name));
}

/// A name whose characters are ASCII and map one for one, by ASCII
/// lowercasing and the slug character map, onto a valid slug is slugified
/// to that slug.
pub(crate) proof fn lemma_name_slugs_to(name: Seq<char>, slug: Seq<char>)
    requires
        is_valid_slug(slug),
        name.len() == slug.len(),
        forall|i: int|
            0 <= i < name.len() ==> #[trigger] name[i] <= '\u{7f}' && slug_map_char(ascii_lower(name[i]))
                == slug[i],
    ensures
        is_ascii_chars(name),
        slug_of_lowered(ascii_lowercase(name)) == slug,
{
    let m = ascii_lowercase(name).map_values(|c: char| slug_map_char(c));
    assert(m =~= slug);
    assert(trim_leading_dashes(m) == m);
    assert(trim_trailing_dashes(m) == m);
    lemma_collapse_identity(m);
}

} // verus!
