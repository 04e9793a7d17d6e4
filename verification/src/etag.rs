//! ETags. Every public read carries a strong ETag derived from the content
//! it serves, so that apps can revalidate with `If-None-Match` and receive
//! 304 instead of the payload.

use crate::digest::{hex_lower, sha256};
use crate::text::{chars_of, decimal, lemma_decimal_reads_back, lemma_same_frame, owned, push_decimal, push_str};
use vstd::prelude::*;
use vstd::relations::{sorted_by, total_ordering};
use vstd::string::StrSliceExecFns;
use vstd::utf8::encode_utf8;

verus! {

broadcast use vstd::string::group_string_axioms;

/// A value served with its ETag.
pub struct Etagged<T> {
    pub etag: String,
    pub value: T,
}

impl<T> Etagged<T> {
    /// Pairs a value with its ETag.
    pub fn new(etag: String, value: T) -> (r: Self)
        ensures
            r.etag == etag,
            r.value == value,
    {
        Etagged { etag, value }
    }
}

/// The ETag of one versioned catalog entry: `"<kind>-<slug>-v<version>"`,
/// quotes included.
pub open spec fn entry_etag_spec(kind: Seq<char>, slug: Seq<char>, version: int) -> Seq<char> {
    "\""@ + kind + "-"@ + slug + "-v"@ + decimal(version) + "\""@
}

/// The ETag of one versioned catalog entry (prompts, skills, tools and
/// canvas packs).
pub fn entry_etag(kind: &str, slug: &str, version: i32) -> (r: String)
    ensures
        r@ == entry_etag_spec(kind@, slug@, version as int),
{
    let mut out = owned("\"");
    push_str(&mut out, kind);
    push_str(&mut out, "-");
    push_str(&mut out, slug);
    push_str(&mut out, "-v");
    push_decimal(&mut out, version as i64);
    push_str(&mut out, "\"");
    out
}

/// Entry ETags of different versions of one entry differ, so a client
/// holding an older version is never told that it is current.
pub proof fn lemma_entry_etag_tells_versions_apart(kind: Seq<char>, slug: Seq<char>, v1: int, v2: int)
    requires
        v1 != v2,
    ensures
        entry_etag_spec(kind, slug, v1) != entry_etag_spec(kind, slug, v2),
{
    lemma_decimal_reads_back(v1, v2);
    let prefix = "\""@ + kind + "-"@ + slug + "-v"@;
    if entry_etag_spec(kind, slug, v1) == entry_etag_spec(kind, slug, v2) {
        lemma_same_frame(prefix, decimal(v1), decimal(v2), "\""@);
    }
}

/// `"<prefix><text>"`, quotes included.
pub open spec fn quoted(prefix: Seq<char>, text: Seq<char>) -> Seq<char> {
    "\""@ + prefix + text + "\""@
}

fn quote(prefix: &str, text: &str) -> (r: String)
    ensures
        r@ == quoted(prefix@, text@),
{
    let mut out = owned("\"");
    push_str(&mut out, prefix);
    push_str(&mut out, text);
    push_str(&mut out, "\"");
    out
}

/// The ETag of an agent: `"agent-<slug>"` (agents carry no version).
pub fn agent_etag(slug: &str) -> (r: String)
    ensures
        r@ == quoted("agent-"@, slug@),
{
    quote("agent-", slug)
}

/// The ETag of the manifest: `"guru-manifest-<content state hash>"`.
pub fn manifest_etag(state_hash: &str) -> (r: String)
    ensures
        r@ == quoted("guru-manifest-"@, state_hash@),
{
    quote("guru-manifest-", state_hash)
}

/// The ETag of an element's media: `"media-<element id>"`.
pub fn media_etag(element_id: &str) -> (r: String)
    ensures
        r@ == quoted("media-"@, element_id@),
{
    quote("media-", element_id)
}

// ---------------------------------------------------------------------------
// If-None-Match
// ---------------------------------------------------------------------------

/// Whether `char::is_whitespace` holds: the Unicode `White_Space`
/// characters.
pub open spec fn is_white_space(c: char) -> bool {
    let v = c as u32;
    (9 <= v && v <= 13) || v == 32 || v == 0x85 || v == 0xa0 || v == 0x1680 || (0x2000 <= v && v
        <= 0x200a) || v == 0x2028 || v == 0x2029 || v == 0x202f || v == 0x205f || v == 0x3000
}

fn white_space(c: char) -> (r: bool)
    ensures
        r == is_white_space(c),
{
    let v = c as u32;
    (9 <= v && v <= 13) || v == 32 || v == 0x85 || v == 0xa0 || v == 0x1680 || (0x2000 <= v && v
        <= 0x200a) || v == 0x2028 || v == 0x2029 || v == 0x202f || v == 0x205f || v == 0x3000
}

/// The pieces of `s` between commas (`str::split(',')`): one more piece
/// than there are commas.
pub open spec fn split_commas(s: Seq<char>) -> Seq<Seq<char>>
    decreases s.len(),
{
    if s.len() == 0 {
        seq![Seq::empty()]
    } else {
        let p = split_commas(s.drop_last());
        let c = s[s.len() - 1];
        if c == ',' {
            p.push(Seq::empty())
        } else {
            p.update(p.len() - 1, p[p.len() - 1].push(c))
        }
    }
}

/// `s` without leading white space.
pub open spec fn trim_start_ws(s: Seq<char>) -> Seq<char>
    decreases s.len(),
{
    if s.len() > 0 && is_white_space(s[0]) {
        trim_start_ws(s.drop_first())
    } else {
        s
    }
}

/// `s` without trailing white space.
pub open spec fn trim_end_ws(s: Seq<char>) -> Seq<char>
    decreases s.len(),
{
    if s.len() > 0 && is_white_space(s[s.len() - 1]) {
        trim_end_ws(s.drop_last())
    } else {
        s
    }
}

/// `s` without any number of leading `W/` (`trim_start_matches("W/")`).
pub open spec fn strip_weak(s: Seq<char>) -> Seq<char>
    decreases s.len(),
{
    if s.len() >= 2 && s[0] == 'W' && s[1] == '/' {
        strip_weak(s.skip(2))
    } else {
        s
    }
}

/// One `If-None-Match` entry as compared: trimmed, weak prefix ignored.
pub open spec fn normalized_tag(piece: Seq<char>) -> Seq<char> {
    strip_weak(trim_end_ws(trim_start_ws(piece)))
}

/// Whether an entry names the ETag, or is the wildcard `*`.
pub open spec fn tag_matches(piece: Seq<char>, etag: Seq<char>) -> bool {
    normalized_tag(piece) == etag || normalized_tag(piece) == "*"@
}

/// Whether an `If-None-Match` value matches the ETag: some comma-separated
/// entry, trimmed and with any `W/` prefix dropped (weak comparison), is
/// the ETag itself or `*`.
pub open spec fn if_none_match_hits(header: Seq<char>, etag: Seq<char>) -> bool {
    exists|i: int| 0 <= i < split_commas(header).len() && tag_matches(#[trigger] split_commas(header)[i], etag)
}

fn same_chars(a: &Vec<char>, lo: usize, hi: usize, b: &Vec<char>) -> (r: bool)
    requires
        lo <= hi <= a@.len(),
    ensures
        r == (a@.subrange(lo as int, hi as int) == b@),
{
    if hi - lo != b.len() {
        return false;
    }
    let mut k: usize = 0;
    while k < b.len()
        invariant
            lo <= hi <= a@.len(),
            hi - lo == b@.len(),
            k <= b@.len(),
            forall|m: int| 0 <= m < k ==> a@[lo + m] == b@[m],
        decreases b.len() - k,
    {
        if a[lo + k] != b[k] {
            assert(a@.subrange(lo as int, hi as int)[k as int] != b@[k as int]);
            return false;
        }
        k = k + 1;
    }
    assert(a@.subrange(lo as int, hi as int) =~= b@);
    true
}

fn piece_matches(piece: &Vec<char>, etag: &Vec<char>, star: &Vec<char>) -> (r: bool)
    requires
        star@ == "*"@,
    ensures
        r == tag_matches(piece@, etag@),
{
    let n = piece.len();
    let mut lo: usize = 0;
    assert(piece@.subrange(0, n as int) == piece@);
    while lo < n && white_space(piece[lo])
        invariant
            n == piece@.len(),
            lo <= n,
            trim_start_ws(piece@) == trim_start_ws(piece@.subrange(lo as int, n as int)),
        decreases n - lo,
    {
        assert(piece@.subrange(lo as int, n as int).drop_first() == piece@.subrange(lo + 1, n as int));
        lo = lo + 1;
    }
    assert(trim_start_ws(piece@) == piece@.subrange(lo as int, n as int));
    let mut hi: usize = n;
    while hi > lo && white_space(piece[hi - 1])
        invariant
            n == piece@.len(),
            lo <= hi <= n,
            trim_end_ws(piece@.subrange(lo as int, n as int)) == trim_end_ws(piece@.subrange(lo as int, hi as int)),
        decreases hi,
    {
        assert(piece@.subrange(lo as int, hi as int).drop_last() == piece@.subrange(lo as int, hi - 1));
        hi = hi - 1;
    }
    assert(trim_end_ws(trim_start_ws(piece@)) == piece@.subrange(lo as int, hi as int));
    while hi - lo >= 2 && piece[lo] == 'W' && piece[lo + 1] == '/'
        invariant
            n == piece@.len(),
            lo <= hi <= n,
            normalized_tag(piece@) == strip_weak(piece@.subrange(lo as int, hi as int)),
        decreases hi - lo,
    {
        assert(piece@.subrange(lo as int, hi as int).skip(2) == piece@.subrange(lo + 2, hi as int));
        lo = lo + 2;
    }
    assert(normalized_tag(piece@) == piece@.subrange(lo as int, hi as int));
    same_chars(piece, lo, hi, etag) || same_chars(piece, lo, hi, star)
}

/// Whether a request's `If-None-Match` value matches the ETag (see
/// `if_none_match_hits`); a match is answered 304 Not Modified.
pub fn etag_matches(if_none_match: &str, etag: &str) -> (r: bool)
    ensures
        r == if_none_match_hits(if_none_match@, etag@),
{
    let h = chars_of(if_none_match);
    let e = chars_of(etag);
    let star = chars_of("*");
    let mut current: Vec<char> = Vec::new();
    let ghost mut done: Seq<Seq<char>> = Seq::empty();
    let mut hit = false;
    let mut i: usize = 0;
    assert(h@.take(0) == Seq::<char>::empty());
    while i < h.len()
        invariant
            i <= h@.len(),
            h@ == if_none_match@,
            e@ == etag@,
            star@ == "*"@,
            split_commas(h@.take(i as int)) == done.push(current@),
            hit == exists|j: int| 0 <= j < done.len() && tag_matches(#[trigger] done[j], etag@),
        decreases h.len() - i,
    {
        let c = h[i];
        assert(h@.take(i + 1).drop_last() == h@.take(i as int));
        if c == ',' {
            let m = piece_matches(&current, &e, &star);
            proof {
                let old_done = done;
                done = done.push(current@);
                assert forall|j: int| 0 <= j < done.len() && tag_matches(#[trigger] done[j], etag@) implies
                    (j < old_done.len() && tag_matches(old_done[j], etag@)) || tag_matches(current@, etag@) by {
                    if j < old_done.len() {
                        assert(done[j] == old_done[j]);
                    }
                }
                if m {
                    assert(done[done.len() - 1] == current@);
                }
                if hit {
                    let j = choose|j: int| 0 <= j < old_done.len() && tag_matches(#[trigger] old_done[j], etag@);
                    assert(done[j] == old_done[j]);
                }
            }
            hit = hit || m;
            current = Vec::new();
            assert(split_commas(h@.take(i + 1)) == done.push(current@));
        } else {
            current.push(c);
            assert(split_commas(h@.take(i + 1)) == done.push(current@));
        }
        i = i + 1;
    }
    assert(h@.take(h@.len() as int) == h@);
    let m = piece_matches(&current, &e, &star);
    proof {
        let all = done.push(current@);
        assert(split_commas(if_none_match@) == all);
        if hit || m {
            if hit {
                let j = choose|j: int| 0 <= j < done.len() && tag_matches(#[trigger] done[j], etag@);
                assert(all[j] == done[j]);
            } else {
                assert(all[all.len() - 1] == current@);
            }
        } else {
            assert forall|j: int| 0 <= j < all.len() implies !tag_matches(#[trigger] all[j], etag@) by {
                if j < done.len() {
                    assert(all[j] == done[j]);
                }
            }
        }
    }
    hit || m
}


proof fn lemma_split_no_commas(s: Seq<char>)
    requires
        forall|i: int| 0 <= i < s.len() ==> s[i] != ',',
    ensures
        split_commas(s) == seq![s],
    decreases s.len(),
{
    if s.len() > 0 {
        lemma_split_no_commas(s.drop_last());
        assert(s.drop_last().push(s[s.len() - 1]) == s);
        assert(seq![s.drop_last()].update(0, s) =~= seq![s]);
    } else {
        assert(s =~= Seq::<char>::empty());
    }
}

/// A request that sends back a quoted ETag the server issued (one without
/// commas) matches it: the 304 path serves revalidation.
pub proof fn lemma_echoed_etag_matches(etag: Seq<char>)
    requires
        etag.len() >= 2,
        etag[0] == '"',
        etag[etag.len() - 1] == '"',
        forall|i: int| 0 <= i < etag.len() ==> etag[i] != ',',
    ensures
        if_none_match_hits(etag, etag),
{
    lemma_split_no_commas(etag);
    assert(trim_start_ws(etag) == etag);
    assert(trim_end_ws(etag) == etag);
    assert(strip_weak(etag) == etag);
    assert(tag_matches(split_commas(etag)[0], etag));
}

proof fn lemma_split_nonempty(s: Seq<char>)
    ensures
        split_commas(s).len() >= 1,
    decreases s.len(),
{
    if s.len() > 0 {
        lemma_split_nonempty(s.drop_last());
    }
}

/// Splitting at a comma splits each side on its own.
proof fn lemma_split_append(a: Seq<char>, b: Seq<char>)
    ensures
        split_commas(a + seq![','] + b) == split_commas(a) + split_commas(b),
    decreases b.len(),
{
    let x = a + seq![','] + b;
    if b.len() == 0 {
        assert(x =~= a.push(','));
        assert(x.drop_last() =~= a);
        assert(split_commas(b) =~= seq![Seq::<char>::empty()]);
        assert(split_commas(a).push(Seq::empty()) =~= split_commas(a) + split_commas(b));
    } else {
        let b1 = b.drop_last();
        lemma_split_append(a, b1);
        lemma_split_nonempty(b1);
        lemma_split_nonempty(a);
        assert(x.drop_last() =~= a + seq![','] + b1);
        assert(x[x.len() - 1] == b[b.len() - 1]);
        let pa = split_commas(a);
        let pb = split_commas(b1);
        if b[b.len() - 1] == ',' {
            assert((pa + pb).push(Seq::empty()) =~= pa + pb.push(Seq::empty()));
        } else {
            let c = b[b.len() - 1];
            let q = pa + pb;
            assert(q[q.len() - 1] == pb[pb.len() - 1]);
            assert(q.update(q.len() - 1, q[q.len() - 1].push(c)) =~= pa + pb.update(pb.len() - 1, pb[pb.len() - 1].push(c)));
        }
    }
}

/// Adding entries before or after a matching `If-None-Match` value keeps
/// it matching: every comma-separated entry is compared, not only one.
pub proof fn lemma_more_entries_keep_match(header: Seq<char>, before: Seq<char>, after: Seq<char>, etag: Seq<char>)
    requires
        if_none_match_hits(header, etag),
    ensures
        if_none_match_hits(before + ","@ + header, etag),
        if_none_match_hits(header + ","@ + after, etag),
{
    reveal_strlit(",");
    let i = choose|i: int| 0 <= i < split_commas(header).len() && tag_matches(#[trigger] split_commas(header)[i], etag);
    lemma_split_append(before, header);
    lemma_split_append(header, after);
    assert(before + ","@ + header =~= before + seq![','] + header);
    assert(header + ","@ + after =~= header + seq![','] + after);
    let p1 = split_commas(before) + split_commas(header);
    assert(p1[split_commas(before).len() + i] == split_commas(header)[i]);
    assert(tag_matches(split_commas(before + ","@ + header)[split_commas(before).len() + i], etag));
    let p2 = split_commas(header) + split_commas(after);
    assert(p2[i] == split_commas(header)[i]);
    assert(tag_matches(split_commas(header + ","@ + after)[i], etag));
}

/// A quoted, comma-free ETag listed anywhere in an `If-None-Match` value,
/// first or after other entries and a space, matches:
/// `"<etag>, <others>"` and `"<others>, <etag>"` are both answered 304.
pub proof fn lemma_listed_etag_matches(others: Seq<char>, etag: Seq<char>)
    requires
        etag.len() >= 2,
        etag[0] == '"',
        etag[etag.len() - 1] == '"',
        forall|i: int| 0 <= i < etag.len() ==> etag[i] != ',',
    ensures
        if_none_match_hits(etag + ", "@ + others, etag),
        if_none_match_hits(others + ", "@ + etag, etag),
{
    reveal_strlit(", ");
    reveal_strlit(",");
    lemma_echoed_etag_matches(etag);
    lemma_more_entries_keep_match(etag, Seq::empty(), " "@ + others, etag);
    reveal_strlit(" ");
    assert(etag + ", "@ + others =~= etag + ","@ + (" "@ + others));
    let spaced = " "@ + etag;
    assert forall|i: int| 0 <= i < spaced.len() implies spaced[i] != ',' by {
        if i > 0 {
            assert(spaced[i] == etag[i - 1]);
        }
    }
    lemma_split_no_commas(spaced);
    assert(spaced.drop_first() =~= etag);
    assert(trim_start_ws(etag) == etag);
    assert(trim_start_ws(spaced) == etag);
    assert(trim_end_ws(etag) == etag);
    assert(strip_weak(etag) == etag);
    assert(tag_matches(split_commas(spaced)[0], etag));
    lemma_more_entries_keep_match(spaced, others, Seq::empty(), etag);
    assert(others + ", "@ + etag =~= others + ","@ + spaced);
}

/// A quoted, comma-free ETag sent weak (`W/` first) or padded with white
/// space matches; another quoted, comma-free tag does not.
pub proof fn lemma_single_entry_matches(etag: Seq<char>, other: Seq<char>)
    requires
        etag.len() >= 2,
        etag[0] == '"',
        etag[etag.len() - 1] == '"',
        forall|i: int| 0 <= i < etag.len() ==> etag[i] != ',',
        other.len() >= 2,
        other[0] == '"',
        other[other.len() - 1] == '"',
        forall|i: int| 0 <= i < other.len() ==> other[i] != ',',
    ensures
        if_none_match_hits("W/"@ + etag, etag),
        if_none_match_hits(" "@ + etag + " "@, etag),
        other != etag ==> !if_none_match_hits(other, etag),
{
    reveal_strlit("W/");
    reveal_strlit(" ");
    reveal_strlit("*");
    let weak = "W/"@ + etag;
    assert forall|i: int| 0 <= i < weak.len() implies weak[i] != ',' by {
        if i >= 2 {
            assert(weak[i] == etag[i - 2]);
        }
    }
    lemma_split_no_commas(weak);
    assert(trim_start_ws(weak) == weak);
    assert(trim_end_ws(weak) == weak);
    assert(weak.skip(2) =~= etag);
    assert(strip_weak(etag) == etag);
    assert(strip_weak(weak) == etag);
    assert(tag_matches(split_commas(weak)[0], etag));
    let padded = " "@ + etag + " "@;
    assert forall|i: int| 0 <= i < padded.len() implies padded[i] != ',' by {
        if 1 <= i < padded.len() - 1 {
            assert(padded[i] == etag[i - 1]);
        }
    }
    lemma_split_no_commas(padded);
    assert(padded.drop_first() =~= etag + " "@);
    assert((etag + " "@).drop_last() =~= etag);
    assert(trim_start_ws(etag + " "@) == etag + " "@);
    assert(trim_start_ws(padded) == etag + " "@);
    assert(trim_end_ws(etag) == etag);
    assert(trim_end_ws(etag + " "@) == etag);
    assert(tag_matches(split_commas(padded)[0], etag));
    lemma_split_no_commas(other);
    assert(trim_start_ws(other) == other);
    assert(trim_end_ws(other) == other);
    assert(strip_weak(other) == other);
    assert(other != "*"@);
}

/// `If-None-Match: *` matches every ETag.
pub proof fn lemma_wildcard_matches(etag: Seq<char>)
    ensures
        if_none_match_hits("*"@, etag),
{
    reveal_strlit("*");
    lemma_split_no_commas("*"@);
    assert(trim_start_ws("*"@) == "*"@);
    assert(trim_end_ws("*"@) == "*"@);
    assert(strip_weak("*"@) == "*"@);
    assert(tag_matches(split_commas("*"@)[0], etag));
}

// ---------------------------------------------------------------------------
// list ETags
// ---------------------------------------------------------------------------

/// Byte-wise lexicographic order, the order in which `String`s sort.
pub open spec fn bytes_le(a: Seq<u8>, b: Seq<u8>) -> bool
    decreases a.len(),
{
    if a.len() == 0 {
        true
    } else if b.len() == 0 {
        false
    } else if a[0] < b[0] {
        true
    } else if a[0] > b[0] {
        false
    } else {
        bytes_le(a.drop_first(), b.drop_first())
    }
}

proof fn lemma_bytes_le_reflexive(a: Seq<u8>)
    ensures
        bytes_le(a, a),
    decreases a.len(),
{
    if a.len() > 0 {
        lemma_bytes_le_reflexive(a.drop_first());
    }
}

proof fn lemma_bytes_le_antisymmetric(a: Seq<u8>, b: Seq<u8>)
    requires
        bytes_le(a, b),
        bytes_le(b, a),
    ensures
        a == b,
    decreases a.len(),
{
    if a.len() > 0 && b.len() > 0 {
        lemma_bytes_le_antisymmetric(a.drop_first(), b.drop_first());
        assert(a =~= seq![a[0]] + a.drop_first());
        assert(b =~= seq![b[0]] + b.drop_first());
    } else {
        assert(a.len() == 0 && b.len() == 0);
        assert(a =~= b);
    }
}

proof fn lemma_bytes_le_transitive(a: Seq<u8>, b: Seq<u8>, c: Seq<u8>)
    requires
        bytes_le(a, b),
        bytes_le(b, c),
    ensures
        bytes_le(a, c),
    decreases a.len(),
{
    if a.len() > 0 && b.len() > 0 && c.len() > 0 {
        if a[0] == b[0] && b[0] == c[0] {
            lemma_bytes_le_transitive(a.drop_first(), b.drop_first(), c.drop_first());
        }
    }
}

proof fn lemma_bytes_le_total(a: Seq<u8>, b: Seq<u8>)
    ensures
        bytes_le(a, b) || bytes_le(b, a),
    decreases a.len(),
{
    if a.len() > 0 && b.len() > 0 {
        lemma_bytes_le_total(a.drop_first(), b.drop_first());
    }
}

/// Byte-wise lexicographic order is a total order.
pub proof fn lemma_bytes_le_total_ordering()
    ensures
        total_ordering(|a: Seq<u8>, b: Seq<u8>| bytes_le(a, b)),
{
    let le = |a: Seq<u8>, b: Seq<u8>| bytes_le(a, b);
    assert forall|a: Seq<u8>| #[trigger] le(a, a) by {
        lemma_bytes_le_reflexive(a);
    }
    assert forall|a: Seq<u8>, b: Seq<u8>| #[trigger] le(a, b) && #[trigger] le(b, a) implies a == b by {
        lemma_bytes_le_antisymmetric(a, b);
    }
    assert forall|a: Seq<u8>, b: Seq<u8>, c: Seq<u8>| #[trigger] le(a, b) && #[trigger] le(b, c) implies le(a, c) by {
        lemma_bytes_le_transitive(a, b, c);
    }
    assert forall|a: Seq<u8>, b: Seq<u8>| #[trigger] le(a, b) || #[trigger] le(b, a) by {
        lemma_bytes_le_total(a, b);
    }
}

fn less_or_equal(a: &Vec<u8>, b: &Vec<u8>) -> (r: bool)
    ensures
        r == bytes_le(a@, b@),
{
    let mut k: usize = 0;
    assert(a@.skip(0) == a@ && b@.skip(0) == b@);
    while k < a.len() && k < b.len() && a[k] == b[k]
        invariant
            k <= a@.len(),
            k <= b@.len(),
            bytes_le(a@, b@) == bytes_le(a@.skip(k as int), b@.skip(k as int)),
        decreases a.len() - k,
    {
        assert(a@.skip(k as int).drop_first() == a@.skip(k + 1));
        assert(b@.skip(k as int).drop_first() == b@.skip(k + 1));
        k = k + 1;
    }
    if k == a.len() {
        true
    } else if k == b.len() {
        false
    } else {
        a[k] < b[k]
    }
}

/// Two sequences sorted by the same total order that hold the same items
/// are equal.
proof fn lemma_sorted_unique(a: Seq<Seq<u8>>, b: Seq<Seq<u8>>)
    requires
        total_ordering(|x: Seq<u8>, y: Seq<u8>| bytes_le(x, y)),
        sorted_by(a, |x: Seq<u8>, y: Seq<u8>| bytes_le(x, y)),
        sorted_by(b, |x: Seq<u8>, y: Seq<u8>| bytes_le(x, y)),
        a.to_multiset() == b.to_multiset(),
    ensures
        a == b,
    decreases a.len(),
{
    broadcast use vstd::seq_lib::group_to_multiset_ensures;

    let le = |x: Seq<u8>, y: Seq<u8>| bytes_le(x, y);
    assert(a.len() == a.to_multiset().len());
    assert(b.len() == b.to_multiset().len());
    if a.len() == 0 {
        assert(a =~= b);
    } else {
        assert(a.to_multiset().count(a[0]) > 0);
        assert(b.contains(a[0]));
        let k = choose|k: int| 0 <= k < b.len() && b[k] == a[0];
        assert(b.to_multiset().count(b[0]) > 0);
        assert(a.contains(b[0]));
        let k2 = choose|k: int| 0 <= k < a.len() && a[k] == b[0];
        if k2 > 0 {
            assert(le(a[0], a[k2]));
        }
        if k > 0 {
            assert(le(b[0], b[k]));
        }
        assert(le(a[0], b[0]) && le(b[0], a[0]));
        assert(a[0] == b[0]);
        let ta = a.drop_first();
        let tb = b.drop_first();
        assert(a.remove(0) == ta);
        assert(b.remove(0) == tb);
        assert(ta.to_multiset() == a.to_multiset().remove(a[0]));
        assert(tb.to_multiset() == b.to_multiset().remove(b[0]));
        assert forall|i: int, j: int| 0 <= i < j < ta.len() implies #[trigger] le(ta[i], ta[j]) by {
            assert(le(a[i + 1], a[j + 1]));
        }
        assert forall|i: int, j: int| 0 <= i < j < tb.len() implies #[trigger] le(tb[i], tb[j]) by {
            assert(le(b[i + 1], b[j + 1]));
        }
        lemma_sorted_unique(ta, tb);
        assert forall|i: int| 0 <= i < a.len() implies a[i] == b[i] by {
            if i > 0 {
                assert(a[i] == ta[i - 1]);
                assert(b[i] == tb[i - 1]);
            }
        }
        assert(a =~= b);
    }
}


proof fn lemma_insert_multiset(s: Seq<Seq<u8>>, j: int, x: Seq<u8>)
    requires
        0 <= j <= s.len(),
    ensures
        s.insert(j, x).to_multiset() == s.to_multiset().insert(x),
{
    broadcast use vstd::seq_lib::group_to_multiset_ensures;

    let t = s.insert(j, x);
    assert(t.remove(j) =~= s);
    assert(t[j] == x);
    assert(t.to_multiset().remove(x) == s.to_multiset());
    assert(t.contains(x));
    assert(t.to_multiset().count(x) > 0);
    assert(t.to_multiset() =~= s.to_multiset().insert(x));
}

/// The byte sequences held by a vector of byte vectors.
pub open spec fn deep(v: Seq<Vec<u8>>) -> Seq<Seq<u8>> {
    v.map_values(|x: Vec<u8>| x@)
}

/// One row a list ETag is derived from: its slug (or config key), its
/// version, and the text of its last update time.
pub struct EtagRow {
    pub key: String,
    pub version: i32,
    pub updated: String,
}

/// The text a row contributes: `<key>:<version>:<updated>`.
pub open spec fn row_material(r: EtagRow) -> Seq<char> {
    r.key@ + ":"@ + decimal(r.version as int) + ":"@ + r.updated@
}

/// Rows with the same key and update time but different versions
/// contribute different texts to a list ETag.
pub proof fn lemma_row_material_tells_versions_apart(r1: EtagRow, r2: EtagRow)
    requires
        r1.key@ == r2.key@,
        r1.updated@ == r2.updated@,
        r1.version != r2.version,
    ensures
        row_material(r1) != row_material(r2),
{
    lemma_decimal_reads_back(r1.version as int, r2.version as int);
    let f = |r: EtagRow| (r.key@ + ":"@) + decimal(r.version as int) + (":"@ + r.updated@);
    assert(row_material(r1) =~= f(r1));
    assert(row_material(r2) =~= f(r2));
    if row_material(r1) == row_material(r2) {
        lemma_same_frame(r1.key@ + ":"@, decimal(r1.version as int), decimal(r2.version as int), ":"@ + r1.updated@);
    }
}

/// The UTF-8 bytes of a row's text.
pub open spec fn row_bytes(r: EtagRow) -> Seq<u8> {
    encode_utf8(row_material(r))
}

/// The rows' texts, as bytes, in sorted order.
pub open spec fn sorted_materials(rows: Seq<EtagRow>) -> Seq<Seq<u8>> {
    rows.map_values(|r: EtagRow| row_bytes(r)).sort_by(|a: Seq<u8>, b: Seq<u8>| bytes_le(a, b))
}

/// The ETag of a list: `"<label>-<hex SHA-256 of the rows' texts
/// concatenated in sorted order>"`, quotes included.
pub open spec fn list_etag_spec(label: Seq<char>, rows: Seq<EtagRow>) -> Seq<char> {
    "\""@ + label + "-"@ + hex_lower(sha256(sorted_materials(rows).flatten())) + "\""@
}

fn row_material_bytes(row: &EtagRow) -> (b: Vec<u8>)
    ensures
        b@ == row_bytes(*row),
{
    let mut text = owned(row.key.as_str());
    push_str(&mut text, ":");
    push_decimal(&mut text, row.version as i64);
    push_str(&mut text, ":");
    push_str(&mut text, row.updated.as_str());
    text.as_str().as_bytes_vec()
}

/// The ETag of a list of rows (see `list_etag_spec`): it changes whenever a
/// row's key, version or update time does, and not with the rows' order.
pub fn list_etag(label: &str, rows: &Vec<EtagRow>) -> (r: String)
    ensures
        r@ == list_etag_spec(label@, rows@),
        r@.len() == label@.len() + 67,
{
    broadcast use vstd::seq_lib::group_to_multiset_ensures;

    let ghost le = |a: Seq<u8>, b: Seq<u8>| bytes_le(a, b);
    let ghost mats = rows@.map_values(|r: EtagRow| row_bytes(r));
    proof {
        lemma_bytes_le_total_ordering();
    }
    let mut sorted: Vec<Vec<u8>> = Vec::new();
    let mut i: usize = 0;
    while i < rows.len()
        invariant
            i <= rows@.len(),
            mats == rows@.map_values(|r: EtagRow| row_bytes(r)),
            total_ordering(le),
            le == (|a: Seq<u8>, b: Seq<u8>| bytes_le(a, b)),
            sorted_by(deep(sorted@), le),
            deep(sorted@).to_multiset() == mats.take(i as int).to_multiset(),
        decreases rows.len() - i,
    {
        let m = row_material_bytes(&rows[i]);
        let mut j: usize = 0;
        while j < sorted.len() && less_or_equal(&sorted[j], &m)
            invariant
                j <= sorted@.len(),
                forall|k: int| 0 <= k < j ==> bytes_le(#[trigger] deep(sorted@)[k], m@),
            decreases sorted.len() - j,
        {
            j = j + 1;
        }
        let ghost d = deep(sorted@);
        sorted.insert(j, m);
        proof {
            let d2 = deep(sorted@);
            assert(d2 =~= d.insert(j as int, m@));
            if j < d.len() {
                lemma_bytes_le_total(d[j as int], m@);
            }
            assert forall|p: int, q: int| 0 <= p < q < d2.len() implies #[trigger] le(d2[p], d2[q]) by {
                if q < j {
                    assert(le(d[p], d[q]));
                } else if q == j {
                    assert(bytes_le(d[p], m@));
                } else if p < j {
                    assert(bytes_le(d[p], m@));
                    assert(le(d[j as int], d[q - 1]) || j as int == q - 1);
                    lemma_bytes_le_reflexive(d[j as int]);
                    lemma_bytes_le_transitive(m@, d[j as int], d[q - 1]);
                    lemma_bytes_le_transitive(d[p], m@, d[q - 1]);
                } else if p == j {
                    assert(le(d[j as int], d[q - 1]) || j as int == q - 1);
                    lemma_bytes_le_reflexive(d[j as int]);
                    lemma_bytes_le_transitive(m@, d[j as int], d[q - 1]);
                } else {
                    assert(le(d[p - 1], d[q - 1]));
                }
            }
            lemma_insert_multiset(d, j as int, m@);
            assert(mats[i as int] == m@);
            assert(mats.take(i + 1) =~= mats.take(i as int).push(mats[i as int]));
            vstd::seq_lib::to_multiset_build(mats.take(i as int), mats[i as int]);
        }
        i = i + 1;
    }
    proof {
        assert(mats.take(rows@.len() as int) == mats);
        mats.lemma_sort_by_ensures(le);
        lemma_sorted_unique(deep(sorted@), mats.sort_by(le));
    }
    let mut all: Vec<u8> = Vec::new();
    let mut k: usize = 0;
    while k < sorted.len()
        invariant
            k <= sorted@.len(),
            all@ == deep(sorted@).take(k as int).flatten_alt(),
        decreases sorted.len() - k,
    {
        let part = &sorted[k];
        let ghost before = all@;
        let mut b: usize = 0;
        while b < part.len()
            invariant
                b <= part@.len(),
                all@ == before + part@.take(b as int),
            decreases part.len() - b,
        {
            all.push(part[b]);
            b = b + 1;
            assert(all@ == before + part@.take(b as int));
        }
        assert(part@.take(part@.len() as int) == part@);
        assert(deep(sorted@).take(k + 1).drop_last() == deep(sorted@).take(k as int));
        k = k + 1;
    }
    proof {
        assert(deep(sorted@).take(sorted@.len() as int) == deep(sorted@));
        deep(sorted@).lemma_flatten_and_flatten_alt_are_equivalent();
    }
    let digest = crate::digest::sha256_digest(all.as_slice());
    proof {
        crate::digest::lemma_hex_lower_len(digest@);
        reveal_strlit("\"");
        reveal_strlit("-");
    }
    let hex = crate::digest::hex_encode(digest.as_slice());
    let mut out = owned("\"");
    push_str(&mut out, label);
    push_str(&mut out, "-");
    push_str(&mut out, hex.as_str());
    push_str(&mut out, "\"");
    out
}


/// Mapping two sequences that hold the same items gives two sequences that
/// hold the same items.
proof fn lemma_map_multiset<A, B>(a: Seq<A>, b: Seq<A>, f: spec_fn(A) -> B)
    requires
        a.to_multiset() == b.to_multiset(),
    ensures
        a.map_values(f).to_multiset() == b.map_values(f).to_multiset(),
    decreases a.len(),
{
    broadcast use vstd::seq_lib::group_to_multiset_ensures;

    assert(a.len() == a.to_multiset().len());
    assert(b.len() == b.to_multiset().len());
    if a.len() == 0 {
        assert(a.map_values(f) =~= b.map_values(f));
    } else {
        assert(a.to_multiset().count(a[0]) > 0);
        assert(b.contains(a[0]));
        let k = choose|k: int| 0 <= k < b.len() && b[k] == a[0];
        let ta = a.remove(0);
        let tb = b.remove(k);
        assert(ta.to_multiset() == a.to_multiset().remove(a[0]));
        assert(tb.to_multiset() == b.to_multiset().remove(b[k]));
        lemma_map_multiset(ta, tb, f);
        let fa = a.map_values(f);
        let fb = b.map_values(f);
        assert(fa.remove(0) =~= ta.map_values(f));
        assert(fb.remove(k) =~= tb.map_values(f));
        assert(fa.to_multiset().remove(fa[0]) == ta.map_values(f).to_multiset());
        assert(fb.to_multiset().remove(fb[k]) == tb.map_values(f).to_multiset());
        assert(fa[0] == fb[k]);
        assert(fa.contains(fa[0]));
        assert(fb.contains(fb[k]));
        assert(fa.to_multiset().count(fa[0]) > 0);
        assert(fb.to_multiset().count(fb[k]) > 0);
        let y = fa[0];
        let xm = fa.to_multiset();
        let ym = fb.to_multiset();
        assert(xm.remove(y) == ym.remove(y));
        assert forall|z: B| xm.count(z) == ym.count(z) by {
            assert(xm.remove(y).count(z) == ym.remove(y).count(z));
            if z == y {
                assert(xm.remove(y).count(z) == xm.count(z) - 1);
                assert(ym.remove(y).count(z) == ym.count(z) - 1);
            } else {
                assert(xm.remove(y).count(z) == xm.count(z));
                assert(ym.remove(y).count(z) == ym.count(z));
            }
        }
        assert(xm =~= ym);
    }
}

/// Reordering the rows of a list leaves its ETag unchanged: two lists that
/// hold the same rows, in any order, have the same ETag.
pub proof fn lemma_list_etag_ignores_order(label: Seq<char>, rows1: Seq<EtagRow>, rows2: Seq<EtagRow>)
    requires
        rows1.to_multiset() == rows2.to_multiset(),
    ensures
        list_etag_spec(label, rows1) == list_etag_spec(label, rows2),
{
    let le = |a: Seq<u8>, b: Seq<u8>| bytes_le(a, b);
    let f = |r: EtagRow| row_bytes(r);
    let m1 = rows1.map_values(f);
    let m2 = rows2.map_values(f);
    lemma_map_multiset(rows1, rows2, f);
    lemma_bytes_le_total_ordering();
    m1.lemma_sort_by_ensures(le);
    m2.lemma_sort_by_ensures(le);
    lemma_sorted_unique(m1.sort_by(le), m2.sort_by(le));
}

} // verus!
