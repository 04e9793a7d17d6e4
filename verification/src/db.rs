//! Database addressing: the default database URL, the server URL and
//! database name a connection URL splits into, and the query behind each
//! content table's slug/version listing.

use crate::text::{chars_of, string_of};
use vstd::prelude::*;

verus! {

broadcast use vstd::string::group_string_axioms;

/// The default local development database.
pub const DEFAULT_DATABASE_URL: &'static str = "postgresql://unuslumen@localhost:5432/guru_server";

/// The position of the last `c` in `s`.
pub open spec fn last_index_of(s: Seq<char>, c: char) -> Option<int>
    decreases s.len(),
{
    if s.len() == 0 {
        None
    } else if s[s.len() - 1] == c {
        Some(s.len() - 1)
    } else {
        last_index_of(s.drop_last(), c)
    }
}

fn find_last(cs: &Vec<char>, c: char) -> (r: Option<usize>)
    ensures
        r is None <==> last_index_of(cs@, c) is None,
        r matches Some(i) ==> last_index_of(cs@, c) == Some(i as int) && i < cs@.len(),
{
    let mut k: usize = cs.len();
    assert(cs@.take(k as int) == cs@);
    while k > 0
        invariant
            k <= cs@.len(),
            last_index_of(cs@, c) == last_index_of(cs@.take(k as int), c),
        decreases k,
    {
        assert(cs@.take(k as int).drop_last() == cs@.take(k - 1));
        if cs[k - 1] == c {
            assert(last_index_of(cs@.take(k as int), c) == Some(k - 1));
            return Some(k - 1);
        }
        k = k - 1;
    }
    None
}

/// The server part of a connection URL: everything before its last `/`;
/// the whole URL when it has none.
pub open spec fn server_url_spec(url: Seq<char>) -> Seq<char> {
    match last_index_of(url, '/') {
        Some(i) => url.take(i),
        None => url,
    }
}

/// The URL to connect to the server with when the database itself may not
/// exist yet.
pub fn connection_url_without_db(url: &str) -> (r: String)
    ensures
        r@ == server_url_spec(url@),
{
    let cs = chars_of(url);
    match find_last(&cs, '/') {
        Some(i) => {
            let mut kept: Vec<char> = Vec::new();
            let mut k: usize = 0;
            while k < i
                invariant
                    i < cs@.len(),
                    k <= i,
                    kept@ == cs@.take(k as int),
                decreases i - k,
            {
                kept.push(cs[k]);
                k = k + 1;
                assert(kept@ == cs@.take(k as int));
            }
            string_of(&kept)
        },
        None => string_of(&cs),
    }
}

/// `s` without its trailing `?` characters (`trim_end_matches('?')`).
pub open spec fn trim_end_questions(s: Seq<char>) -> Seq<char>
    decreases s.len(),
{
    if s.len() > 0 && s[s.len() - 1] == '?' {
        trim_end_questions(s.drop_last())
    } else {
        s
    }
}

/// The database name in a connection URL: after trailing `?` are dropped,
/// the text after the last `/` (all of it when there is none); there is no
/// name when that text is empty.
pub open spec fn database_name_spec(url: Seq<char>) -> Option<Seq<char>> {
    let t = trim_end_questions(url);
    let name = match last_index_of(t, '/') {
        Some(i) => t.skip(i + 1),
        None => t,
    };
    if name.len() == 0 {
        None
    } else {
        Some(name)
    }
}

/// The database a connection URL names, or the message
/// `cannot parse database name from <url>`.
pub fn database_name(url: &str) -> (r: Result<String, String>)
    ensures
        match database_name_spec(url@) {
            Some(name) => r matches Ok(n) && n@ == name,
            None => r matches Err(e) && e@ == "cannot parse database name from "@ + url@,
        },
{
    let cs = chars_of(url);
    let mut end: usize = cs.len();
    assert(cs@.take(end as int) == cs@);
    while end > 0 && cs[end - 1] == '?'
        invariant
            end <= cs@.len(),
            trim_end_questions(cs@) == trim_end_questions(cs@.take(end as int)),
        decreases end,
    {
        assert(cs@.take(end as int).drop_last() == cs@.take(end - 1));
        end = end - 1;
    }
    let mut trimmed: Vec<char> = Vec::new();
    let mut k: usize = 0;
    while k < end
        invariant
            end <= cs@.len(),
            k <= end,
            trimmed@ == cs@.take(k as int),
        decreases end - k,
    {
        trimmed.push(cs[k]);
        k = k + 1;
        assert(trimmed@ == cs@.take(k as int));
    }
    assert(trimmed@ == trim_end_questions(url@));
    let start: usize = match find_last(&trimmed, '/') {
        Some(i) => i + 1,
        None => 0,
    };
    let mut name: Vec<char> = Vec::new();
    let mut j: usize = start;
    while j < trimmed.len()
        invariant
            start <= j <= trimmed@.len(),
            name@ == trimmed@.subrange(start as int, j as int),
        decreases trimmed.len() - j,
    {
        name.push(trimmed[j]);
        j = j + 1;
        assert(name@ == trimmed@.subrange(start as int, j as int));
    }
    assert(trimmed@.skip(start as int) == trimmed@.subrange(start as int, trimmed@.len() as int));
    if name.len() == 0 {
        let mut message = crate::text::owned("cannot parse database name from ");
        crate::text::push_str(&mut message, url);
        Err(message)
    } else {
        Ok(string_of(&name))
    }
}

/// The content tables that have a slug/version listing.
pub open spec fn is_content_table(table: Seq<char>) -> bool {
    table == "prompt_sections"@ || table == "skills"@ || table == "tools"@ || table == "agents"@
        || table == "canvas_packs"@
}

/// The query listing the slug and version of every active row of a content
/// table, by slug. Agents carry no version and list as version 1.
pub fn slug_versions_sql(table: &str) -> (sql: &'static str)
    requires
        is_content_table(table@),
    ensures
        table@ == "prompt_sections"@ ==> sql@ == "SELECT slug, version FROM prompt_sections WHERE is_active ORDER BY slug"@,
        table@ == "skills"@ ==> sql@ == "SELECT slug, version FROM skills WHERE is_active ORDER BY slug"@,
        table@ == "tools"@ ==> sql@ == "SELECT slug, version FROM tools WHERE is_active ORDER BY slug"@,
        table@ == "agents"@ ==> sql@ == "SELECT slug, 1 AS version FROM agents WHERE is_active ORDER BY slug"@,
        table@ == "canvas_packs"@ ==> sql@ == "SELECT slug, version FROM canvas_packs WHERE is_active ORDER BY slug"@,
{
    proof {
        reveal_strlit("prompt_sections");
        reveal_strlit("skills");
        reveal_strlit("tools");
        reveal_strlit("agents");
        reveal_strlit("canvas_packs");
        assert("prompt_sections"@.len() == 15);
        assert("skills"@.len() == 6 && "skills"@[0] == 's');
        assert("tools"@.len() == 5);
        assert("agents"@.len() == 6 && "agents"@[0] == 'a');
        assert("canvas_packs"@.len() == 12);
    }
    if crate::text::str_eq(table, "prompt_sections") {
        "SELECT slug, version FROM prompt_sections WHERE is_active ORDER BY slug"
    } else if crate::text::str_eq(table, "skills") {
        "SELECT slug, version FROM skills WHERE is_active ORDER BY slug"
    } else if crate::text::str_eq(table, "tools") {
        "SELECT slug, version FROM tools WHERE is_active ORDER BY slug"
    } else if crate::text::str_eq(table, "agents") {
        "SELECT slug, 1 AS version FROM agents WHERE is_active ORDER BY slug"
    } else {
        "SELECT slug, version FROM canvas_packs WHERE is_active ORDER BY slug"
    }
}

} // verus!
