//! The community submission pipeline.
//!
//! An author submits a JSON payload for one content type; it is checked for
//! shape and for personal fields before it is queued. An approver accepts a
//! pending submission by promoting its payload into the catalog row of its
//! content type, or rejects it. This module decides every step that does not
//! touch the database: what is refused, with which status and message, and
//! which catalog row a payload becomes.

use crate::auth::{bad_request, is_refusal, refusal, HttpError, STATUS_BAD_REQUEST, STATUS_CONFLICT, STATUS_PAYLOAD_TOO_LARGE};
use crate::json::{opt_deref, opt_view, string_member, JsonValue};
use crate::slug::{is_valid_slug, valid_slug};
use crate::text::{concat3, filter_non_empty, non_empty, owned, push_str, str_eq, text_or};
use vstd::prelude::*;

verus! {

broadcast use vstd::string::group_string_axioms;

/// The largest submission body accepted, in bytes (2 MiB of JSON).
pub const MAX_SUBMISSION_BYTES: usize = 2097152;

/// The content types a submission may carry.
pub open spec fn is_allowed_content_type(t: Seq<char>) -> bool {
    t == "skill"@ || t == "tool"@ || t == "agent"@ || t == "canvas_pack"@
}

fn allowed_content_type(t: &str) -> (r: bool)
    ensures
        r == is_allowed_content_type(t@),
{
    str_eq(t, "skill") || str_eq(t, "tool") || str_eq(t, "agent") || str_eq(t, "canvas_pack")
}

/// The checks made before a submission body is parsed: the content type
/// must be one of `skill`, `tool`, `agent`, `canvas_pack` (else 400), and
/// the body at most 2 MiB (else 413).
pub fn check_submission_envelope(content_type: &str, body_len: usize) -> (r: Result<(), HttpError>)
    ensures
        !is_allowed_content_type(content_type@) ==> (r matches Err(e) && is_refusal(
            e,
            STATUS_BAD_REQUEST,
            "content_type must be one of skill, tool, agent, canvas_pack"@,
        )),
        is_allowed_content_type(content_type@) && body_len > MAX_SUBMISSION_BYTES ==> (r matches Err(e)
            && is_refusal(e, STATUS_PAYLOAD_TOO_LARGE, "submission exceeds 2MB; submit media packs by URL"@)),
        is_allowed_content_type(content_type@) && body_len <= MAX_SUBMISSION_BYTES ==> r is Ok,
{
    if !allowed_content_type(content_type) {
        return Err(bad_request("content_type must be one of skill, tool, agent, canvas_pack"));
    }
    if body_len > MAX_SUBMISSION_BYTES {
        return Err(refusal(STATUS_PAYLOAD_TOO_LARGE, "submission exceeds 2MB; submit media packs by URL"));
    }
    Ok(())
}

/// Whether `needle` occurs as a contiguous run of bytes in `hay`.
pub open spec fn contains_bytes(hay: Seq<u8>, needle: Seq<u8>) -> bool {
    exists|i: int| 0 <= i && i + needle.len() <= hay.len() && #[trigger] hay.subrange(i, i + needle.len()) == needle
}

/// The bytes of `"email":` — an `email` key in a JSON object.
pub open spec fn email_key() -> Seq<u8> {
    seq![34u8, 101u8, 109u8, 97u8, 105u8, 108u8, 34u8, 58u8]
}

/// The bytes of `@gmail` — the start of a webmail address.
pub open spec fn gmail_marker() -> Seq<u8> {
    seq![64u8, 103u8, 109u8, 97u8, 105u8, 108u8]
}

/// A body holds personal fields when it has an `"email":` key or an
/// `@gmail` address anywhere in it.
pub open spec fn holds_personal_fields(body: Seq<u8>) -> bool {
    contains_bytes(body, email_key()) || contains_bytes(body, gmail_marker())
}

fn find_bytes(hay: &[u8], needle: &[u8]) -> (r: bool)
    requires
        needle@.len() > 0,
    ensures
        r == contains_bytes(hay@, needle@),
{
    let n = needle.len();
    if hay.len() < n {
        assert forall|i: int| 0 <= i && i + needle@.len() <= hay@.len() implies #[trigger] hay@.subrange(i, i + needle@.len()) != needle@ by {}
        return false;
    }
    let last = hay.len() - n;
    let mut i: usize = 0;
    while i <= last
        invariant
            n == needle@.len(),
            last + n == hay@.len(),
            forall|k: int| 0 <= k < i ==> #[trigger] hay@.subrange(k, k + n) != needle@,
        decreases last + 1 - i,
    {
        let mut j: usize = 0;
        while j < n && hay[i + j] == needle[j]
            invariant
                hay@.len() == hay.len(),
                i <= last,
                n == needle@.len(),
                last + n == hay@.len(),
                j <= n,
                forall|m: int| 0 <= m < j ==> hay@[i + m] == needle@[m],
            decreases n - j,
        {
            j = j + 1;
        }
        if j == n {
            assert(hay@.subrange(i as int, i + n) =~= needle@);
            return true;
        }
        assert(hay@.subrange(i as int, i + n)[j as int] != needle@[j as int]);
        i = i + 1;
    }
    assert forall|k: int| 0 <= k && k + needle@.len() <= hay@.len() implies #[trigger] hay@.subrange(k, k + needle@.len()) != needle@ by {
        assert(k < i);
    }
    false
}

/// Whether a submission body holds personal fields (see
/// `holds_personal_fields`).
pub fn has_personal_fields(body: &[u8]) -> (r: bool)
    ensures
        r == holds_personal_fields(body@),
{
    let email: [u8; 8] = [34u8, 101u8, 109u8, 97u8, 105u8, 108u8, 34u8, 58u8];
    let gmail: [u8; 6] = [64u8, 103u8, 109u8, 97u8, 105u8, 108u8];
    assert(email@ == email_key());
    assert(gmail@ == gmail_marker());
    find_bytes(body, email.as_slice()) || find_bytes(body, gmail.as_slice())
}

/// The fields a submission is queued with.
#[derive(Debug)]
pub struct SubmissionFields<'a> {
    pub slug: &'a str,
    pub name: &'a str,
    /// The non-empty `author_label`, if the payload has one.
    pub author_label: Option<&'a str>,
}

/// What a parsed submission payload is answered: the slug, name and
/// author label it is queued with, or the message of the 400 refusal.
pub open spec fn submission_verdict(body: Seq<u8>, p: JsonValue) -> Result<
    (Seq<char>, Seq<char>, Option<Seq<char>>),
    Seq<char>,
> {
    match p.str_field("slug"@) {
        None => Err("payload missing 'slug'"@),
        Some(slug) => if !is_valid_slug(slug) {
            Err("slug must be lowercase words joined by single dashes"@)
        } else {
            match p.str_field("name"@) {
                None => Err("payload missing 'name'"@),
                Some(name) => if holds_personal_fields(body) {
                    Err("submissions must not contain personal fields; keep them publishable-only"@)
                } else {
                    Ok((slug, name, non_empty(p.str_field("author_label"@))))
                },
            }
        },
    }
}

/// The checks made on a submission once its body was parsed: a JSON error
/// is refused with 400 `invalid JSON: <error>`; otherwise the payload is
/// answered as `submission_verdict` says (every refusal there is a 400).
pub fn check_submission_payload<'a>(body: &[u8], parsed: &'a Result<JsonValue, String>) -> (r: Result<
    SubmissionFields<'a>,
    HttpError,
>)
    ensures
        match parsed {
            Err(msg) => r matches Err(e) && is_refusal(e, STATUS_BAD_REQUEST, "invalid JSON: "@ + msg@),
            Ok(p) => match (submission_verdict(body@, *p), r) {
                (Ok((slug, name, author)), Ok(f)) => f.slug@ == slug && f.name@ == name && opt_view(
                    f.author_label,
                ) == author,
                (Err(msg), Err(e)) => is_refusal(e, STATUS_BAD_REQUEST, msg),
                _ => false,
            },
        },
{
    let payload = match parsed {
        Err(msg) => {
            let mut m = owned("invalid JSON: ");
            push_str(&mut m, msg.as_str());
            return Err(HttpError { status: STATUS_BAD_REQUEST, message: m });
        },
        Ok(p) => p,
    };
    let slug = match payload.get_str("slug") {
        None => return Err(bad_request("payload missing 'slug'")),
        Some(s) => s,
    };
    if !valid_slug(slug) {
        return Err(bad_request("slug must be lowercase words joined by single dashes"));
    }
    let name = match payload.get_str("name") {
        None => return Err(bad_request("payload missing 'name'")),
        Some(s) => s,
    };
    if has_personal_fields(body) {
        return Err(bad_request("submissions must not contain personal fields; keep them publishable-only"));
    }
    let author_label = filter_non_empty(payload.get_str("author_label"));
    Ok(SubmissionFields { slug, name, author_label })
}


// ---------------------------------------------------------------------------
// promotion: payload -> catalog row
// ---------------------------------------------------------------------------

/// The message of a promotion refused for a missing string field.
pub open spec fn missing_payload_field(key: Seq<char>) -> Seq<char> {
    "payload missing '"@ + key + "'"@
}

/// `payload_str`: the string field `key` of a payload, or the message
/// `payload missing '<key>'`.
pub fn payload_str<'a>(payload: &'a JsonValue, key: &str) -> (r: Result<&'a str, String>)
    ensures
        match payload.str_field(key@) {
            Some(s) => r matches Ok(x) && x@ == s,
            None => r matches Err(e) && e@ == missing_payload_field(key@),
        },
{
    match payload.get_str(key) {
        Some(s) => Ok(s),
        None => Err(concat3("payload missing '", key, "'")),
    }
}

/// `o.unwrap_or(d)` on JSON values.
pub open spec fn json_or(o: Option<JsonValue>, d: JsonValue) -> JsonValue {
    match o {
        Some(v) => v,
        None => d,
    }
}

/// `payload_json_or`: the member `key` of a payload, or `fallback` when it
/// has none.
pub fn payload_json_or<'a>(payload: &'a JsonValue, key: &str, fallback: &'a JsonValue) -> (r: &'a JsonValue)
    ensures
        *r == json_or(payload.spec_get(key@), *fallback),
{
    match payload.get(key) {
        Some(v) => v,
        None => fallback,
    }
}

/// A skill catalog row to insert or update by slug.
#[derive(Debug)]
pub struct SkillDraft<'a> {
    pub slug: &'a str,
    pub name: &'a str,
    pub description: &'a str,
    pub when_to_use: &'a str,
    /// The `allowed_tools` JSON; `None` stands for the empty array.
    pub allowed_tools: Option<&'a JsonValue>,
    pub content: &'a str,
    pub author_label: Option<&'a str>,
}

/// A tool catalog row to insert or update by slug.
#[derive(Debug)]
pub struct ToolDraft<'a> {
    pub slug: &'a str,
    pub name: &'a str,
    pub description: &'a str,
    pub category: &'a str,
    /// The `parameters` JSON; `None` stands for the empty array.
    pub parameters: Option<&'a JsonValue>,
    /// The `permissions` JSON; `None` stands for the empty array.
    pub permissions: Option<&'a JsonValue>,
    pub execution_location: &'a str,
    pub code: &'a str,
    pub author_label: Option<&'a str>,
}

/// An agent catalog row to insert or update by slug.
#[derive(Debug)]
pub struct AgentDraft<'a> {
    pub slug: &'a str,
    pub name: &'a str,
    pub role_description: &'a str,
    pub system_prompt: &'a str,
    /// The `tool_permissions` JSON; `None` stands for the empty array.
    pub tool_permissions: Option<&'a JsonValue>,
    pub author_label: Option<&'a str>,
}

/// One element of a canvas pack.
#[derive(Debug)]
pub struct ElementDraft {
    pub sort_order: i32,
    pub element_type: String,
    pub name: String,
    pub text_content: Option<String>,
    pub media_path: Option<String>,
}

/// A canvas pack catalog row, with the elements that replace its old ones.
#[derive(Debug)]
pub struct PackDraft<'a> {
    pub slug: &'a str,
    pub name: &'a str,
    pub description: &'a str,
    pub box_height_dp: i32,
    pub max_elements: i32,
    pub background_colour: Option<&'a str>,
    pub elements: Vec<ElementDraft>,
    pub author_label: Option<&'a str>,
}

/// The catalog row an approved payload becomes.
#[derive(Debug)]
pub enum Promotion<'a> {
    Skill(SkillDraft<'a>),
    Tool(ToolDraft<'a>),
    Agent(AgentDraft<'a>),
    CanvasPack(PackDraft<'a>),
}

/// The text of an optional owned string.
pub open spec fn opt_string_view(o: Option<String>) -> Option<Seq<char>> {
    match o {
        Some(s) => Some(s@),
        None => None,
    }
}

/// Whether `r` is the refusal for the missing field `key`.
pub open spec fn refused_missing(r: Result<Promotion, String>, key: Seq<char>) -> bool {
    r matches Err(e) && e@ == missing_payload_field(key)
}

/// The skill row a submitted payload becomes.
pub open spec fn submitted_skill(p: JsonValue, d: SkillDraft) -> bool {
    &&& d.slug@ == p.str_field("slug"@)->0
    &&& d.name@ == p.str_field("name"@)->0
    &&& d.description@ == p.str_field("description"@)->0
    &&& d.content@ == p.str_field("content"@)->0
    &&& d.when_to_use@ == text_or(p.str_field("when_to_use"@), ""@)
    &&& opt_deref(d.allowed_tools) == p.spec_get("allowed_tools"@)
    &&& opt_view(d.author_label) == non_empty(p.str_field("author_label"@))
}

/// A skill payload needs `slug`, `name`, `description` and `content`
/// strings, refused in that order.
pub open spec fn skill_promotion(p: JsonValue, r: Result<Promotion, String>) -> bool {
    if p.str_field("slug"@) is None {
        refused_missing(r, "slug"@)
    } else if p.str_field("name"@) is None {
        refused_missing(r, "name"@)
    } else if p.str_field("description"@) is None {
        refused_missing(r, "description"@)
    } else if p.str_field("content"@) is None {
        refused_missing(r, "content"@)
    } else {
        r matches Ok(Promotion::Skill(d)) && submitted_skill(p, d)
    }
}

/// The skill row for an approved skill submission.
pub fn promote_skill<'a>(payload: &'a JsonValue) -> (r: Result<Promotion<'a>, String>)
    ensures
        skill_promotion(*payload, r),
{
    let slug = payload_str(payload, "slug")?;
    let name = payload_str(payload, "name")?;
    let description = payload_str(payload, "description")?;
    let content = payload_str(payload, "content")?;
    let when_to_use = match payload.get_str("when_to_use") {
        Some(s) => s,
        None => "",
    };
    let allowed_tools = payload.get("allowed_tools");
    let author_label = filter_non_empty(payload.get_str("author_label"));
    Ok(Promotion::Skill(SkillDraft { slug, name, description, when_to_use, allowed_tools, content, author_label }))
}

/// The tool row a submitted payload becomes.
pub open spec fn submitted_tool(p: JsonValue, d: ToolDraft) -> bool {
    &&& d.slug@ == p.str_field("slug"@)->0
    &&& d.name@ == p.str_field("name"@)->0
    &&& d.description@ == p.str_field("description"@)->0
    &&& d.category@ == text_or(p.str_field("category"@), "community"@)
    &&& opt_deref(d.parameters) == p.spec_get("parameters"@)
    &&& opt_deref(d.permissions) == p.spec_get("permissions"@)
    &&& d.execution_location@ == text_or(p.str_field("execution_location"@), "on-device"@)
    &&& d.code@ == text_or(p.str_field("code"@), ""@)
    &&& opt_view(d.author_label) == non_empty(p.str_field("author_label"@))
}

/// A tool payload needs `slug`, `name` and `description` strings.
pub open spec fn tool_promotion(p: JsonValue, r: Result<Promotion, String>) -> bool {
    if p.str_field("slug"@) is None {
        refused_missing(r, "slug"@)
    } else if p.str_field("name"@) is None {
        refused_missing(r, "name"@)
    } else if p.str_field("description"@) is None {
        refused_missing(r, "description"@)
    } else {
        r matches Ok(Promotion::Tool(d)) && submitted_tool(p, d)
    }
}

/// The tool row for an approved tool submission.
pub fn promote_tool<'a>(payload: &'a JsonValue) -> (r: Result<Promotion<'a>, String>)
    ensures
        tool_promotion(*payload, r),
{
    let slug = payload_str(payload, "slug")?;
    let name = payload_str(payload, "name")?;
    let description = payload_str(payload, "description")?;
    let category = match payload.get_str("category") {
        Some(s) => s,
        None => "community",
    };
    let parameters = payload.get("parameters");
    let permissions = payload.get("permissions");
    let execution_location = match payload.get_str("execution_location") {
        Some(s) => s,
        None => "on-device",
    };
    let code = match payload.get_str("code") {
        Some(s) => s,
        None => "",
    };
    let author_label = filter_non_empty(payload.get_str("author_label"));
    Ok(
        Promotion::Tool(
            ToolDraft {
                slug,
                name,
                description,
                category,
                parameters,
                permissions,
                execution_location,
                code,
                author_label,
            },
        ),
    )
}

/// The agent row a submitted payload becomes.
pub open spec fn submitted_agent(p: JsonValue, d: AgentDraft) -> bool {
    &&& d.slug@ == p.str_field("slug"@)->0
    &&& d.name@ == p.str_field("name"@)->0
    &&& d.role_description@ == text_or(p.str_field("role_description"@), ""@)
    &&& d.system_prompt@ == p.str_field("system_prompt"@)->0
    &&& opt_deref(d.tool_permissions) == p.spec_get("tool_permissions"@)
    &&& opt_view(d.author_label) == non_empty(p.str_field("author_label"@))
}

/// An agent payload needs `slug`, `name` and `system_prompt` strings.
pub open spec fn agent_promotion(p: JsonValue, r: Result<Promotion, String>) -> bool {
    if p.str_field("slug"@) is None {
        refused_missing(r, "slug"@)
    } else if p.str_field("name"@) is None {
        refused_missing(r, "name"@)
    } else if p.str_field("system_prompt"@) is None {
        refused_missing(r, "system_prompt"@)
    } else {
        r matches Ok(Promotion::Agent(d)) && submitted_agent(p, d)
    }
}

/// The agent row for an approved agent submission.
pub fn promote_agent<'a>(payload: &'a JsonValue) -> (r: Result<Promotion<'a>, String>)
    ensures
        agent_promotion(*payload, r),
{
    let slug = payload_str(payload, "slug")?;
    let name = payload_str(payload, "name")?;
    let role_description = match payload.get_str("role_description") {
        Some(s) => s,
        None => "",
    };
    let system_prompt = payload_str(payload, "system_prompt")?;
    let tool_permissions = payload.get("tool_permissions");
    let author_label = filter_non_empty(payload.get_str("author_label"));
    Ok(
        Promotion::Agent(
            AgentDraft { slug, name, role_description, system_prompt, tool_permissions, author_label },
        ),
    )
}

/// An inline element's text: its `text_content` and its `script` joined by
/// a `---script---` separator when it has both.
pub open spec fn merged_text(text: Option<Seq<char>>, script: Option<Seq<char>>) -> Option<Seq<char>> {
    match (text, script) {
        (Some(t), Some(s)) => Some(t + "\n\n---script---\n"@ + s),
        (Some(t), None) => Some(t),
        (None, Some(s)) => Some(s),
        (None, None) => None,
    }
}

/// The element row the `index`th submitted element becomes.
pub open spec fn submitted_element(index: int, el: JsonValue, d: ElementDraft) -> bool {
    &&& d.sort_order == index as i32
    &&& d.element_type@ == el.str_field("element_type"@)->0
    &&& d.name@ == text_or(el.str_field("name"@), ""@)
    &&& opt_string_view(d.text_content) == merged_text(el.str_field("text_content"@), el.str_field("script"@))
    &&& d.media_path is None
}

/// The items of a payload's `elements` array; none when it has no array
/// there.
pub open spec fn elements_of(p: JsonValue) -> Seq<JsonValue> {
    match p.spec_get("elements"@) {
        Some(JsonValue::Array(items)) => items@,
        _ => Seq::empty(),
    }
}

/// The canvas pack row a submitted payload becomes.
pub open spec fn submitted_pack(p: JsonValue, d: PackDraft) -> bool {
    &&& d.slug@ == p.str_field("slug"@)->0
    &&& d.name@ == p.str_field("name"@)->0
    &&& d.description@ == text_or(p.str_field("description"@), ""@)
    &&& d.box_height_dp == (match p.i64_field("box_height_dp"@) { Some(v) => v, None => 220 }) as i32
    &&& d.max_elements == (match p.i64_field("max_elements"@) { Some(v) => v, None => 8 }) as i32
    &&& opt_view(d.background_colour) == p.str_field("background_colour"@)
    &&& opt_view(d.author_label) == non_empty(p.str_field("author_label"@))
    &&& d.elements@.len() == elements_of(p).len()
    &&& forall|i: int| 0 <= i < d.elements@.len() ==> submitted_element(i, elements_of(p)[i], #[trigger] d.elements@[i])
}

/// A canvas pack payload needs `slug` and `name` strings, and every
/// element an `element_type`.
pub open spec fn pack_promotion(p: JsonValue, r: Result<Promotion, String>) -> bool {
    if p.str_field("slug"@) is None {
        refused_missing(r, "slug"@)
    } else if p.str_field("name"@) is None {
        refused_missing(r, "name"@)
    } else if exists|i: int| 0 <= i < elements_of(p).len() && (#[trigger] elements_of(p)[i]).str_field("element_type"@) is None {
        r matches Err(e) && e@ == "each element needs an element_type"@
    } else {
        r matches Ok(Promotion::CanvasPack(d)) && submitted_pack(p, d)
    }
}

fn merge_text(text: Option<&str>, script: Option<&str>) -> (r: Option<String>)
    ensures
        opt_string_view(r) == merged_text(opt_view(text), opt_view(script)),
{
    match (text, script) {
        (Some(t), Some(s)) => Some(concat3(t, "\n\n---script---\n", s)),
        (Some(t), None) => Some(owned(t)),
        (None, Some(s)) => Some(owned(s)),
        (None, None) => None,
    }
}

/// The canvas pack row for an approved canvas pack submission. Elements are
/// inline data here (text and scripts); media arrives later through staged
/// uploads, so no element carries a media path.
pub fn promote_canvas_pack<'a>(payload: &'a JsonValue) -> (r: Result<Promotion<'a>, String>)
    ensures
        pack_promotion(*payload, r),
{
    let slug = payload_str(payload, "slug")?;
    let name = payload_str(payload, "name")?;
    let description = match payload.get_str("description") {
        Some(s) => s,
        None => "",
    };
    let box_height: i64 = match payload.get_i64("box_height_dp") {
        Some(v) => v,
        None => 220,
    };
    let max_elements: i64 = match payload.get_i64("max_elements") {
        Some(v) => v,
        None => 8,
    };
    let background_colour = payload.get_str("background_colour");
    let author_label = filter_non_empty(payload.get_str("author_label"));
    let mut elements: Vec<ElementDraft> = Vec::new();
    let items_opt = match payload.get("elements") {
        Some(v) => v.as_array(),
        None => None,
    };
    if let Some(items) = items_opt {
        assert(items@ == elements_of(*payload));
        let mut index: usize = 0;
        while index < items.len()
            invariant
                index <= items.len(),
                items@ == elements_of(*payload),
                payload.str_field("slug"@) is Some,
                payload.str_field("name"@) is Some,
                elements@.len() == index,
                forall|i: int| 0 <= i < index ==> #[trigger] (items@[i]).str_field("element_type"@) is Some,
                forall|i: int| 0 <= i < index ==> submitted_element(i, items@[i], #[trigger] elements@[i]),
            decreases items.len() - index,
        {
            let element = &items[index];
            let element_type = match element.get_str("element_type") {
                Some(t) => t,
                None => {
                    assert((items@[index as int]).str_field("element_type"@) is None);
                    return Err(owned("each element needs an element_type"));
                },
            };
            let elem_name = match element.get_str("name") {
                Some(n) => n,
                None => "",
            };
            let text = merge_text(element.get_str("text_content"), element.get_str("script"));
            elements.push(
                ElementDraft {
                    sort_order: #[verifier::truncate] (index as i32),
                    element_type: owned(element_type),
                    name: owned(elem_name),
                    text_content: text,
                    media_path: None,
                },
            );
            index = index + 1;
        }
    } else {
        assert(elements_of(*payload).len() == 0);
    }
    Ok(
        Promotion::CanvasPack(
            PackDraft {
                slug,
                name,
                description,
                box_height_dp: #[verifier::truncate] (box_height as i32),
                max_elements: #[verifier::truncate] (max_elements as i32),
                background_colour,
                elements,
                author_label,
            },
        ),
    )
}


/// How a payload of content type `t` is promoted: by the rules of its
/// type, and refused with `unknown content type <t>` for any other type.
pub open spec fn promotion_of(t: Seq<char>, p: JsonValue, r: Result<Promotion, String>) -> bool {
    if t == "skill"@ {
        skill_promotion(p, r)
    } else if t == "tool"@ {
        tool_promotion(p, r)
    } else if t == "agent"@ {
        agent_promotion(p, r)
    } else if t == "canvas_pack"@ {
        pack_promotion(p, r)
    } else {
        r matches Err(e) && e@ == "unknown content type "@ + t
    }
}

/// The catalog row a payload of the given content type becomes.
pub fn plan_promotion<'a>(content_type: &str, payload: &'a JsonValue) -> (r: Result<Promotion<'a>, String>)
    ensures
        promotion_of(content_type@, *payload, r),
{
    if str_eq(content_type, "skill") {
        promote_skill(payload)
    } else if str_eq(content_type, "tool") {
        promote_tool(payload)
    } else if str_eq(content_type, "agent") {
        promote_agent(payload)
    } else if str_eq(content_type, "canvas_pack") {
        promote_canvas_pack(payload)
    } else {
        let mut message = owned("unknown content type ");
        push_str(&mut message, content_type);
        Err(message)
    }
}

/// The message half of a refusal.
pub open spec fn refusal_text(r: Result<Promotion, HttpError>) -> Result<Promotion, String> {
    match r {
        Ok(x) => Ok(x),
        Err(e) => Err(e.message),
    }
}

/// The decision on an approval request, given the submission found (its
/// status, content type and payload): a missing or non-pending submission
/// is refused with 409 `submission not pending`, a purged payload with 409
/// `submission payload missing`; otherwise the payload is promoted by its
/// content type, and a payload that cannot be is refused with 400 and the
/// promotion's message.
pub fn plan_approval<'a>(submission: Option<(&str, &'a str, &'a JsonValue)>) -> (r: Result<
    Promotion<'a>,
    HttpError,
>)
    ensures
        match submission {
            None => r matches Err(e) && is_refusal(e, STATUS_CONFLICT, "submission not pending"@),
            Some((status, content_type, payload)) => if status@ != "pending"@ {
                r matches Err(e) && is_refusal(e, STATUS_CONFLICT, "submission not pending"@)
            } else if *payload is Null {
                r matches Err(e) && is_refusal(e, STATUS_CONFLICT, "submission payload missing"@)
            } else {
                &&& promotion_of(content_type@, *payload, refusal_text(r))
                &&& r matches Err(e) ==> e.status == STATUS_BAD_REQUEST
            },
        },
{
    let (status, content_type, payload) = match submission {
        None => return Err(refusal(STATUS_CONFLICT, "submission not pending")),
        Some(s) => s,
    };
    if !str_eq(status, "pending") {
        return Err(refusal(STATUS_CONFLICT, "submission not pending"));
    }
    if payload.is_null() {
        return Err(refusal(STATUS_CONFLICT, "submission payload missing"));
    }
    match plan_promotion(content_type, payload) {
        Ok(p) => Ok(p),
        Err(message) => Err(HttpError { status: STATUS_BAD_REQUEST, message }),
    }
}

/// The four content types a submission may carry are all submittable.
pub proof fn lemma_submittable_types()
    ensures
        is_allowed_content_type("skill"@),
        is_allowed_content_type("tool"@),
        is_allowed_content_type("agent"@),
        is_allowed_content_type("canvas_pack"@),
{
}

/// The envelope admits exactly the content types that promotion knows:
/// a payload of an admitted type is never refused as an unknown content
/// type, and a payload of any other type always is.
pub proof fn lemma_envelope_admits_promotable_types(t: Seq<char>, p: JsonValue, r: Result<Promotion, String>)
    requires
        promotion_of(t, p, r),
    ensures
        is_allowed_content_type(t) <==> !(r matches Err(e) && e@ == "unknown content type "@ + t),
{
    reveal_strlit("unknown content type ");
    reveal_strlit("payload missing '");
    reveal_strlit("each element needs an element_type");
    let u = "unknown content type "@ + t;
    assert(u[0] == 'u');
    if is_allowed_content_type(t) {
        if let Err(e) = r {
            assert forall|key: Seq<char>| #[trigger] missing_payload_field(key) != u by {
                assert(missing_payload_field(key)[0] == 'p');
            }
            assert(("each element needs an element_type"@)[0] == 'e');
            assert(e@ != u);
        }
    }
}

/// An element's merged text keeps its own text first and its script last;
/// with only one of them, the merged text is that one; with neither, there
/// is none.
pub proof fn lemma_merged_text_keeps_parts(text: Option<Seq<char>>, script: Option<Seq<char>>)
    ensures
        merged_text(text, script) is None <==> (text is None && script is None),
        text matches Some(t) ==> (merged_text(text, script) matches Some(x) && x.len() >= t.len() && x.take(
            t.len() as int,
        ) == t),
        script matches Some(c) ==> (merged_text(text, script) matches Some(x) && x.len() >= c.len() && x.skip(
            x.len() - c.len(),
        ) == c),
        script is None ==> merged_text(text, script) == text,
        text is None ==> merged_text(text, script) == script,
{
    if let (Some(t), Some(c)) = (text, script) {
        let x = t + "\n\n---script---\n"@ + c;
        assert(x.take(t.len() as int) =~= t);
        assert(x.skip(x.len() - c.len()) =~= c);
    }
}

/// A promoted canvas pack keeps every element's text: an element whose
/// payload item has a `text_content` string gets a text that starts with
/// it (the whole text when the item has no `script`), and an item with
/// neither a text nor a script gets no text.
pub proof fn lemma_promoted_elements_keep_their_text(p: JsonValue, r: Result<Promotion, String>)
    requires
        pack_promotion(p, r),
        r is Ok,
    ensures
        r matches Ok(Promotion::CanvasPack(d)) && d.elements@.len() == elements_of(p).len() && forall|i: int|
            0 <= i < d.elements@.len() ==> {
                let el = elements_of(p)[i];
                let text = opt_string_view(#[trigger] d.elements@[i].text_content);
                &&& (string_member(el, "text_content"@) matches Some(t) ==> (text matches Some(x) && x.len()
                    >= t.len() && x.take(t.len() as int) == t))
                &&& (string_member(el, "script"@) is None ==> text == string_member(el, "text_content"@))
                &&& (string_member(el, "text_content"@) is None && string_member(el, "script"@) is None
                    ==> text is None)
            },
{
    if let Ok(Promotion::CanvasPack(d)) = r {
        assert forall|i: int| 0 <= i < d.elements@.len() implies {
            let el = elements_of(p)[i];
            let text = opt_string_view(#[trigger] d.elements@[i].text_content);
            &&& (string_member(el, "text_content"@) matches Some(t) ==> (text matches Some(x) && x.len()
                >= t.len() && x.take(t.len() as int) == t))
            &&& (string_member(el, "script"@) is None ==> text == string_member(el, "text_content"@))
            &&& (string_member(el, "text_content"@) is None && string_member(el, "script"@) is None
                ==> text is None)
        } by {
            let el = elements_of(p)[i];
            assert(submitted_element(i, el, d.elements@[i]));
            lemma_merged_text_keeps_parts(el.str_field("text_content"@), el.str_field("script"@));
        }
    }
}

} // verus!
