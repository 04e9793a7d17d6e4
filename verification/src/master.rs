//! The master-content surface: token-gated writes by the publishers.
//!
//! Each handler reads a JSON payload into the arguments of one catalog
//! write, filling absent fields with defaults or with the row being edited.
//! This module computes those arguments; the handlers around it run the
//! database calls.

use crate::auth::{bad_request, is_refusal, HttpError, STATUS_BAD_REQUEST};
use crate::json::{opt_deref, opt_view, string_member, JsonValue};
use crate::review::{json_or, opt_string_view, payload_json_or, AgentDraft, ElementDraft, PackDraft, SkillDraft, ToolDraft};
use crate::text::{owned, text_or};
use vstd::prelude::*;

verus! {

/// The strings among an array's items, in order.
pub open spec fn string_items(items: Seq<JsonValue>) -> Seq<Seq<char>>
    decreases items.len(),
{
    if items.len() == 0 {
        Seq::empty()
    } else {
        let rest = string_items(items.drop_last());
        match items[items.len() - 1].spec_as_str() {
            Some(s) => rest.push(s),
            None => rest,
        }
    }
}

/// A payload's `trigger_keywords`: the strings of that array, none when it
/// is absent or not an array.
pub open spec fn keywords_of(p: JsonValue) -> Seq<Seq<char>> {
    match p.spec_get("trigger_keywords"@) {
        Some(JsonValue::Array(items)) => string_items(items@),
        _ => Seq::empty(),
    }
}

/// The texts of a vector of string slices.
pub open spec fn views(v: Seq<&str>) -> Seq<Seq<char>> {
    v.map_values(|s: &str| s@)
}

/// The arguments of a prompt upsert. The match threshold, a float, is read
/// by the caller.
#[derive(Debug)]
pub struct PromptDraft<'a> {
    pub slug: &'a str,
    pub name: &'a str,
    pub category: &'a str,
    pub content: &'a str,
    pub delivery_mode: &'a str,
    pub trigger_keywords: Vec<&'a str>,
}

fn trigger_keywords<'a>(payload: &'a JsonValue) -> (r: Vec<&'a str>)
    ensures
        views(r@) == keywords_of(*payload),
{
    let mut out: Vec<&'a str> = Vec::new();
    let items = match payload.get("trigger_keywords") {
        Some(v) => v.as_array(),
        None => None,
    };
    if let Some(items) = items {
        let mut i: usize = 0;
        while i < items.len()
            invariant
                i <= items.len(),
                keywords_of(*payload) == string_items(items@),
                views(out@) == string_items(items@.take(i as int)),
            decreases items.len() - i,
        {
            assert(items@.take(i + 1).drop_last() == items@.take(i as int));
            if let Some(s) = items[i].as_str() {
                out.push(s);
                assert(views(out@) == views(out@.drop_last()).push(s@));
            }
            i = i + 1;
        }
        assert(items@.take(items@.len() as int) == items@);
    }
    out
}

/// The prompt a create request holds: `slug`, `name` and `content` are
/// required (refused with 400 `missing '<key>'` in that order); `category`
/// defaults to `other`, `delivery_mode` to `always`.
pub fn prompt_from_payload<'a>(payload: &'a JsonValue) -> (r: Result<PromptDraft<'a>, HttpError>)
    ensures
        payload.str_field("slug"@) is None ==> (r matches Err(e) && is_refusal(e, STATUS_BAD_REQUEST, "missing 'slug'"@)),
        payload.str_field("slug"@) is Some && payload.str_field("name"@) is None ==> (r matches Err(e)
            && is_refusal(e, STATUS_BAD_REQUEST, "missing 'name'"@)),
        payload.str_field("slug"@) is Some && payload.str_field("name"@) is Some && payload.str_field(
            "content"@,
        ) is None ==> (r matches Err(e) && is_refusal(e, STATUS_BAD_REQUEST, "missing 'content'"@)),
        r is Ok <==> (payload.str_field("slug"@) is Some && payload.str_field("name"@) is Some
            && payload.str_field("content"@) is Some),
        r matches Ok(d) ==> {
            &&& d.slug@ == payload.str_field("slug"@)->0
            &&& d.name@ == payload.str_field("name"@)->0
            &&& d.content@ == payload.str_field("content"@)->0
            &&& d.category@ == text_or(payload.str_field("category"@), "other"@)
            &&& d.delivery_mode@ == text_or(payload.str_field("delivery_mode"@), "always"@)
            &&& views(d.trigger_keywords@) == keywords_of(*payload)
        },
{
    let slug = match payload.get_str("slug") {
        Some(s) => s,
        None => return Err(bad_request("missing 'slug'")),
    };
    let name = match payload.get_str("name") {
        Some(s) => s,
        None => return Err(bad_request("missing 'name'")),
    };
    let category = match payload.get_str("category") {
        Some(s) => s,
        None => "other",
    };
    let content = match payload.get_str("content") {
        Some(s) => s,
        None => return Err(bad_request("missing 'content'")),
    };
    let delivery_mode = match payload.get_str("delivery_mode") {
        Some(s) => s,
        None => "always",
    };
    let trigger_keywords = trigger_keywords(payload);
    Ok(PromptDraft { slug, name, category, content, delivery_mode, trigger_keywords })
}

/// The prompt an update request holds before the stored prompt is read:
/// `slug` is required (400 `missing 'slug'`); `name` and `content` default
/// to empty, `category` to `other`, `delivery_mode` to `always`.
pub fn prompt_update_from_payload<'a>(payload: &'a JsonValue) -> (r: Result<PromptDraft<'a>, HttpError>)
    ensures
        payload.str_field("slug"@) is None <==> r is Err,
        r matches Err(e) ==> is_refusal(e, STATUS_BAD_REQUEST, "missing 'slug'"@),
        r matches Ok(d) ==> {
            &&& d.slug@ == payload.str_field("slug"@)->0
            &&& d.name@ == text_or(payload.str_field("name"@), ""@)
            &&& d.content@ == text_or(payload.str_field("content"@), ""@)
            &&& d.category@ == text_or(payload.str_field("category"@), "other"@)
            &&& d.delivery_mode@ == text_or(payload.str_field("delivery_mode"@), "always"@)
            &&& views(d.trigger_keywords@) == keywords_of(*payload)
        },
{
    let slug = match payload.get_str("slug") {
        Some(s) => s,
        None => return Err(bad_request("missing 'slug'")),
    };
    let name = match payload.get_str("name") {
        Some(s) => s,
        None => "",
    };
    let category = match payload.get_str("category") {
        Some(s) => s,
        None => "other",
    };
    let content = match payload.get_str("content") {
        Some(s) => s,
        None => "",
    };
    let delivery_mode = match payload.get_str("delivery_mode") {
        Some(s) => s,
        None => "always",
    };
    let trigger_keywords = trigger_keywords(payload);
    Ok(PromptDraft { slug, name, category, content, delivery_mode, trigger_keywords })
}

/// The name an updated prompt keeps: the requested one, or the stored one
/// when the request left it empty.
pub fn updated_prompt_name<'a>(requested: &'a str, stored: &'a str) -> (r: &'a str)
    ensures
        r@ == (if requested@.len() == 0 { stored@ } else { requested@ }),
{
    if requested.is_empty() {
        stored
    } else {
        requested
    }
}


fn str_or<'a>(payload: &'a JsonValue, key: &str, fallback: &'a str) -> (r: &'a str)
    ensures
        r@ == text_or(payload.str_field(key@), fallback@),
{
    match payload.get_str(key) {
        Some(s) => s,
        None => fallback,
    }
}

// -- creates -------------------------------------------------------------------

/// The skill a master create request holds: every string defaults to empty,
/// `allowed_tools` to the empty array, and the author label is taken as
/// given.
pub fn skill_from_master<'a>(payload: &'a JsonValue) -> (d: SkillDraft<'a>)
    ensures
        d.slug@ == text_or(payload.str_field("slug"@), ""@),
        d.name@ == text_or(payload.str_field("name"@), ""@),
        d.description@ == text_or(payload.str_field("description"@), ""@),
        d.when_to_use@ == text_or(payload.str_field("when_to_use"@), ""@),
        opt_deref(d.allowed_tools) == payload.spec_get("allowed_tools"@),
        d.content@ == text_or(payload.str_field("content"@), ""@),
        opt_view(d.author_label) == payload.str_field("author_label"@),
{
    SkillDraft {
        slug: str_or(payload, "slug", ""),
        name: str_or(payload, "name", ""),
        description: str_or(payload, "description", ""),
        when_to_use: str_or(payload, "when_to_use", ""),
        allowed_tools: payload.get("allowed_tools"),
        content: str_or(payload, "content", ""),
        author_label: payload.get_str("author_label"),
    }
}

/// The tool a master create request holds: strings default to empty,
/// `category` to `builtin`, `execution_location` to `on-device`, the JSON
/// fields to the empty array; the author label is taken as given.
pub fn tool_from_master<'a>(payload: &'a JsonValue) -> (d: ToolDraft<'a>)
    ensures
        d.slug@ == text_or(payload.str_field("slug"@), ""@),
        d.name@ == text_or(payload.str_field("name"@), ""@),
        d.description@ == text_or(payload.str_field("description"@), ""@),
        d.category@ == text_or(payload.str_field("category"@), "builtin"@),
        opt_deref(d.parameters) == payload.spec_get("parameters"@),
        opt_deref(d.permissions) == payload.spec_get("permissions"@),
        d.execution_location@ == text_or(payload.str_field("execution_location"@), "on-device"@),
        d.code@ == text_or(payload.str_field("code"@), ""@),
        opt_view(d.author_label) == payload.str_field("author_label"@),
{
    ToolDraft {
        slug: str_or(payload, "slug", ""),
        name: str_or(payload, "name", ""),
        description: str_or(payload, "description", ""),
        category: str_or(payload, "category", "builtin"),
        parameters: payload.get("parameters"),
        permissions: payload.get("permissions"),
        execution_location: str_or(payload, "execution_location", "on-device"),
        code: str_or(payload, "code", ""),
        author_label: payload.get_str("author_label"),
    }
}

/// The agent a master create request holds: strings default to empty,
/// `tool_permissions` to the empty array; the author label is taken as
/// given.
pub fn agent_from_master<'a>(payload: &'a JsonValue) -> (d: AgentDraft<'a>)
    ensures
        d.slug@ == text_or(payload.str_field("slug"@), ""@),
        d.name@ == text_or(payload.str_field("name"@), ""@),
        d.role_description@ == text_or(payload.str_field("role_description"@), ""@),
        d.system_prompt@ == text_or(payload.str_field("system_prompt"@), ""@),
        opt_deref(d.tool_permissions) == payload.spec_get("tool_permissions"@),
        opt_view(d.author_label) == payload.str_field("author_label"@),
{
    AgentDraft {
        slug: str_or(payload, "slug", ""),
        name: str_or(payload, "name", ""),
        role_description: str_or(payload, "role_description", ""),
        system_prompt: str_or(payload, "system_prompt", ""),
        tool_permissions: payload.get("tool_permissions"),
        author_label: payload.get_str("author_label"),
    }
}

/// The canvas pack a master create request holds, inserted without
/// elements: strings default to empty, `box_height_dp` to 220 and
/// `max_elements` to 8 (both cut to `i32`); the author label is taken as
/// given.
pub fn pack_from_master<'a>(payload: &'a JsonValue) -> (d: PackDraft<'a>)
    ensures
        d.slug@ == text_or(payload.str_field("slug"@), ""@),
        d.name@ == text_or(payload.str_field("name"@), ""@),
        d.description@ == text_or(payload.str_field("description"@), ""@),
        d.box_height_dp == (match payload.i64_field("box_height_dp"@) { Some(v) => v, None => 220 }) as i32,
        d.max_elements == (match payload.i64_field("max_elements"@) { Some(v) => v, None => 8 }) as i32,
        opt_view(d.background_colour) == payload.str_field("background_colour"@),
        d.elements@.len() == 0,
        opt_view(d.author_label) == payload.str_field("author_label"@),
{
    let box_height: i64 = match payload.get_i64("box_height_dp") {
        Some(v) => v,
        None => 220,
    };
    let max_elements: i64 = match payload.get_i64("max_elements") {
        Some(v) => v,
        None => 8,
    };
    PackDraft {
        slug: str_or(payload, "slug", ""),
        name: str_or(payload, "name", ""),
        description: str_or(payload, "description", ""),
        box_height_dp: #[verifier::truncate] (box_height as i32),
        max_elements: #[verifier::truncate] (max_elements as i32),
        background_colour: payload.get_str("background_colour"),
        elements: Vec::new(),
        author_label: payload.get_str("author_label"),
    }
}

// -- elements ------------------------------------------------------------------

/// The element the `index`th item of an element list becomes: `sort_order`
/// defaults to the item's position (cut to `i32`), `element_type` to
/// `text`, `name` to empty.
pub open spec fn listed_element(index: int, el: JsonValue, d: ElementDraft) -> bool {
    &&& d.sort_order == (match el.i64_field("sort_order"@) { Some(v) => v, None => index as i64 }) as i32
    &&& d.element_type@ == text_or(el.str_field("element_type"@), "text"@)
    &&& d.name@ == text_or(el.str_field("name"@), ""@)
    &&& opt_string_view(d.text_content) == el.str_field("text_content"@)
    &&& opt_string_view(d.media_path) == el.str_field("media_path"@)
}

fn opt_owned(o: Option<&str>) -> (r: Option<String>)
    ensures
        opt_string_view(r) == opt_view(o),
{
    match o {
        Some(s) => Some(owned(s)),
        None => None,
    }
}

/// The elements of an element list, one per item.
pub fn parse_elements(items: &Vec<JsonValue>) -> (r: Vec<ElementDraft>)
    ensures
        r@.len() == items@.len(),
        forall|i: int| 0 <= i < r@.len() ==> listed_element(i, items@[i], #[trigger] r@[i]),
{
    let mut out: Vec<ElementDraft> = Vec::new();
    let mut i: usize = 0;
    while i < items.len()
        invariant
            i <= items.len(),
            out@.len() == i,
            forall|k: int| 0 <= k < i ==> listed_element(k, items@[k], #[trigger] out@[k]),
        decreases items.len() - i,
    {
        let el = &items[i];
        let sort_order: i64 = match el.get_i64("sort_order") {
            Some(v) => v,
            None => #[verifier::truncate] (i as i64),
        };
        out.push(
            ElementDraft {
                sort_order: #[verifier::truncate] (sort_order as i32),
                element_type: owned(str_or(el, "element_type", "text")),
                name: owned(str_or(el, "name", "")),
                text_content: opt_owned(el.get_str("text_content")),
                media_path: opt_owned(el.get_str("media_path")),
            },
        );
        i = i + 1;
    }
    out
}

/// The items of a payload's `elements` array, when it has one.
pub open spec fn element_items(p: JsonValue) -> Option<Seq<JsonValue>> {
    match p.spec_get("elements"@) {
        Some(JsonValue::Array(items)) => Some(items@),
        _ => None,
    }
}

/// The elements a request lists under `elements`: none when the payload has
/// no such array.
pub fn listed_elements(payload: &JsonValue) -> (r: Option<Vec<ElementDraft>>)
    ensures
        r is Some <==> element_items(*payload) is Some,
        r matches Some(v) ==> ({
            let items = element_items(*payload)->0;
            &&& v@.len() == items.len()
            &&& forall|i: int| 0 <= i < v@.len() ==> listed_element(i, items[i], #[trigger] v@[i])
        }),
{
    let items = match payload.get("elements") {
        Some(v) => v.as_array(),
        None => None,
    };
    match items {
        Some(items) => Some(parse_elements(items)),
        None => None,
    }
}

/// The element list of a replace request: refused with 400
/// `missing 'elements'` when the payload has no `elements` array.
pub fn elements_from_payload(payload: &JsonValue) -> (r: Result<Vec<ElementDraft>, HttpError>)
    ensures
        element_items(*payload) is None <==> r is Err,
        r matches Err(e) ==> is_refusal(e, STATUS_BAD_REQUEST, "missing 'elements'"@),
        r matches Ok(v) ==> ({
            let items = element_items(*payload)->0;
            &&& v@.len() == items.len()
            &&& forall|i: int| 0 <= i < v@.len() ==> listed_element(i, items[i], #[trigger] v@[i])
        }),
{
    match listed_elements(payload) {
        Some(v) => Ok(v),
        None => Err(bad_request("missing 'elements'")),
    }
}

/// The single element an add request holds: `sort_order` defaults to 999,
/// `element_type` to `text`, `name` to empty.
pub fn element_from_payload(payload: &JsonValue) -> (d: ElementDraft)
    ensures
        listed_element(999, *payload, d),
{
    let sort_order: i64 = match payload.get_i64("sort_order") {
        Some(v) => v,
        None => 999,
    };
    ElementDraft {
        sort_order: #[verifier::truncate] (sort_order as i32),
        element_type: owned(str_or(payload, "element_type", "text")),
        name: owned(str_or(payload, "name", "")),
        text_content: opt_owned(payload.get_str("text_content")),
        media_path: opt_owned(payload.get_str("media_path")),
    }
}

/// The changes an element update request asks for; absent fields keep
/// their stored value.
#[derive(Debug)]
pub struct ElementChange<'a> {
    pub sort_order: Option<i32>,
    pub name: Option<&'a str>,
    pub text_content: Option<&'a str>,
    pub media_path: Option<&'a str>,
}

/// The changes an element update request holds (`sort_order` cut to
/// `i32`).
pub fn element_change_from_payload<'a>(payload: &'a JsonValue) -> (c: ElementChange<'a>)
    ensures
        c.sort_order == (match payload.i64_field("sort_order"@) { Some(v) => Some(v as i32), None => None }),
        opt_view(c.name) == payload.str_field("name"@),
        opt_view(c.text_content) == payload.str_field("text_content"@),
        opt_view(c.media_path) == payload.str_field("media_path"@),
{
    let sort_order = match payload.get_i64("sort_order") {
        Some(v) => Some(#[verifier::truncate] (v as i32)),
        None => None,
    };
    ElementChange {
        sort_order,
        name: payload.get_str("name"),
        text_content: payload.get_str("text_content"),
        media_path: payload.get_str("media_path"),
    }
}


// -- edits of stored rows --------------------------------------------------------

/// What a skill edit reads of the stored skill.
#[derive(Debug)]
pub struct SkillFields {
    pub name: String,
    pub description: String,
    pub when_to_use: String,
    pub content: String,
    pub allowed_tools: JsonValue,
}

/// The arguments of a skill update.
#[derive(Debug)]
pub struct SkillEdit<'a> {
    pub name: &'a str,
    pub description: &'a str,
    pub when_to_use: &'a str,
    pub allowed_tools: &'a JsonValue,
    pub content: &'a str,
}

/// A skill edit: each field the payload gives replaces the stored one.
pub fn skill_edit<'a>(payload: &'a JsonValue, stored: &'a SkillFields) -> (e: SkillEdit<'a>)
    ensures
        e.name@ == text_or(payload.str_field("name"@), stored.name@),
        e.description@ == text_or(payload.str_field("description"@), stored.description@),
        e.when_to_use@ == text_or(payload.str_field("when_to_use"@), stored.when_to_use@),
        e.content@ == text_or(payload.str_field("content"@), stored.content@),
        *e.allowed_tools == json_or(payload.spec_get("allowed_tools"@), stored.allowed_tools),
{
    SkillEdit {
        name: str_or(payload, "name", stored.name.as_str()),
        description: str_or(payload, "description", stored.description.as_str()),
        when_to_use: str_or(payload, "when_to_use", stored.when_to_use.as_str()),
        allowed_tools: payload_json_or(payload, "allowed_tools", &stored.allowed_tools),
        content: str_or(payload, "content", stored.content.as_str()),
    }
}

/// What a tool edit reads of the stored tool.
#[derive(Debug)]
pub struct ToolFields {
    pub name: String,
    pub description: String,
    pub category: String,
    pub parameters: JsonValue,
    pub permissions: JsonValue,
    pub execution_location: String,
    pub code: String,
}

/// The arguments of a tool update.
#[derive(Debug)]
pub struct ToolEdit<'a> {
    pub name: &'a str,
    pub description: &'a str,
    pub category: &'a str,
    pub parameters: &'a JsonValue,
    pub permissions: &'a JsonValue,
    pub execution_location: &'a str,
    pub code: &'a str,
}

/// A tool edit: each field the payload gives replaces the stored one.
pub fn tool_edit<'a>(payload: &'a JsonValue, stored: &'a ToolFields) -> (e: ToolEdit<'a>)
    ensures
        e.name@ == text_or(payload.str_field("name"@), stored.name@),
        e.description@ == text_or(payload.str_field("description"@), stored.description@),
        e.category@ == text_or(payload.str_field("category"@), stored.category@),
        e.code@ == text_or(payload.str_field("code"@), stored.code@),
        *e.parameters == json_or(payload.spec_get("parameters"@), stored.parameters),
        *e.permissions == json_or(payload.spec_get("permissions"@), stored.permissions),
        e.execution_location@ == text_or(payload.str_field("execution_location"@), stored.execution_location@),
{
    ToolEdit {
        name: str_or(payload, "name", stored.name.as_str()),
        description: str_or(payload, "description", stored.description.as_str()),
        category: str_or(payload, "category", stored.category.as_str()),
        parameters: payload_json_or(payload, "parameters", &stored.parameters),
        permissions: payload_json_or(payload, "permissions", &stored.permissions),
        execution_location: str_or(payload, "execution_location", stored.execution_location.as_str()),
        code: str_or(payload, "code", stored.code.as_str()),
    }
}

/// What an agent edit reads of the stored agent.
#[derive(Debug)]
pub struct AgentFields {
    pub name: String,
    pub role_description: String,
    pub system_prompt: String,
    pub tool_permissions: JsonValue,
}

/// The arguments of an agent update.
#[derive(Debug)]
pub struct AgentEdit<'a> {
    pub name: &'a str,
    pub role_description: &'a str,
    pub system_prompt: &'a str,
    pub tool_permissions: &'a JsonValue,
}

/// An agent edit: each field the payload gives replaces the stored one.
pub fn agent_edit<'a>(payload: &'a JsonValue, stored: &'a AgentFields) -> (e: AgentEdit<'a>)
    ensures
        e.name@ == text_or(payload.str_field("name"@), stored.name@),
        e.role_description@ == text_or(payload.str_field("role_description"@), stored.role_description@),
        e.system_prompt@ == text_or(payload.str_field("system_prompt"@), stored.system_prompt@),
        *e.tool_permissions == json_or(payload.spec_get("tool_permissions"@), stored.tool_permissions),
{
    AgentEdit {
        name: str_or(payload, "name", stored.name.as_str()),
        role_description: str_or(payload, "role_description", stored.role_description.as_str()),
        system_prompt: str_or(payload, "system_prompt", stored.system_prompt.as_str()),
        tool_permissions: payload_json_or(payload, "tool_permissions", &stored.tool_permissions),
    }
}

/// What a canvas pack edit reads of the stored pack.
#[derive(Debug)]
pub struct PackFields {
    pub name: String,
    pub description: String,
    pub box_height_dp: i32,
    pub max_elements: i32,
    pub background_colour: Option<String>,
}

/// The arguments of a canvas pack update.
#[derive(Debug)]
pub struct PackEdit<'a> {
    pub name: &'a str,
    pub description: &'a str,
    pub box_height_dp: i32,
    pub max_elements: i32,
    pub background_colour: Option<&'a str>,
}

/// A canvas pack edit: each field the payload gives replaces the stored
/// one (integers cut to `i32`).
pub fn pack_edit<'a>(payload: &'a JsonValue, stored: &'a PackFields) -> (e: PackEdit<'a>)
    ensures
        e.name@ == text_or(payload.str_field("name"@), stored.name@),
        e.description@ == text_or(payload.str_field("description"@), stored.description@),
        e.box_height_dp == (match payload.i64_field("box_height_dp"@) {
            Some(v) => v as i32,
            None => stored.box_height_dp,
        }),
        e.max_elements == (match payload.i64_field("max_elements"@) {
            Some(v) => v as i32,
            None => stored.max_elements,
        }),
        opt_view(e.background_colour) == (match payload.str_field("background_colour"@) {
            Some(c) => Some(c),
            None => opt_string_view(stored.background_colour),
        }),
{
    let box_height: i64 = match payload.get_i64("box_height_dp") {
        Some(v) => v,
        None => stored.box_height_dp as i64,
    };
    let max_elements: i64 = match payload.get_i64("max_elements") {
        Some(v) => v,
        None => stored.max_elements as i64,
    };
    let stored_colour: Option<&'a str> = match &stored.background_colour {
        Some(c) => Some(c.as_str()),
        None => None,
    };
    let background_colour = match payload.get_str("background_colour") {
        Some(c) => Some(c),
        None => stored_colour,
    };
    PackEdit {
        name: str_or(payload, "name", stored.name.as_str()),
        description: str_or(payload, "description", stored.description.as_str()),
        box_height_dp: #[verifier::truncate] (box_height as i32),
        max_elements: #[verifier::truncate] (max_elements as i32),
        background_colour,
    }
}

/// A listed element takes its fields from the item's members of the same
/// name: `text_content` and `media_path` as they are (absent when the item
/// has no such string), `name` with `""` and `element_type` with `text` in
/// place of a missing one, and `sort_order` from an integer member, else
/// from the element's position.
pub proof fn lemma_listed_element_reads_its_keys(index: int, el: JsonValue, d: ElementDraft)
    requires
        listed_element(index, el, d),
    ensures
        opt_string_view(d.text_content) == string_member(el, "text_content"@),
        opt_string_view(d.media_path) == string_member(el, "media_path"@),
        d.name@ == text_or(string_member(el, "name"@), ""@),
        d.element_type@ == text_or(string_member(el, "element_type"@), "text"@),
        d.sort_order == (match el {
            JsonValue::Object(entries) => match crate::json::object_lookup(entries@, "sort_order"@) {
                Some(JsonValue::Number(n)) => match n.as_i64 {
                    Some(v) => v,
                    None => index as i64,
                },
                _ => index as i64,
            },
            _ => index as i64,
        }) as i32,
{
}

} // verus!
