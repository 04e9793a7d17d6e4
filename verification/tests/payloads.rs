use guru::json::{JsonNumber, JsonValue};
use guru::master::{
    agent_edit, agent_from_master, element_change_from_payload, element_from_payload,
    elements_from_payload, pack_edit, pack_from_master, parse_elements, prompt_from_payload,
    prompt_update_from_payload, skill_edit, skill_from_master, tool_edit, tool_from_master,
    updated_prompt_name, AgentFields, PackFields, SkillFields, ToolFields,
};
use guru::review::{
    check_submission_envelope, check_submission_payload, has_personal_fields, payload_json_or,
    payload_str, plan_approval, plan_promotion, Promotion,
};

fn s(v: &str) -> JsonValue {
    JsonValue::String(v.to_string())
}

fn num(v: i64) -> JsonValue {
    JsonValue::Number(JsonNumber { as_i64: Some(v), text: v.to_string() })
}

fn float(text: &str) -> JsonValue {
    JsonValue::Number(JsonNumber { as_i64: None, text: text.to_string() })
}

fn obj(entries: Vec<(&str, JsonValue)>) -> JsonValue {
    let mut entries: Vec<(String, JsonValue)> =
        entries.into_iter().map(|(k, v)| (k.to_string(), v)).collect();
    entries.sort_by(|a, b| a.0.cmp(&b.0));
    JsonValue::Object(entries)
}

fn arr(items: Vec<JsonValue>) -> JsonValue {
    JsonValue::Array(items)
}

// ---------------------------------------------------------------------------
// JSON access
// ---------------------------------------------------------------------------

#[test]
fn json_accessors() {
    let p = obj(vec![("a", s("x")), ("b", num(3)), ("c", arr(vec![])), ("d", JsonValue::Null)]);
    assert_eq!(p.get_str("a"), Some("x"));
    assert_eq!(p.get_str("b"), None);
    assert_eq!(p.get_i64("b"), Some(3));
    assert_eq!(p.get_i64("a"), None);
    assert!(p.get("c").unwrap().as_array().unwrap().is_empty());
    assert!(p.get("d").unwrap().is_null());
    assert!(p.get("zz").is_none());
    assert!(s("x").get("a").is_none());
    assert_eq!(float("1.5").as_i64(), None);
}

// ---------------------------------------------------------------------------
// submissions
// ---------------------------------------------------------------------------

#[test]
fn envelope_checks_type_then_size() {
    assert!(check_submission_envelope("skill", 10).is_ok());
    assert!(check_submission_envelope("canvas_pack", 2 * 1024 * 1024).is_ok());
    let e = check_submission_envelope("prompt", 10).unwrap_err();
    assert_eq!(e.status, 400);
    assert_eq!(e.message, "content_type must be one of skill, tool, agent, canvas_pack");
    let e = check_submission_envelope("tool", 2 * 1024 * 1024 + 1).unwrap_err();
    assert_eq!(e.status, 413);
    assert_eq!(e.message, "submission exceeds 2MB; submit media packs by URL");
    // the type is checked first
    assert_eq!(check_submission_envelope("other", usize::MAX).unwrap_err().status, 400);
}

#[test]
fn payload_checks_in_order() {
    let body = b"{}";
    let parsed: Result<JsonValue, String> = Err("EOF while parsing".to_string());
    let e = check_submission_payload(body, &parsed).unwrap_err();
    assert_eq!((e.status, e.message.as_str()), (400, "invalid JSON: EOF while parsing"));

    let parsed = Ok(obj(vec![("name", s("N"))]));
    let e = check_submission_payload(body, &parsed).unwrap_err();
    assert_eq!(e.message, "payload missing 'slug'");

    let parsed = Ok(obj(vec![("slug", s("Bad Slug")), ("name", s("N"))]));
    let e = check_submission_payload(body, &parsed).unwrap_err();
    assert_eq!(e.message, "slug must be lowercase words joined by single dashes");

    let parsed = Ok(obj(vec![("slug", s("good-slug"))]));
    let e = check_submission_payload(body, &parsed).unwrap_err();
    assert_eq!(e.message, "payload missing 'name'");
}

#[test]
fn payload_with_personal_fields_is_refused() {
    let parsed = Ok(obj(vec![("slug", s("good")), ("name", s("N")), ("email", s("a@b.c"))]));
    let body = br#"{"email":"a@b.c","name":"N","slug":"good"}"#;
    let e = check_submission_payload(body, &parsed).unwrap_err();
    assert_eq!(e.status, 400);
    assert_eq!(e.message, "submissions must not contain personal fields; keep them publishable-only");
    assert!(has_personal_fields(b"contact me at joe@gmail.com"));
    assert!(!has_personal_fields(b"{\"emails\": 1}"));
    assert!(!has_personal_fields(b""));
}

#[test]
fn accepted_payload_keeps_a_non_empty_author() {
    let parsed = Ok(obj(vec![("slug", s("good")), ("name", s("Good")), ("author_label", s("ann"))]));
    let body = br#"{"author_label":"ann","name":"Good","slug":"good"}"#;
    let f = check_submission_payload(body, &parsed).unwrap();
    assert_eq!((f.slug, f.name, f.author_label), ("good", "Good", Some("ann")));
    let parsed = Ok(obj(vec![("slug", s("good")), ("name", s("Good")), ("author_label", s(""))]));
    let f = check_submission_payload(body, &parsed).unwrap();
    assert_eq!(f.author_label, None);
}

#[test]
fn payload_str_reports_the_missing_key() {
    let p = obj(vec![("slug", s("x"))]);
    assert_eq!(payload_str(&p, "slug"), Ok("x"));
    assert_eq!(payload_str(&p, "name"), Err("payload missing 'name'".to_string()));
    let fallback = arr(vec![]);
    let p2 = obj(vec![("tools", num(1))]);
    assert!(matches!(payload_json_or(&p2, "tools", &fallback), JsonValue::Number(_)));
    assert!(matches!(payload_json_or(&p2, "other", &fallback), JsonValue::Array(_)));
}

#[test]
fn skill_promotion() {
    let p = obj(vec![
        ("slug", s("sum")),
        ("name", s("Sum")),
        ("description", s("adds")),
        ("content", s("body")),
        ("allowed_tools", arr(vec![s("calc")])),
        ("author_label", s("")),
    ]);
    match plan_promotion("skill", &p).unwrap() {
        Promotion::Skill(d) => {
            assert_eq!((d.slug, d.name, d.description, d.content), ("sum", "Sum", "adds", "body"));
            assert_eq!(d.when_to_use, "");
            assert!(matches!(d.allowed_tools, Some(JsonValue::Array(_))));
            assert_eq!(d.author_label, None);
        }
        _ => panic!("expected a skill"),
    }
    let missing = obj(vec![("slug", s("sum")), ("name", s("Sum")), ("content", s("body"))]);
    assert_eq!(plan_promotion("skill", &missing).err().unwrap(), "payload missing 'description'");
}

#[test]
fn tool_promotion_defaults() {
    let p = obj(vec![("slug", s("t")), ("name", s("T")), ("description", s("d")), ("author_label", s("bob"))]);
    match plan_promotion("tool", &p).unwrap() {
        Promotion::Tool(d) => {
            assert_eq!(d.category, "community");
            assert_eq!(d.execution_location, "on-device");
            assert_eq!(d.code, "");
            assert!(d.parameters.is_none() && d.permissions.is_none());
            assert_eq!(d.author_label, Some("bob"));
        }
        _ => panic!("expected a tool"),
    }
    let missing = obj(vec![("name", s("T"))]);
    assert_eq!(plan_promotion("tool", &missing).err().unwrap(), "payload missing 'slug'");
}

#[test]
fn agent_promotion_needs_a_system_prompt() {
    let p = obj(vec![("slug", s("a")), ("name", s("A")), ("role_description", s("r"))]);
    assert_eq!(plan_promotion("agent", &p).err().unwrap(), "payload missing 'system_prompt'");
    let p = obj(vec![("slug", s("a")), ("name", s("A")), ("system_prompt", s("be kind"))]);
    match plan_promotion("agent", &p).unwrap() {
        Promotion::Agent(d) => {
            assert_eq!(d.role_description, "");
            assert_eq!(d.system_prompt, "be kind");
        }
        _ => panic!("expected an agent"),
    }
}

#[test]
fn canvas_pack_promotion_merges_text_and_script() {
    let p = obj(vec![
        ("slug", s("pk")),
        ("name", s("Pack")),
        ("max_elements", num(4294967297)),
        (
            "elements",
            arr(vec![
                obj(vec![("element_type", s("text")), ("text_content", s("hi")), ("script", s("run()"))]),
                obj(vec![("element_type", s("script")), ("script", s("go()")), ("name", s("n"))]),
                obj(vec![("element_type", s("image"))]),
            ]),
        ),
    ]);
    match plan_promotion("canvas_pack", &p).unwrap() {
        Promotion::CanvasPack(d) => {
            assert_eq!(d.description, "");
            assert_eq!(d.box_height_dp, 220);
            assert_eq!(d.max_elements, 1);
            assert_eq!(d.elements.len(), 3);
            assert_eq!(d.elements[0].sort_order, 0);
            assert_eq!(d.elements[0].text_content.as_deref(), Some("hi\n\n---script---\nrun()"));
            assert_eq!(d.elements[1].text_content.as_deref(), Some("go()"));
            assert_eq!(d.elements[1].name, "n");
            assert_eq!(d.elements[2].sort_order, 2);
            assert_eq!(d.elements[2].text_content, None);
            assert!(d.elements.iter().all(|e| e.media_path.is_none()));
        }
        _ => panic!("expected a pack"),
    }
    let bad = obj(vec![("slug", s("pk")), ("name", s("Pack")), ("elements", arr(vec![obj(vec![("name", s("x"))])]))]);
    assert_eq!(plan_promotion("canvas_pack", &bad).err().unwrap(), "each element needs an element_type");
}

#[test]
fn unknown_content_type_is_refused() {
    let p = obj(vec![("slug", s("x"))]);
    assert_eq!(plan_promotion("prompt", &p).err().unwrap(), "unknown content type prompt");
}

#[test]
fn approval_decisions() {
    let p = obj(vec![("slug", s("a")), ("name", s("A")), ("system_prompt", s("p"))]);
    let e = plan_approval(None).err().unwrap();
    assert_eq!((e.status, e.message.as_str()), (409, "submission not pending"));
    let e = plan_approval(Some(("approved", "agent", &p))).err().unwrap();
    assert_eq!((e.status, e.message.as_str()), (409, "submission not pending"));
    let null = JsonValue::Null;
    let e = plan_approval(Some(("pending", "agent", &null))).err().unwrap();
    assert_eq!((e.status, e.message.as_str()), (409, "submission payload missing"));
    assert!(matches!(plan_approval(Some(("pending", "agent", &p))), Ok(Promotion::Agent(_))));
    let e = plan_approval(Some(("pending", "skill", &p))).err().unwrap();
    assert_eq!((e.status, e.message.as_str()), (400, "payload missing 'description'"));
}

// ---------------------------------------------------------------------------
// master content
// ---------------------------------------------------------------------------

#[test]
fn prompt_create_requires_slug_name_content() {
    let e = prompt_from_payload(&obj(vec![])).err().unwrap();
    assert_eq!((e.status, e.message.as_str()), (400, "missing 'slug'"));
    let e = prompt_from_payload(&obj(vec![("slug", s("x"))])).err().unwrap();
    assert_eq!(e.message, "missing 'name'");
    let e = prompt_from_payload(&obj(vec![("slug", s("x")), ("name", s("X"))])).err().unwrap();
    assert_eq!(e.message, "missing 'content'");
    let p = obj(vec![
        ("slug", s("x")),
        ("name", s("X")),
        ("content", s("c")),
        ("trigger_keywords", arr(vec![s("a"), num(1), s("b")])),
    ]);
    let d = prompt_from_payload(&p).unwrap();
    assert_eq!((d.category, d.delivery_mode), ("other", "always"));
    assert_eq!(d.trigger_keywords, vec!["a", "b"]);
}

#[test]
fn prompt_update_defaults_and_name() {
    let e = prompt_update_from_payload(&obj(vec![])).err().unwrap();
    assert_eq!((e.status, e.message.as_str()), (400, "missing 'slug'"));
    let p = obj(vec![("slug", s("x")), ("delivery_mode", s("keyword_injection"))]);
    let d = prompt_update_from_payload(&p).unwrap();
    assert_eq!((d.name, d.content, d.category, d.delivery_mode), ("", "", "other", "keyword_injection"));
    assert!(d.trigger_keywords.is_empty());
    assert_eq!(updated_prompt_name("", "Stored"), "Stored");
    assert_eq!(updated_prompt_name("New", "Stored"), "New");
}

#[test]
fn master_creates_fill_defaults() {
    let p = obj(vec![("author_label", s(""))]);
    let sk = skill_from_master(&p);
    assert_eq!((sk.slug, sk.name, sk.content), ("", "", ""));
    assert_eq!(sk.author_label, Some(""));
    let t = tool_from_master(&p);
    assert_eq!((t.category, t.execution_location), ("builtin", "on-device"));
    let ap = obj(vec![("system_prompt", s("sp"))]);
    let a = agent_from_master(&ap);
    assert_eq!((a.system_prompt, a.role_description), ("sp", ""));
    let pp = obj(vec![("box_height_dp", num(300))]);
    let pk = pack_from_master(&pp);
    assert_eq!((pk.box_height_dp, pk.max_elements), (300, 8));
    assert!(pk.elements.is_empty());
}

#[test]
fn element_lists() {
    let items = vec![
        obj(vec![("name", s("first"))]),
        obj(vec![("sort_order", num(7)), ("element_type", s("image")), ("media_path", s("m.png"))]),
    ];
    let els = parse_elements(&items);
    assert_eq!(els.len(), 2);
    assert_eq!((els[0].sort_order, els[0].element_type.as_str(), els[0].name.as_str()), (0, "text", "first"));
    assert_eq!((els[1].sort_order, els[1].media_path.as_deref()), (7, Some("m.png")));
    let e = elements_from_payload(&obj(vec![])).err().unwrap();
    assert_eq!((e.status, e.message.as_str()), (400, "missing 'elements'"));
    assert_eq!(elements_from_payload(&obj(vec![("elements", arr(items))])).unwrap().len(), 2);
    let op = obj(vec![("text_content", s("t"))]);
    let one = element_from_payload(&op);
    assert_eq!((one.sort_order, one.element_type.as_str()), (999, "text"));
    let cp = obj(vec![("sort_order", num(3)), ("name", s("n"))]);
    let change = element_change_from_payload(&cp);
    assert_eq!((change.sort_order, change.name, change.text_content), (Some(3), Some("n"), None));
}

#[test]
fn edits_keep_stored_fields() {
    let stored = SkillFields {
        name: "Old".to_string(),
        description: "d".to_string(),
        when_to_use: "w".to_string(),
        content: "c".to_string(),
        allowed_tools: arr(vec![]),
    };
    let sp = obj(vec![("name", s("New"))]);
    let e = skill_edit(&sp, &stored);
    assert_eq!((e.name, e.description, e.when_to_use, e.content), ("New", "d", "w", "c"));
    assert!(matches!(e.allowed_tools, JsonValue::Array(_)));

    let stored = ToolFields {
        name: "T".to_string(),
        description: "d".to_string(),
        category: "cat".to_string(),
        parameters: arr(vec![]),
        permissions: arr(vec![]),
        execution_location: "server".to_string(),
        code: "x".to_string(),
    };
    let tp = obj(vec![("code", s("y")), ("permissions", JsonValue::Null)]);
    let e = tool_edit(&tp, &stored);
    assert_eq!((e.code, e.category, e.execution_location), ("y", "cat", "server"));
    assert!(e.permissions.is_null());

    let stored = AgentFields {
        name: "A".to_string(),
        role_description: "r".to_string(),
        system_prompt: "p".to_string(),
        tool_permissions: arr(vec![]),
    };
    let gp = obj(vec![("system_prompt", s("q"))]);
    let e = agent_edit(&gp, &stored);
    assert_eq!((e.name, e.role_description, e.system_prompt), ("A", "r", "q"));

    let stored = PackFields {
        name: "P".to_string(),
        description: "d".to_string(),
        box_height_dp: 100,
        max_elements: 5,
        background_colour: Some("#fff".to_string()),
    };
    let kp = obj(vec![("max_elements", num(9))]);
    let e = pack_edit(&kp, &stored);
    assert_eq!((e.box_height_dp, e.max_elements, e.background_colour), (100, 9, Some("#fff")));
}
