use guru::auth::{bearer_token, token_decision, bearer_digest, TokenLookup};
use guru::digest::{code_checksum, hash_token};
use guru::etag::{
    agent_etag, entry_etag, etag_matches, list_etag, manifest_etag, media_etag, EtagRow, Etagged,
};
use guru::replies::{
    activation_message, import_delivery_mode, internal_error, media_type, not_found,
    row_write_reply, subject_message, RowWrite,
};

const ABC_SHA256: &str = "ba7816bf8f01cfea414140de5dae2223b00361a396177a9cb410ff61f20015ad";

fn row(key: &str, version: i32, updated: &str) -> EtagRow {
    EtagRow { key: key.to_string(), version, updated: updated.to_string() }
}

#[test]
fn token_digest_is_lowercase_hex_sha256() {
    assert_eq!(hash_token("abc"), ABC_SHA256);
    assert_eq!(
        hash_token(""),
        "e3b0c44298fc1c149afbf4c8996fb92427ae41e4649b934ca495991b7852b855"
    );
}

#[test]
fn code_checksum_is_sha256_of_the_code() {
    assert_eq!(code_checksum("abc"), ABC_SHA256);
    assert_ne!(code_checksum("abc"), "abc");
}

#[test]
fn bearer_token_strips_the_scheme() {
    assert_eq!(bearer_token(Some("Bearer secret")), Some("secret"));
    assert_eq!(bearer_token(Some("Bearer ")), Some(""));
    assert_eq!(bearer_token(Some("Basic abc")), None);
    assert_eq!(bearer_token(Some("bearer abc")), None);
    assert_eq!(bearer_token(Some("Bear")), None);
    assert_eq!(bearer_token(None), None);
}

#[test]
fn bearer_digest_hashes_the_bearer_token() {
    assert_eq!(bearer_digest(Some("Bearer abc")).unwrap(), ABC_SHA256);
    let e = bearer_digest(Some("Token abc")).unwrap_err();
    assert_eq!(e.status, 401);
    assert_eq!(e.message, "missing bearer token");
    assert_eq!(bearer_digest(None).unwrap_err().status, 401);
}

#[test]
fn token_decision_follows_the_lookup() {
    assert_eq!(token_decision(TokenLookup::Active(7)).unwrap(), 7);
    let e = token_decision(TokenLookup::Unknown).unwrap_err();
    assert_eq!((e.status, e.message.as_str()), (401, "invalid token"));
    let e = token_decision(TokenLookup::Failed).unwrap_err();
    assert_eq!((e.status, e.message.as_str()), (500, "internal error"));
}

#[test]
fn entry_etags_name_kind_slug_and_version() {
    assert_eq!(entry_etag("prompt", "greeting", 3), "\"prompt-greeting-v3\"");
    assert_eq!(entry_etag("pack", "p", -12), "\"pack-p-v-12\"");
    assert_eq!(entry_etag("skill", "s", i32::MIN), "\"skill-s-v-2147483648\"");
    assert_eq!(agent_etag("director"), "\"agent-director\"");
    assert_eq!(manifest_etag("abc123"), "\"guru-manifest-abc123\"");
    assert_eq!(media_etag("42"), "\"media-42\"");
}

#[test]
fn etagged_pairs_value_and_tag() {
    let e = Etagged::new("\"x\"".to_string(), 5u8);
    assert_eq!(e.etag, "\"x\"");
    assert_eq!(e.value, 5);
}

#[test]
fn if_none_match_exact_and_weak() {
    let tag = "\"skill-a-v1\"";
    assert!(etag_matches(tag, tag));
    assert!(etag_matches("W/\"skill-a-v1\"", tag));
    assert!(etag_matches("  \"other\" , W/\"skill-a-v1\"  ", tag));
    assert!(etag_matches("*", tag));
    assert!(etag_matches("\"x\", *", tag));
    assert!(!etag_matches("\"skill-a-v2\"", tag));
    assert!(!etag_matches("", tag));
    assert!(!etag_matches("\"skill-a-v1\"x", tag));
}

#[test]
fn list_etag_has_a_known_value() {
    let rows = vec![
        row("beta", 1, "2024-02-01 00:00:00 UTC"),
        row("alpha", 2, "2024-01-01 00:00:00 UTC"),
    ];
    assert_eq!(
        list_etag("skills", &rows),
        "\"skills-983f5ec0921885b3c14f99f1dc11af9195345fb2bb8cdf95b850f7cda3a71c89\""
    );
}

#[test]
fn list_etag_ignores_row_order() {
    let a = vec![row("a", 1, "t1"), row("b", 2, "t2"), row("c", 3, "t3")];
    let b = vec![row("c", 3, "t3"), row("a", 1, "t1"), row("b", 2, "t2")];
    assert_eq!(list_etag("tools", &a), list_etag("tools", &b));
}

#[test]
fn list_etag_changes_with_content() {
    let a = vec![row("a", 1, "t1")];
    let b = vec![row("a", 2, "t1")];
    assert_ne!(list_etag("tools", &a), list_etag("tools", &b));
    assert_ne!(list_etag("tools", &a), list_etag("skills", &a));
    let empty: Vec<EtagRow> = Vec::new();
    assert_eq!(
        list_etag("config", &empty),
        "\"config-e3b0c44298fc1c149afbf4c8996fb92427ae41e4649b934ca495991b7852b855\""
    );
}

#[test]
fn replies_have_their_texts() {
    let e = not_found("greeting");
    assert_eq!((e.status, e.message.as_str()), (404, "not found: greeting"));
    let e = internal_error();
    assert_eq!((e.status, e.message.as_str()), (500, "internal error"));
    assert_eq!(activation_message("greeting", true), "greeting active=true");
    assert_eq!(activation_message("greeting", false), "greeting active=false");
    assert_eq!(subject_message("config '", "theme", "' set"), "config 'theme' set");
}

#[test]
fn row_write_reply_by_outcome() {
    assert_eq!(
        row_write_reply(RowWrite::Written, "x deleted".to_string(), "no such skill"),
        (200, "x deleted".to_string())
    );
    assert_eq!(
        row_write_reply(RowWrite::Missing, "x deleted".to_string(), "no such skill"),
        (404, "no such skill".to_string())
    );
    assert_eq!(
        row_write_reply(RowWrite::Failed, "x deleted".to_string(), "no such skill"),
        (500, "internal error".to_string())
    );
}

#[test]
fn media_type_defaults_to_octet_stream() {
    assert_eq!(media_type(Some("image/png")), "image/png");
    assert_eq!(media_type(None), "application/octet-stream");
}

#[test]
fn import_keeps_only_keyword_injection() {
    assert_eq!(import_delivery_mode("keyword_injection"), "keyword_injection");
    assert_eq!(import_delivery_mode("always"), "always");
    assert_eq!(import_delivery_mode("scheduled"), "always");
}

#[test]
fn list_etag_is_label_plus_sixty_seven_characters() {
    for label in ["", "skills", "canvas-packs"] {
        let tag = list_etag(label, &vec![row("a", 1, "t")]);
        assert_eq!(tag.chars().count(), label.chars().count() + 67);
        let empty = list_etag(label, &vec![]);
        assert_eq!(empty.chars().count(), label.chars().count() + 67);
    }
}
