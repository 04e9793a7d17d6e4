use guru::masks::{built_in_masks, MASK_COUNT};
use guru::slug::{slugify, valid_slug};
use std::collections::HashSet;

#[test]
fn has_all_twenty_one_masks() {
    let masks = built_in_masks();
    assert_eq!(masks.len(), 21);
    let slugs: HashSet<_> = masks.iter().map(|m| m.slug.clone()).collect();
    assert_eq!(slugs.len(), 21, "slugs must be unique");
    assert!(slugs.contains("director"));
    assert!(slugs.contains("wingman"));
    assert!(slugs.contains("archivist"));
    assert!(slugs.contains("concierge"));
    assert!(slugs.contains("mechanic"));
    assert!(slugs.contains("code-engineer"));
    assert!(slugs.contains("research-guru"));
    assert!(slugs.contains("seer"));
    assert!(slugs.contains("deep-thinker"));
    assert!(slugs.contains("fixer"));
    assert!(slugs.contains("architect"));
    assert!(slugs.contains("project-manager"));
    assert!(slugs.contains("foreigner"));
    assert!(slugs.contains("forge"));
    assert!(slugs.contains("doctor"));
    assert!(slugs.contains("silk"));
    assert!(slugs.contains("signal"));
    assert!(slugs.contains("grafter"));
    assert!(slugs.contains("vault"));
    assert!(slugs.contains("sentinel"));
    assert!(slugs.contains("self-improvement-engine"));
}

#[test]
fn waves_are_between_one_and_four() {
    for m in built_in_masks() {
        assert!(
            (1..=4).contains(&m.wave),
            "{} has invalid wave {}",
            m.slug,
            m.wave
        );
    }
}

#[test]
fn masks_carry_their_table_row() {
    let masks = built_in_masks();
    assert_eq!(masks.len(), MASK_COUNT);
    let director = &masks[0];
    assert_eq!(director.id, 1);
    assert_eq!(director.slug, "director");
    assert_eq!(director.name, "Director");
    assert_eq!(
        director.tool_permissions,
        vec!["mask.list", "mask.invoke", "conversation.read", "conversation.create"]
    );
    assert_eq!(director.wave, 1);
    assert_eq!(director.schedule_cron, None);
    assert!(director.is_builtin);
    assert!(director.system_prompt.starts_with("You are Director"));

    let wingman = &masks[1];
    assert_eq!(wingman.tool_permissions, vec!["memory.read", "memory.write", "user.model"]);

    let mechanic = &masks[4];
    assert_eq!(mechanic.schedule_cron.as_deref(), Some("0 */5 * * * *"));

    let last = &masks[20];
    assert_eq!(last.id, 21);
    assert_eq!(last.slug, "self-improvement-engine");
    assert_eq!(last.wave, 4);
    assert_eq!(last.schedule_cron.as_deref(), Some("0 0 3 * * *"));
    for (i, m) in masks.iter().enumerate() {
        assert_eq!(m.id, i as u128 + 1);
        assert!(valid_slug(&m.slug));
    }
}

#[test]
fn valid_slug_accepts_dashed_lowercase_words() {
    assert!(valid_slug("director"));
    assert!(valid_slug("code-engineer"));
    assert!(valid_slug("a1-b2-c3"));
    assert!(valid_slug(&"a".repeat(64)));
}

#[test]
fn valid_slug_rejects_bad_shapes() {
    assert!(!valid_slug(""));
    assert!(!valid_slug("-lead"));
    assert!(!valid_slug("trail-"));
    assert!(!valid_slug("double--dash"));
    assert!(!valid_slug("Upper"));
    assert!(!valid_slug("with space"));
    assert!(!valid_slug("under_score"));
    assert!(!valid_slug("é"));
    assert!(!valid_slug(&"a".repeat(65)));
}

#[test]
fn slugify_lowercases_and_dashes() {
    assert_eq!(slugify("Hello World"), "hello-world");
    assert_eq!(slugify("  System / Core__Rules!! "), "system-core-rules");
    assert_eq!(slugify("Déjà Vu"), "d-j-vu");
    assert_eq!(slugify("v2.0 Release"), "v2-0-release");
}

#[test]
fn slugify_names_empty_sections() {
    assert_eq!(slugify(""), "unnamed-section");
    assert_eq!(slugify("!!! ---"), "unnamed-section");
}

#[test]
fn slugify_keeps_eighty_characters() {
    let long = "word ".repeat(40);
    let s = slugify(&long);
    assert_eq!(s.chars().count(), 80);
    assert!(s.starts_with("word-word"));
    // the cut can fall on a dash
    assert!(s.ends_with('-'));
}

#[test]
fn slugify_leaves_a_slug_unchanged() {
    assert_eq!(slugify("deep-thinker"), "deep-thinker");
    assert_eq!(slugify("x9"), "x9");
}

#[test]
fn slugify_uses_unicode_lowercasing() {
    // KELVIN SIGN lowercases to an ASCII 'k'
    assert_eq!(slugify("\u{212A}ilo"), "kilo");
}

#[test]
fn mask_names_slugify_to_their_slugs() {
    for m in built_in_masks() {
        assert!(valid_slug(&m.slug), "{} is not a valid slug", m.slug);
        assert_eq!(slugify(&m.name), m.slug);
    }
    let masks = built_in_masks();
    assert_eq!(masks[20].name, "Self-Improvement Engine");
    assert_eq!(slugify(&masks[20].name), "self-improvement-engine");
}

#[test]
fn slugify_is_idempotent_beyond_sixty_four_characters() {
    let name = "Alpha Beta Gamma Delta Epsilon Zeta Eta Theta Iota Kappa Lambda Mu";
    let once = slugify(name);
    assert_eq!(once, "alpha-beta-gamma-delta-epsilon-zeta-eta-theta-iota-kappa-lambda-mu");
    assert!(once.len() > 64 && once.len() < 80);
    assert!(!valid_slug(&once));
    assert_eq!(slugify(&once), once);
    let short = slugify("  Hello,  World!  ");
    assert_eq!(short, "hello-world");
    assert_eq!(slugify(&short), short);
}
