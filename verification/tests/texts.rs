use pika_backup::duration::{ago, ago_text, from_std, left, plain, plain_lowercase, Span, MAX_SECONDS};
use pika_backup::i18n::{decimal_string, fill_args, fill_count, replace_first, translate_keys, Catalog, CatalogKey, Text};
use pika_backup::text::{contains_str, ellipsize_end, ellipsize_multiline, join};

fn catalog() -> Catalog {
    Catalog::open("pika-backup").expect("the text domain is bound to UTF-8")
}

#[test]
fn translatable_text_renders_as_its_key_without_catalog() {
    assert_eq!(Text::translatable("Idle").render(&catalog()), "Idle");
    assert_eq!(Text::verbatim("as is").render(&catalog()), "as is");
}

#[test]
fn plural_text_renders_by_count() {
    assert_eq!(Text::plural("One day", "{} days", 1).render(&catalog()), "One day");
    assert_eq!(Text::plural("One day", "{} days", 4).render(&catalog()), "4 days");
}

#[test]
fn format_text_fills_placeholders_in_order() {
    let t = Text::format("{} can be {} unplugged.", vec!["Disk".to_string(), "safely".to_string()]);
    assert_eq!(t.render(&catalog()), "Disk can be safely unplugged.");
    let c = Text::concat(Text::verbatim("a"), Text::concat(Text::verbatim(" – "), Text::translatable("b")));
    assert_eq!(c.render(&catalog()), "a – b");
}

#[test]
fn placeholder_filling() {
    assert_eq!(replace_first("x {} y {}", "1"), "x 1 y {}");
    assert_eq!(replace_first("no placeholder", "1"), "no placeholder");
    assert_eq!(fill_count("{} weeks ago", 12), "12 weeks ago");
    assert_eq!(fill_args("{}-{}-{}", &vec!["a".to_string(), "b".to_string()]), "a-b-{}");
    assert_eq!(decimal_string(0), "0");
    assert_eq!(decimal_string(4294967295), "4294967295");
}

#[test]
fn durations_in_words() {
    assert_eq!(plain(&Span::from_seconds(45), &catalog()), "45 seconds");
    assert_eq!(plain(&Span::from_seconds(60), &catalog()), "One minute");
    assert_eq!(plain(&Span::from_seconds(3 * 3600), &catalog()), "3 hours");
    assert_eq!(plain(&Span::from_seconds(47 * 3600), &catalog()), "47 hours");
    assert_eq!(plain(&Span::from_seconds(3 * 86400), &catalog()), "3 days");
    assert_eq!(plain_lowercase(&Span::from_seconds(1), &catalog()), "one second");
    assert_eq!(left(&Span::from_seconds(0), &catalog()), "One minute left");
    assert_eq!(left(&Span::from_seconds(90 * 60), &catalog()), "2 hours left");
    assert_eq!(left(&Span::from_seconds(5 * 86400), &catalog()), "6 days left");
}

#[test]
fn elapsed_time_in_words() {
    assert_eq!(ago(&Span::from_seconds(30), &catalog()), "Now");
    assert_eq!(ago(&Span::from_seconds(5 * 60), &catalog()), "5 minutes ago");
    assert_eq!(ago(&Span::from_seconds(3600), &catalog()), "One hour ago");
    assert_eq!(ago(&Span::from_seconds(2 * 86400), &catalog()), "2 days ago");
    assert_eq!(ago(&Span::from_seconds(14 * 86400), &catalog()), "2 weeks ago");
    assert_eq!(ago(&Span::from_seconds(60 * 86400), &catalog()), "2 months ago");
    assert_eq!(ago(&Span::from_seconds(800 * 86400), &catalog()), "2 years ago");
    assert_eq!(ago_text(&Span::from_seconds(10)), Text::Translatable("Now".to_string()));
}

#[test]
fn negative_spans_round_toward_zero() {
    let d = Span::from_seconds(-119);
    assert_eq!(d.num_minutes(), -1);
    assert_eq!(d.num_hours(), 0);
    assert_eq!(Span::from_seconds(-86400 * 8).num_weeks(), -1);
}

#[test]
fn standard_durations_are_capped() {
    assert_eq!(from_std(5).num_seconds(), 5);
    assert_eq!(from_std(u64::MAX).num_seconds(), MAX_SECONDS);
}

#[test]
fn joining_and_searching() {
    assert_eq!(join(&vec!["a".to_string(), "b".to_string(), "c".to_string()], ", "), "a, b, c");
    assert_eq!(join(&Vec::new(), ", "), "");
    assert!(contains_str("[cache]\n[repository]\nid = 1", "[repository]"));
    assert!(!contains_str("[reposit", "[repository]"));
}

#[test]
fn short_texts_are_not_ellipsized() {
    assert_eq!(ellipsize_end("short", 96), "short");
    assert_eq!(ellipsize_multiline("line\nline"), "line\nline");
}

#[test]
fn long_texts_are_ellipsized_by_characters() {
    assert_eq!(ellipsize_end("abcdef", 4), "abc…");
    assert_eq!(ellipsize_end("äöüßéè", 4), "äöü…");
    assert_eq!(ellipsize_end("abc", 0), "…");
    assert_eq!(ellipsize_end("äöüßéè", 4).chars().count(), 4);
}

#[test]
fn long_multiline_texts_keep_head_and_tail() {
    let text: String = (0..600).map(|i| char::from(b'a' + (i % 26) as u8)).collect();
    let r = ellipsize_multiline(&text);
    let head: String = text.chars().take(300).collect();
    let tail: String = text.chars().skip(400).collect();
    assert_eq!(r, format!("{}\n…\n{}", head, tail));
}

#[test]
fn catalog_refuses_names_holding_nul() {
    assert!(Catalog::open("pika\0backup").is_none());
    assert_eq!(catalog().domain(), "pika-backup");
}

#[test]
fn catalog_keys_come_in_text_order() {
    let t = Text::concat(
        Text::translatable("Idle"),
        Text::concat(Text::verbatim(" – "), Text::plural("One day", "{} days", 3)),
    );
    assert_eq!(
        t.catalog_keys(),
        vec![
            CatalogKey::Single("Idle".to_string()),
            CatalogKey::Counted { singular: "One day".to_string(), plural: "{} days".to_string(), n: 3 },
        ]
    );
    assert_eq!(Text::verbatim("x").catalog_keys(), Vec::new());
}

#[test]
fn assembly_puts_each_translation_in_place() {
    let t = Text::concat(
        Text::translatable("Idle"),
        Text::concat(Text::verbatim(" – "), Text::plural("One day", "{} days", 3)),
    );
    let tr = vec!["Inaktiv".to_string(), "{} Tage".to_string()];
    assert_eq!(t.assemble(&tr), "Inaktiv – 3 Tage");
    let f = Text::format("{} of {}", vec!["a".to_string(), "b".to_string()]);
    assert_eq!(f.assemble(&vec!["{} von {}".to_string()]), "a von b");
}

#[test]
fn untranslated_keys_come_back_as_they_are() {
    let keys = vec![
        CatalogKey::Single("Idle".to_string()),
        CatalogKey::Counted { singular: "One day".to_string(), plural: "{} days".to_string(), n: 1 },
        CatalogKey::Counted { singular: "One day".to_string(), plural: "{} days".to_string(), n: 2 },
    ];
    assert_eq!(translate_keys(&catalog(), &keys), vec!["Idle", "One day", "{} days"]);
}
