use mawaku::naming::{
    component_token, format_context_line, list_or_unspecified, slugify, trimmed_or_none,
    truncate_component, unique_suffix, ImageNameBuilder, ImageNameContext, COMPONENT_MAX_LEN,
    DEFAULT_FILE_NAME_PREFIX, DEFAULT_RANDOM_SUFFIX_LENGTH,
};

#[test]
fn component_token_slugifies_input() {
    let token = component_token("Hakone, Japan");
    assert_eq!(token.as_deref(), Some("hakone-jap"));
}

#[test]
fn slugify_preserves_alphanumeric_segments() {
    let slug = slugify("Hakone, Japan");
    assert_eq!(slug.as_deref(), Some("hakone-japan"));
}

#[test]
fn builder_discards_empty_components() {
    let mut builder = ImageNameBuilder::new(DEFAULT_FILE_NAME_PREFIX);
    builder.push_component(Some("Hakone"));
    builder.push_component(Some("   "));
    builder.push_component(None);
    let context = builder.build();
    assert_eq!(context.base(), "mawaku-hakone");
}

#[test]
fn file_stem_includes_random_suffix() {
    let context = ImageNameBuilder::new(DEFAULT_FILE_NAME_PREFIX).build();
    let stem = context.file_stem(1);
    let (_, suffix) = stem
        .rsplit_once('-')
        .expect("file stem contains random suffix");
    assert_eq!(suffix.len(), DEFAULT_RANDOM_SUFFIX_LENGTH);
}

#[test]
fn image_name_context_builds_unique_file_stem() {
    let location = "Hakone, Japan".to_string();
    let season = Some("Spring".to_string());
    let time_of_day = Some("Dusk".to_string());

    let context = ImageNameContext::new(
        DEFAULT_FILE_NAME_PREFIX,
        &vec![
            Some(location.as_str()),
            season.as_deref(),
            time_of_day.as_deref(),
        ],
    );
    let stem = context.file_stem(1);

    assert!(stem.starts_with("mawaku-hakone-jap-spring-dusk-p1-"));

    let (_, suffix) = stem
        .rsplit_once('-')
        .expect("file stem includes random suffix separator");
    assert_eq!(suffix.len(), DEFAULT_RANDOM_SUFFIX_LENGTH);

    let mut chars: Vec<char> = suffix.chars().collect();
    chars.sort_unstable();
    chars.dedup();
    assert_eq!(chars.len(), DEFAULT_RANDOM_SUFFIX_LENGTH);
}

#[test]
fn image_name_context_truncates_long_components() {
    let location = "Extremely Long Location Name That Keeps Going".to_string();
    let season = Some("Supercalifragilisticexpialidocious".to_string());
    let time_of_day = Some("Midnight Sun Time".to_string());

    let context = ImageNameContext::new(
        DEFAULT_FILE_NAME_PREFIX,
        &vec![
            Some(location.as_str()),
            season.as_deref(),
            time_of_day.as_deref(),
        ],
    );
    let stem = context.file_stem(2);
    let pattern = format!("-p{}-", 2);
    let (base, _) = stem
        .split_once(&pattern)
        .expect("file stem includes prediction index separator");

    assert!(stem.starts_with("mawaku-extremely-supercalif-midnight-s-p2-"));
    assert_eq!(base, "mawaku-extremely-supercalif-midnight-s");

    let location_component = component_token(&location).expect("location component slug exists");
    assert_eq!(location_component, "extremely");

    let season_component =
        component_token(season.as_deref().unwrap()).expect("season component slug exists");
    assert_eq!(season_component.len(), COMPONENT_MAX_LEN);
    assert_eq!(season_component, "supercalif");

    let time_component =
        component_token(time_of_day.as_deref().unwrap()).expect("time component slug exists");
    assert_eq!(time_component.len(), COMPONENT_MAX_LEN);
    assert_eq!(time_component, "midnight-s");
}

#[test]
fn slugify_collapses_runs_and_trims_ends() {
    assert_eq!(slugify("  --Mount__Fuji../\\  at  Dawn!! ").as_deref(), Some("mount-fuji-at-dawn"));
    assert_eq!(slugify("Caf\u{e9} 24h").as_deref(), Some("caf-24h"));
    assert_eq!(slugify("A"), Some("a".to_string()));
}

#[test]
fn slugify_gives_none_without_letters_or_digits() {
    assert_eq!(slugify(""), None);
    assert_eq!(slugify("   "), None);
    assert_eq!(slugify("-_./\\"), None);
    assert_eq!(slugify("\u{e9}\u{e8}"), None);
}

#[test]
fn slugify_is_idempotent_on_its_output() {
    for input in ["Hakone, Japan", "a--b", "  X  ", "2024/05/01", "mount-fuji"] {
        let once = slugify(input).expect("input holds letters or digits");
        assert_eq!(slugify(&once), Some(once.clone()));
    }
}

#[test]
fn component_token_is_short_and_clean() {
    for input in [
        "Hakone, Japan",
        "abcdefghi   jkl",
        "Extremely Long Location Name That Keeps Going",
        "0123456789012345678901234567890",
        "a",
    ] {
        let token = component_token(input).expect("input holds letters or digits");
        assert!(!token.is_empty() && token.len() <= COMPONENT_MAX_LEN);
        assert!(token
            .chars()
            .all(|c| c.is_ascii_lowercase() || c.is_ascii_digit() || c == '-'));
        assert!(!token.starts_with('-') && !token.ends_with('-'));
    }
    assert_eq!(component_token("abcdefghi   jkl").as_deref(), Some("abcdefghi"));
    assert_eq!(component_token("?!"), None);
}

#[test]
fn truncate_component_keeps_short_text_and_cuts_long_text() {
    assert_eq!(truncate_component("short"), "short");
    assert_eq!(truncate_component("exactly-10"), "exactly-10");
    assert_eq!(truncate_component("trailing-"), "trailing-");
    assert_eq!(truncate_component("abcdefghijk"), "abcdefghij");
    assert_eq!(truncate_component("abcdefgh--xyz"), "abcdefgh");
    assert_eq!(truncate_component("-----------"), "----------");
    assert_eq!(truncate_component("\u{e9}\u{e9}\u{e9}\u{e9}\u{e9}-"), "\u{e9}\u{e9}\u{e9}\u{e9}\u{e9}");
}

#[test]
fn unique_suffix_draws_distinct_upper_case_letters_and_digits() {
    for length in [0usize, 1, 5, 36, 40] {
        let suffix = unique_suffix(length);
        assert_eq!(suffix.chars().count(), length.min(36));
        assert!(suffix
            .chars()
            .all(|c| c.is_ascii_uppercase() || c.is_ascii_digit()));
        let mut chars: Vec<char> = suffix.chars().collect();
        chars.sort_unstable();
        chars.dedup();
        assert_eq!(chars.len(), length.min(36));
    }
}

#[test]
fn file_stem_with_suffix_has_the_documented_form() {
    let context = ImageNameContext::new("mawaku", &vec![Some("Kyoto"), None, Some("  ")]);
    assert_eq!(context.base(), "mawaku-kyoto");
    assert_eq!(context.random_suffix_length(), DEFAULT_RANDOM_SUFFIX_LENGTH);
    assert_eq!(context.file_stem_with_suffix(0, "AB12C"), "mawaku-kyoto-p0-AB12C");
    assert_eq!(context.file_stem_with_suffix(120, "Z"), "mawaku-kyoto-p120-Z");
}

#[test]
fn builder_sets_the_suffix_length() {
    let context = ImageNameBuilder::new("img")
        .with_random_suffix_length(8)
        .build();
    assert_eq!(context.base(), "img");
    let stem = context.file_stem(3);
    assert!(stem.starts_with("img-p3-"));
    assert_eq!(stem.len(), "img-p3-".len() + 8);
}

#[test]
fn trimmed_or_none_drops_blank_values() {
    assert_eq!(trimmed_or_none(Some("  dusk \n")), Some("dusk"));
    assert_eq!(trimmed_or_none(Some("\u{3000}a b\u{a0}")), Some("a b"));
    assert_eq!(trimmed_or_none(Some(" \t ")), None);
    assert_eq!(trimmed_or_none(Some("")), None);
    assert_eq!(trimmed_or_none(None), None);
}

#[test]
fn list_or_unspecified_joins_what_is_left() {
    let items = vec![" chair ".to_string(), "".to_string(), "table".to_string()];
    assert_eq!(list_or_unspecified(&items), "chair, table");
    assert_eq!(list_or_unspecified(&vec!["  ".to_string()]), "Unspecified");
    assert_eq!(list_or_unspecified(&Vec::new()), "Unspecified");
}

#[test]
fn format_context_line_falls_back_to_unspecified() {
    assert_eq!(format_context_line("Season", Some(" Spring ")), "Season: Spring");
    assert_eq!(format_context_line("Season", Some("  ")), "Season: Unspecified");
    assert_eq!(format_context_line("Time of day", None), "Time of day: Unspecified");
}
