use emojis::{Catalog, Emoji, Group, SkinTone, UnicodeVersion};

fn record(sequence: &str, group: Group, tone: Option<SkinTone>) -> Emoji {
    Emoji::new(0, sequence, group, "test", Vec::new(), UnicodeVersion::new(6, 0), tone)
}

#[test]
fn emoji_new() {
    let a = record("\u{1f600}", Group::SmileysAndEmotion, None);
    let b = record("😀", Group::SmileysAndEmotion, None);
    assert_eq!(a, b);
}

#[test]
fn emoji_ordering() {
    let cat = emojis::catalog();
    let grinning_face = emojis::lookup(&cat, "😀");
    let winking_face = emojis::lookup(&cat, "😉");
    assert!(grinning_face < winking_face);
    assert!(winking_face > grinning_face);
    assert!(grinning_face == grinning_face);
}

#[test]
fn emoji_ordering_transitive() {
    let cat = emojis::catalog();
    let a = emojis::lookup(&cat, "😀").unwrap();
    let b = emojis::lookup(&cat, "😉").unwrap();
    let c = emojis::lookup(&cat, "☹️").unwrap();
    assert!(a < b && b < c && a < c);
    assert!(!(b < a));
}

#[test]
fn lookup_absent() {
    let cat = emojis::catalog();
    assert!(emojis::lookup(&cat, "ʕっ•ᴥ•ʔっ").is_none());
    assert!(emojis::lookup(&cat, "").is_none());
}

#[test]
fn lookup_exact_values() {
    let cat = emojis::catalog();
    let rocket = emojis::lookup(&cat, "🚀").unwrap();
    assert_eq!(rocket.as_str(), "🚀");
    assert_eq!(rocket.shortcode(), Some("rocket"));
    assert_eq!(rocket.group(), Group::TravelAndPlaces);
    assert_eq!(emojis::lookup(&cat, "😀").unwrap().id(), 0);
}

#[test]
fn lookup_finds_skin_tone_variant() {
    let cat = emojis::catalog();
    let medium = emojis::lookup(&cat, "👋🏽").unwrap();
    assert_eq!(medium.skin_tone(), Some(SkinTone::Medium));
    assert_eq!(medium.shortcode(), None);
}

#[test]
fn with_skin_tone_round_trip() {
    let cat = emojis::catalog();
    let wave = emojis::lookup(&cat, "👋").unwrap();
    let medium = wave.with_skin_tone(&cat, SkinTone::Medium).unwrap();
    assert_eq!(medium.as_str(), "👋🏽");
    assert_eq!(medium.skin_tone(), Some(SkinTone::Medium));
    let again = medium.with_skin_tone(&cat, SkinTone::Medium).unwrap();
    assert_eq!(again, medium);
    let back = medium.with_skin_tone(&cat, SkinTone::Default).unwrap();
    assert_eq!(back, wave);
}

#[test]
fn no_skin_tone_emoji() {
    let cat = emojis::catalog();
    let turtle = emojis::lookup(&cat, "🐢").unwrap();
    assert_eq!(turtle.skin_tone(), None);
    assert!(turtle.skin_tones(&cat).is_none());
    assert!(turtle.with_skin_tone(&cat, SkinTone::Dark).is_none());
}

#[test]
fn shortcode_order() {
    let cat = emojis::catalog();
    let wink = emojis::lookup(&cat, "😉").unwrap();
    assert_eq!(wink.shortcode(), Some("wink"));
    let codes: Vec<&str> = wink.shortcodes().iter().map(|s| s.as_str()).collect();
    assert_eq!(codes, vec!["wink", "winking_face"]);
}

#[test]
fn group_membership() {
    let cat = emojis::catalog();
    let groups = Group::iter();
    assert_eq!(groups.len(), 9);
    assert_eq!(groups[0], Group::SmileysAndEmotion);
    assert_eq!(groups[8], Group::Flags);
    let nature: Vec<_> = Group::AnimalsAndNature.emojis(&cat);
    assert_eq!(nature.len(), 1);
    assert_eq!(nature[0].as_str(), "🐢");
    let turtle = emojis::lookup(&cat, "🐢").unwrap();
    assert_eq!(turtle.group(), Group::AnimalsAndNature);
    assert_eq!(turtle.subgroup(), "animal-reptile");
}

#[test]
fn version_values() {
    let cat = emojis::catalog();
    let grinning = emojis::lookup(&cat, "😀").unwrap();
    assert_eq!(grinning.version(), UnicodeVersion::new(6, 1));
    assert_eq!(grinning.version().major(), 6);
    assert_eq!(grinning.version().minor(), 1);
}

#[test]
fn iter_counts() {
    let cat = emojis::catalog();
    assert_eq!(cat.len(), 17);
    // Twelve records survive plain iteration: the five non-default waves stay out.
    assert_eq!(emojis::iter(&cat).len(), 12);
    assert_eq!(emojis::iter(&cat)[0].as_str(), "😀");
}

#[test]
fn from_entries_accepts_valid_records() {
    let entries = vec![
        record("🚀", Group::TravelAndPlaces, None),
        record("⭐", Group::TravelAndPlaces, None),
    ];
    let cat = Catalog::from_entries(&entries).unwrap();
    assert_eq!(cat.len(), 2);
    assert!(emojis::lookup(&cat, "⭐").is_some());
}

#[test]
fn from_entries_rejects_duplicate_sequences() {
    let entries = vec![
        record("🚀", Group::TravelAndPlaces, None),
        record("🚀", Group::TravelAndPlaces, None),
    ];
    assert!(Catalog::from_entries(&entries).is_none());
}

#[test]
fn from_entries_rejects_unordered_groups() {
    let entries = vec![
        record("🏁", Group::Flags, None),
        record("😀", Group::SmileysAndEmotion, None),
    ];
    assert!(Catalog::from_entries(&entries).is_none());
}

#[test]
fn from_entries_rejects_incomplete_family() {
    let entries = vec![record("👋", Group::PeopleAndBody, Some(SkinTone::Light))];
    assert!(Catalog::from_entries(&entries).is_none());
}
