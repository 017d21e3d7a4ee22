use emojis::{Group, SkinTone, UnicodeVersion};

#[test]
fn get_variation() {
    let cat = emojis::catalog();
    assert_eq!(emojis::lookup(&cat, "☹"), emojis::lookup(&cat, "☹️"));
}

#[test]
fn iter_only_default_skin_tones() {
    let cat = emojis::catalog();
    assert!(
        emojis::iter(&cat)
            .iter()
            .all(|emoji| matches!(emoji.skin_tone(), Some(SkinTone::Default) | None))
    );
    assert_ne!(
        emojis::iter(&cat)
            .iter()
            .filter(|emoji| matches!(emoji.skin_tone(), Some(SkinTone::Default)))
            .count(),
        0
    );
}

#[test]
fn unicode_version_partial_ord() {
    assert!(UnicodeVersion::new(13, 0) >= UnicodeVersion::new(12, 0));
    assert!(UnicodeVersion::new(12, 1) >= UnicodeVersion::new(12, 0));
    assert!(UnicodeVersion::new(12, 0) >= UnicodeVersion::new(12, 0));
    assert!(UnicodeVersion::new(12, 0) < UnicodeVersion::new(12, 1));
    assert!(UnicodeVersion::new(11, 0) < UnicodeVersion::new(12, 1));
    assert!(UnicodeVersion::new(11, 0) < UnicodeVersion::new(12, 1));
}

#[test]
fn emoji_partial_eq_str() {
    let cat = emojis::catalog();
    assert_eq!(emojis::lookup(&cat, "😀").unwrap(), "😀");
}

#[test]
fn emoji_display() {
    let cat = emojis::catalog();
    let s = emojis::lookup(&cat, "😀").unwrap().as_str().to_string();
    assert_eq!(s, "😀");
}

#[test]
fn emoji_skin_tones() {
    let cat = emojis::catalog();
    let skin_tones = [
        SkinTone::Default,
        SkinTone::Light,
        SkinTone::MediumLight,
        SkinTone::Medium,
        SkinTone::MediumDark,
        SkinTone::Dark,
    ];
    for emoji in emojis::iter(&cat) {
        match emoji.skin_tone() {
            Some(_) => {
                let emojis: Vec<_> = emoji.skin_tones(&cat).unwrap();
                assert_eq!(emojis.len(), 6);
                let default = emojis[0];
                for (emoji, skin_tone) in emojis.iter().zip(skin_tones) {
                    assert_eq!(emoji.skin_tone().unwrap(), skin_tone, "{emojis:#?}");
                    assert_eq!(emoji.with_skin_tone(&cat, SkinTone::Default).unwrap(), default);
                }
            }
            None => {
                assert!(emoji.skin_tones(&cat).is_none());
            }
        }
    }
}

#[test]
fn emoji_shortcodes() {
    let cat = emojis::catalog();
    for emoji in emojis::iter(&cat) {
        assert_eq!(emoji.shortcodes().first().map(|s| s.as_str()), emoji.shortcode());
    }
}

#[test]
fn group_iter_and_emojis() {
    let cat = emojis::catalog();
    let left: Vec<_> = Group::iter().iter().flat_map(|g| g.emojis(&cat)).collect();
    let right: Vec<_> = emojis::iter(&cat);
    assert_eq!(left, right);
}
