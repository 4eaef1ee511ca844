use activity_reconcile::error::ActivityError;
use activity_reconcile::slug::{check_slug, slug_char, AppName, OrgSlug, SecretKey, VolumeId};

#[test]
fn slug_accepts_letters_digits_and_hyphens() {
    for text in ["my-app", "A", "0", "-", "a-B-9", "personal", "vol-4d8f"] {
        let part = AppName::new(text.to_string()).unwrap();
        assert_eq!(text, part.as_ref());
        assert!(check_slug(text));
    }
}

#[test]
fn a_copy_is_the_same_identifier() {
    let part = AppName::new("my-app".to_string()).unwrap();
    let copy = part.clone();
    assert_eq!(part, copy);
    assert_eq!("my-app", copy.as_ref());
}

#[test]
fn slug_accepts_the_empty_text() {
    let part = OrgSlug::new(String::new()).unwrap();
    assert_eq!("", part.as_ref());
}

#[test]
fn slug_rejects_everything_else() {
    for text in [
        "a/b", "../etc", "a b", "a?b", "a#b", "a%2f", "a_b", "a.b", "é", "a\n", "app\u{0}", "a:b",
        "vol_vjeylkgg6gll7j94",
    ] {
        match SecretKey::new(text.to_string()) {
            Err(e @ ActivityError::Validation) => assert_eq!("illegal slug", e.message()),
            _ => panic!("{text:?} was accepted"),
        }
        assert!(!check_slug(text));
        assert!(VolumeId::new(text.to_string()).is_err());
    }
}

#[test]
fn slug_char_is_ascii_only() {
    assert!(slug_char('a') && slug_char('z') && slug_char('A') && slug_char('Z'));
    assert!(slug_char('0') && slug_char('9') && slug_char('-'));
    for c in ['/', '_', '.', ' ', '`', '{', '@', '[', ':', 'é', 'ß', '٣', '\u{ff10}'] {
        assert!(!slug_char(c), "{c:?}");
    }
}
