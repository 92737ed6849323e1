//! The filename validator and the per-file classification rule.

use webp_to_png::names::{classify, is_canonical, target_name, FileAction};

#[test]
fn canonical_accepts_alnum_stem_with_webp_extension() {
    assert!(is_canonical("abc123.webp"));
    assert!(is_canonical("a.webp"));
    assert!(is_canonical("0.webp"));
    assert!(is_canonical("ABCdef999.webp"));
}

#[test]
fn canonical_rejects_space_in_stem() {
    assert!(!is_canonical("abc 123.webp"));
}

#[test]
fn canonical_rejects_uppercase_extension() {
    assert!(!is_canonical("abc.WEBP"));
}

#[test]
fn canonical_rejects_empty_stem() {
    assert!(!is_canonical(".webp"));
}

#[test]
fn canonical_rejects_other_shapes() {
    assert!(!is_canonical(""));
    assert!(!is_canonical("webp"));
    assert!(!is_canonical("abc.png"));
    assert!(!is_canonical("abc.webp.webp"));
    assert!(!is_canonical("abc-1.webp"));
    assert!(!is_canonical("abc_1.webp"));
    assert!(!is_canonical("abc.webpp"));
    assert!(!is_canonical("abc.webp "));
    assert!(!is_canonical("dir/abc.webp"));
}

#[test]
fn classify_converts_canonical_names() {
    assert_eq!(classify("a1.webp"), FileAction::Convert);
    assert_eq!(classify("Z9.webp"), FileAction::Convert);
}

#[test]
fn classify_skips_target_extension() {
    assert_eq!(classify("photo.png"), FileAction::Skip);
    assert_eq!(classify("already converted.png"), FileAction::Skip);
    assert_eq!(classify("a.b.png"), FileAction::Skip);
}

#[test]
fn classify_deletes_everything_else() {
    assert_eq!(classify("bad name.webp"), FileAction::Delete);
    assert_eq!(classify("notes.txt"), FileAction::Delete);
    assert_eq!(classify(".png"), FileAction::Delete);
    assert_eq!(classify("photo.PNG"), FileAction::Delete);
    assert_eq!(classify("png"), FileAction::Delete);
    assert_eq!(classify(""), FileAction::Delete);
}

#[test]
fn target_name_replaces_extension() {
    assert_eq!(target_name("a1.webp"), "a1.png");
    assert_eq!(target_name("Photo42.webp"), "Photo42.png");
}
