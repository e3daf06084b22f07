use touch_core::resolve_update_mode;
use touch_core::UpdateMode;

#[test]
fn no_flags_mean_both() {
    assert_eq!(UpdateMode::Both, resolve_update_mode(false, false, None));
}

#[test]
fn only_atime_narrows_to_access() {
    assert_eq!(UpdateMode::AccessOnly, resolve_update_mode(true, false, None));
}

#[test]
fn only_mtime_narrows_to_modification() {
    assert_eq!(UpdateMode::ModificationOnly, resolve_update_mode(false, true, None));
}

#[test]
fn time_word_mtime_narrows_to_modification() {
    assert_eq!(UpdateMode::ModificationOnly, resolve_update_mode(false, false, Some("mtime")));
}

#[test]
fn conflicting_flags_fall_back_to_both() {
    assert_eq!(UpdateMode::Both, resolve_update_mode(true, false, Some("mtime")));
    assert_eq!(UpdateMode::Both, resolve_update_mode(true, true, None));
    // both sides named by word and flag at once
    assert_eq!(UpdateMode::Both, resolve_update_mode(false, true, Some("access")));
}

#[test]
fn access_word_synonyms() {
    for word in ["access", "atime", "use"] {
        assert_eq!(UpdateMode::AccessOnly, resolve_update_mode(false, false, Some(word)));
    }
}

#[test]
fn modify_word_synonyms() {
    for word in ["modify", "mtime"] {
        assert_eq!(UpdateMode::ModificationOnly, resolve_update_mode(false, false, Some(word)));
    }
}

#[test]
fn unrecognized_word_changes_nothing() {
    assert_eq!(UpdateMode::Both, resolve_update_mode(false, false, Some("creation")));
    assert_eq!(UpdateMode::AccessOnly, resolve_update_mode(true, false, Some("creation")));
}

#[test]
fn mode_says_which_sides_it_writes() {
    assert!(UpdateMode::Both.applies_access());
    assert!(UpdateMode::Both.applies_modification());
    assert!(UpdateMode::AccessOnly.applies_access());
    assert!(!UpdateMode::AccessOnly.applies_modification());
    assert!(!UpdateMode::ModificationOnly.applies_access());
    assert!(UpdateMode::ModificationOnly.applies_modification());
}
