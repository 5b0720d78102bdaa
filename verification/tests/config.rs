use libmoss::client::resolve::{GlobEntry, Lookup};
use libmoss::prelude::{ErrorKind, MossConfig, MossLanguage};

#[test]
fn new_config_has_the_defaults() {
    let cfg = MossConfig::new("123456789", ("moss.stanford.edu", 7690u16));
    assert_eq!(cfg.user_id(), "123456789");
    assert_eq!(cfg.comment(), "");
    assert_eq!(*cfg.language(), MossLanguage::C);
    assert!(!*cfg.use_directory_mode());
    assert!(!*cfg.use_experimental_mode());
    assert_eq!(*cfg.max_matches_displayed(), 250);
    assert_eq!(*cfg.max_ignore_threshold(), 10);
    assert!(cfg.transform().is_none());
    assert!(cfg.base_files().is_empty());
    assert!(cfg.submission_files().is_empty());
    assert_eq!(*cfg.server_address(), ("moss.stanford.edu", 7690u16));
}

#[test]
fn setters_chain_and_change_one_field_each() {
    let mut cfg = MossConfig::new("1", ());
    cfg.set_use_experimental_mode(true)
        .set_max_matches_displayed(30)
        .set_max_ignore_threshold(4)
        .set_comment("lab 2".to_string())
        .set_language(MossLanguage::PYTHON)
        .set_use_directory_mode(true)
        .set_user_id("42".to_string());
    assert_eq!(cfg.user_id(), "42");
    assert_eq!(cfg.comment(), "lab 2");
    assert_eq!(*cfg.language(), MossLanguage::PYTHON);
    assert!(*cfg.use_directory_mode());
    assert!(*cfg.use_experimental_mode());
    assert_eq!(*cfg.max_matches_displayed(), 30);
    assert_eq!(*cfg.max_ignore_threshold(), 4);
    assert!(cfg.base_files().is_empty());
}

#[test]
fn add_path_keeps_an_existing_path() {
    let mut cfg = MossConfig::new("1", ());
    assert!(cfg.add_path("/".to_string()).is_ok());
    assert!(cfg.add_base_path("/".to_string()).is_ok());
    assert_eq!(cfg.submission_files(), &vec!["/".to_string()]);
    assert_eq!(cfg.base_files(), &vec!["/".to_string()]);
}

#[test]
fn add_path_refuses_a_missing_path() {
    let mut cfg = MossConfig::new("1", ());
    let e = cfg.add_path("/no-such-directory-for-this-test/a.c".to_string()).unwrap_err();
    assert_eq!(e.kind(), ErrorKind::PathResolution);
    assert_eq!(e.message(), "Path does not exist: /no-such-directory-for-this-test/a.c");
    assert!(cfg.submission_files().is_empty());
    let e = cfg.add_base_path("/no-such-directory-for-this-test/b.c".to_string()).unwrap_err();
    assert_eq!(e.kind(), ErrorKind::PathResolution);
    assert_eq!(e.message(), "Path does not exist: /no-such-directory-for-this-test/b.c");
    assert!(cfg.base_files().is_empty());
}

#[test]
fn adding_chains_like_the_setters() {
    let mut cfg = MossConfig::new("1", ());
    cfg.add_path("/".to_string())
        .unwrap()
        .add_base_path("/".to_string())
        .unwrap()
        .add_file("/")
        .unwrap()
        .set_comment("chained".to_string());
    assert_eq!(cfg.submission_files(), &vec!["/", "/"]);
    assert_eq!(cfg.base_files(), &vec!["/"]);
    assert_eq!(cfg.comment(), "chained");
}

#[test]
fn files_keep_the_order_of_adding() {
    let mut cfg = MossConfig::new("1", ());
    let first = Lookup::Matches(vec![
        GlobEntry::Readable("z.c".to_string()),
        GlobEntry::Readable("a.c".to_string()),
    ]);
    assert!(cfg.add_lookup("*.c", first).is_ok());
    assert!(cfg.add_lookup("m.c", Lookup::Literal).is_ok());
    assert!(cfg.add_base_lookup("base.c", Lookup::Literal).is_ok());
    assert!(cfg.add_lookup("m.c", Lookup::Literal).is_ok());
    assert_eq!(cfg.submission_files(), &vec!["z.c", "a.c", "m.c", "m.c"]);
    assert_eq!(cfg.base_files(), &vec!["base.c"]);
    let again: Vec<&String> = cfg.submission_files().iter().collect();
    let once_more: Vec<&String> = cfg.submission_files().iter().collect();
    assert_eq!(again, once_more);
}

#[test]
fn a_path_may_be_base_and_submission() {
    let mut cfg = MossConfig::new("1", ());
    assert!(cfg.add_base_file("/").is_ok());
    assert!(cfg.add_file("/").is_ok());
    assert_eq!(cfg.base_files(), &vec!["/"]);
    assert_eq!(cfg.submission_files(), &vec!["/"]);
}

#[test]
fn pattern_without_match_leaves_the_set_empty() {
    let mut cfg = MossConfig::new("1", ());
    assert!(cfg.add_file("/no-such-directory-for-this-test/*.py").is_ok());
    assert!(cfg.submission_files().is_empty());
    assert!(cfg.add_file("no-such-name-for-this-test-*.py").is_ok());
    assert!(cfg.submission_files().is_empty());
    assert!(cfg.base_files().is_empty());
}

#[test]
fn undefined_variable_adds_no_path() {
    let mut cfg = MossConfig::new("1", ());
    let e = cfg.add_file("$MOSS_TEST_UNDEFINED/*.c").unwrap_err();
    assert_eq!(e.kind(), ErrorKind::PathResolution);
    assert!(e.message().contains("MOSS_TEST_UNDEFINED"));
    assert!(cfg.submission_files().is_empty());
    let e = cfg.add_base_file("$MOSS_TEST_UNDEFINED/*.c").unwrap_err();
    assert_eq!(e.kind(), ErrorKind::PathResolution);
    assert!(cfg.base_files().is_empty());
}

#[test]
fn checked_path_is_appended_exactly_when_present() {
    let mut cfg = MossConfig::new("1", ());
    assert!(cfg.add_lookup("first.c", Lookup::Literal).is_ok());
    assert!(cfg.add_base_lookup("first.c", Lookup::Literal).is_ok());
    assert!(cfg.add_checked_path("first.c".to_string(), true).is_ok());
    assert!(cfg.add_checked_path("second.c".to_string(), true).is_ok());
    assert_eq!(cfg.submission_files(), &vec!["first.c", "first.c", "second.c"]);
    assert_eq!(cfg.base_files(), &vec!["first.c"]);
    let e = cfg.add_checked_path("third.c".to_string(), false).unwrap_err();
    assert_eq!(e.kind(), ErrorKind::PathResolution);
    assert_eq!(e.message(), "Path does not exist: third.c");
    assert_eq!(cfg.submission_files(), &vec!["first.c", "first.c", "second.c"]);
    assert_eq!(cfg.base_files(), &vec!["first.c"]);
}

#[test]
fn checked_base_path_is_appended_exactly_when_present() {
    let mut cfg = MossConfig::new("1", ());
    assert!(cfg.add_lookup("a.c", Lookup::Literal).is_ok());
    assert!(cfg.add_checked_base_path("a.c".to_string(), true).is_ok());
    assert_eq!(cfg.base_files(), &vec!["a.c"]);
    assert_eq!(cfg.submission_files(), &vec!["a.c"]);
    let e = cfg.add_checked_base_path("b.c".to_string(), false).unwrap_err();
    assert_eq!(e.kind(), ErrorKind::PathResolution);
    assert_eq!(e.message(), "Path does not exist: b.c");
    assert_eq!(cfg.base_files(), &vec!["a.c"]);
    assert_eq!(cfg.submission_files(), &vec!["a.c"]);
}
