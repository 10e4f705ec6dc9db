use rustypath::{PathError, RPath};
use std::path::PathBuf;

#[test]
fn text_round_trips() {
    for s in ["/temp/abc.txt", "", "a//b/", "./x", "ünï/cödé"] {
        let once = RPath::from(s).convert_to_string();
        assert_eq!(once, s);
        assert_eq!(RPath::from(&once).convert_to_string(), s);
    }
}

#[test]
fn join_chain() {
    assert_eq!(RPath::from("/temp").join("abc").join("aaa"), RPath::from("/temp/abc/aaa"));
    assert_eq!(RPath::from("/temp").join("abc").join("aaa").convert_to_string(), "/temp/abc/aaa");
}

#[test]
fn join_edge_cases() {
    assert_eq!(RPath::from("/temp").join("/etc").convert_to_string(), "/etc");
    assert_eq!(RPath::from("/temp/").join("abc").convert_to_string(), "/temp/abc");
    assert_eq!(RPath::new().join("abc").convert_to_string(), "abc");
    assert_eq!(RPath::from("abc").join("").convert_to_string(), "abc/");
}

#[test]
fn basename_and_dirname() {
    let p = RPath::from("/temp/abc.txt");
    assert_eq!(p.basename(), Ok("abc.txt".to_string()));
    assert_eq!(p.dirname(), Ok(RPath::from("/temp")));
}

#[test]
fn basename_and_dirname_fail_on_root() {
    assert_eq!(RPath::from("/").basename(), Err(PathError::NoBasename));
    assert_eq!(RPath::new().basename(), Err(PathError::NoBasename));
    assert_eq!(RPath::from("/").dirname(), Err(PathError::NoParent));
    assert_eq!(RPath::new().dirname(), Err(PathError::NoParent));
}

#[test]
fn with_basename_is_dirname_join() {
    let p = RPath::from("/temp/abc.txt");
    assert_eq!(p.with_basename("xyz.txt"), Ok(RPath::from("/temp/xyz.txt")));
    assert_eq!(p.with_basename("xyz.txt"), Ok(p.dirname().unwrap().join("xyz.txt")));
    assert_eq!(p.with_basename("xyz.txt").unwrap().convert_to_string(), "/temp/xyz.txt");
    assert_eq!(RPath::from("/").with_basename("x"), Err(PathError::NoParent));
}

#[test]
fn with_dirname_moves_the_name() {
    let p = RPath::from("/temp/abc.txt");
    assert_eq!(p.with_dirname("/temp/temp2"), Ok(RPath::from("/temp/temp2/abc.txt")));
    assert_eq!(
        p.with_dirname("/temp/temp2").unwrap().convert_to_string(),
        "/temp/temp2/abc.txt"
    );
    assert_eq!(RPath::new().with_dirname("/temp"), Err(PathError::NoBasename));
}

#[test]
fn extension_policy() {
    assert_eq!(RPath::from("a.b.c").extension(), Ok("c".to_string()));
    assert_eq!(RPath::from("noext").extension(), Ok("noext".to_string()));
    assert_eq!(RPath::from("/temp").join("abc.txt").extension(), Ok("txt".to_string()));
    assert_eq!(RPath::from("dir/.bashrc").extension(), Ok("bashrc".to_string()));
    assert_eq!(RPath::from("a.b.").extension(), Ok("".to_string()));
    assert_eq!(RPath::from("/").extension(), Err(PathError::NoBasename));
}

#[test]
fn expand_resolves_only_what_exists() {
    let here = RPath::from(".").expand();
    assert!(here.is_absolute());
    let src = RPath::from("./src");
    if src.exists_on_disk() {
        assert_eq!(src.expand(), here.join("src"));
    } else {
        assert_eq!(src.expand(), src);
    }
    let missing = RPath::from("./no/such/entry/here");
    assert_eq!(missing.expand().convert_to_string(), "./no/such/entry/here");
}

#[test]
fn expand_with_takes_the_canonical_form() {
    let p = RPath::from("./a");
    assert_eq!(p.expand_with(Some("/w/a".to_string())).convert_to_string(), "/w/a");
    assert_eq!(p.expand_with(None).convert_to_string(), "./a");
}

#[test]
fn cleared_equals_new() {
    let mut p = RPath::from("/temp/abc.txt");
    p.clear();
    assert_eq!(p, RPath::new());
    assert_eq!(p.convert_to_string(), "");
}

#[test]
fn join_multiple_empty_keeps_path() {
    let mut p = RPath::from("/temp");
    p.join_multiple(Vec::new());
    assert_eq!(p.convert_to_string(), "/temp");
}

#[test]
fn join_multiple_joins_in_order() {
    let mut p = RPath::from("/temp");
    p.join_multiple(vec!["abc", "aaa"]);
    assert_eq!(p, RPath::from("/temp/abc/aaa"));
    assert_eq!(p.convert_to_string(), "/temp/abc/aaa");
}

#[test]
fn absolute_and_relative() {
    assert!(RPath::from("/temp").is_absolute());
    assert!(!RPath::from("/temp").is_relative());
    assert!(RPath::from("./temp").is_relative());
    assert!(!RPath::new().is_absolute());
}

#[test]
fn equality_compares_components() {
    assert_eq!(RPath::from("/temp/"), RPath::from("/temp"));
    assert_eq!(RPath::from("/temp//abc"), RPath::from("/temp/abc"));
    assert_ne!(RPath::from("/temp"), RPath::from("/temp2"));
}

#[test]
fn filesystem_queries() {
    let root = RPath::from("/");
    assert!(root.exists_on_disk());
    assert!(root.is_dir());
    assert!(!root.is_file());
    assert!(!root.is_symlink());
    assert!(!RPath::from("/no/such/entry/here").exists_on_disk());
}

#[test]
fn pathbuf_conversion() {
    assert_eq!(RPath::from("/temp/abc.txt").convert_to_pathbuf(), PathBuf::from("/temp/abc.txt"));
}

#[test]
fn home_dir_lookup() {
    match RPath::gethomedir() {
        Ok(h) => assert!(!h.convert_to_string().is_empty()),
        Err(e) => assert_eq!(e, PathError::EnvUnavailable),
    }
}

#[test]
fn home_from_hands_on_what_was_found() {
    assert_eq!(
        RPath::home_from(Some("/home/alice".to_string())).unwrap().convert_to_string(),
        "/home/alice"
    );
    assert_eq!(RPath::home_from(None), Err(PathError::EnvUnavailable));
}
