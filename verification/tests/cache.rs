use bookcorpus::cache::{Cache, NAME, TEMP_DIR};
use bookcorpus::token::Token;

#[test]
fn cache_keeps_its_root() {
    let c = Cache::new(String::from("/tmp/x/bookcorpus"));
    assert_eq!(c.path(), "/tmp/x/bookcorpus");
    assert_eq!(c.clone().path(), "/tmp/x/bookcorpus");
}

#[test]
fn cache_names() {
    assert_eq!(NAME, "bookcorpus");
    assert_eq!(TEMP_DIR, "tmp");
}

#[test]
fn blob_path_is_root_slash_name() {
    let c = Cache::new(String::from("/tmp/x/bookcorpus"));
    assert_eq!(c.blob_path("bookcorpus.tar.bz2"), "/tmp/x/bookcorpus/bookcorpus.tar.bz2");
}

#[test]
fn temp_dir_is_root_slash_tmp() {
    let c = Cache::new(String::from("/tmp/x/bookcorpus"));
    assert_eq!(c.temp_dir(), "/tmp/x/bookcorpus/tmp");
}

#[test]
fn temp_path_with_token() {
    let c = Cache::new(String::from("/tmp/x/bookcorpus"));
    let t = Token::parse("Ab12xYz").unwrap();
    assert_eq!(c.temp_path_with(&t), "/tmp/x/bookcorpus/tmp/Ab12xYz");
}

#[test]
fn temp_path_below_root_with_trailing_separator() {
    let c = Cache::new(String::from("/data/"));
    let t = Token::parse("0000000").unwrap();
    assert_eq!(c.temp_path_with(&t), "/data/tmp/0000000");
}

#[test]
fn temp_token_shape() {
    let c = Cache::new(String::from("/tmp/x/bookcorpus"));
    let mut seen = std::collections::HashSet::new();
    for _ in 0..1000 {
        let p = c.temp_path();
        let token = p.strip_prefix("/tmp/x/bookcorpus/tmp/").unwrap();
        assert_eq!(token.chars().count(), 7);
        assert!(token.chars().all(|ch| ch.is_ascii_alphanumeric()));
        assert!(seen.insert(p));
    }
    assert_eq!(seen.len(), 1000);
}

#[test]
fn temp_path_is_never_the_blob_path() {
    let c = Cache::new(String::from("/tmp/x/bookcorpus"));
    let blob = c.blob_path("bookcorpus.tar.bz2");
    for _ in 0..100 {
        assert_ne!(c.temp_path(), blob);
    }
    let t = Token::parse("tmpfile").unwrap();
    assert_ne!(c.temp_path_with(&t), c.blob_path("tmpfile"));
}

#[test]
fn env_override() {
    let c = Cache::resolve(Some(String::from("/tmp/x")), Some(String::from("/home/alice"))).unwrap();
    assert_eq!(c.path(), "/tmp/x/bookcorpus");
    let c = Cache::resolve(Some(String::from("/tmp/x")), None).unwrap();
    assert_eq!(c.path(), "/tmp/x/bookcorpus");
}

#[test]
fn env_override_through_locate() {
    let c = Cache::locate(Some(String::from("/tmp/x"))).unwrap();
    assert_eq!(c.path(), "/tmp/x/bookcorpus");
}

#[test]
fn home_fallback() {
    let c = Cache::resolve(None, Some(String::from("/home/alice"))).unwrap();
    assert_eq!(c.path(), "/home/alice/.cache/datasets/bookcorpus");
}

#[test]
fn empty_override_falls_back_to_home() {
    let c = Cache::resolve(Some(String::new()), Some(String::from("/home/alice"))).unwrap();
    assert_eq!(c.path(), "/home/alice/.cache/datasets/bookcorpus");
}

#[test]
fn no_root_without_override_and_home() {
    assert!(Cache::resolve(None, None).is_none());
    assert!(Cache::resolve(Some(String::new()), None).is_none());
}

#[test]
fn locate_without_override_uses_the_home_directory() {
    match Cache::locate(None) {
        Some(c) => assert!(c.path().ends_with(".cache/datasets/bookcorpus")),
        None => {}
    }
    match Cache::locate(Some(String::new())) {
        Some(c) => assert!(c.path().ends_with(".cache/datasets/bookcorpus")),
        None => {}
    }
}
