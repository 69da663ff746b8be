use bookcorpus::api::{Api, URL};
use bookcorpus::cache::Cache;
use bookcorpus::download::{Action, Phase};
use bookcorpus::extract;
use bookcorpus::token::Token;

fn api_at(root: &str) -> Api {
    Api::with_cache(Cache::new(String::from(root)))
}

#[test]
fn the_archive_url() {
    assert_eq!(
        URL,
        "https://storage.googleapis.com/huggingface-nlp/datasets/bookcorpus/bookcorpus.tar.bz2"
    );
}

#[test]
fn api_with_cache_fetches_the_archive_with_progress() {
    let api = api_at("/tmp/x/bookcorpus");
    assert_eq!(api.url(), URL);
    assert_eq!(api.cache().path(), "/tmp/x/bookcorpus");
    assert!(api.progress());
}

#[test]
fn api_new_with_dataset_home() {
    let api = Api::new(Some(String::from("/tmp/x"))).unwrap();
    assert_eq!(api.url(), URL);
    assert!(api.progress());
    assert_eq!(api.cache().path(), "/tmp/x/bookcorpus");
    assert_eq!(api.get_filename_path(), "/tmp/x/bookcorpus/bookcorpus.tar.bz2");
}

#[test]
fn api_new_without_dataset_home() {
    match Api::new(None) {
        Some(api) => {
            assert_eq!(api.url(), URL);
            assert!(api.cache().path().ends_with(".cache/datasets/bookcorpus"));
        }
        None => {}
    }
}

#[test]
fn api_custom_keeps_its_parts() {
    let api = Api::custom(
        String::from("http://localhost:8080/fixtures/small.tar.bz2"),
        Cache::new(String::from("/c")),
        false,
    );
    assert_eq!(api.url(), "http://localhost:8080/fixtures/small.tar.bz2");
    assert_eq!(api.cache().path(), "/c");
    assert!(!api.progress());
    let copy = api.clone();
    assert_eq!(copy.url(), api.url());
    assert_eq!(copy.cache().path(), "/c");
    assert!(!copy.progress());
}

#[test]
fn filename_is_the_end_of_the_url() {
    assert_eq!(api_at("/c").get_filename(), "bookcorpus.tar.bz2");
    let api = Api::custom(String::from("http://h/a/b/c.tar.bz2"), Cache::new(String::from("/c")), true);
    assert_eq!(api.get_filename(), "c.tar.bz2");
    let api = Api::custom(String::from("plain"), Cache::new(String::from("/c")), true);
    assert_eq!(api.get_filename(), "plain");
    let api = Api::custom(String::from("http://h/dir/"), Cache::new(String::from("/c")), true);
    assert_eq!(api.get_filename(), "");
}

#[test]
fn filename_path_is_below_the_root() {
    assert_eq!(api_at("/c/bookcorpus").get_filename_path(), "/c/bookcorpus/bookcorpus.tar.bz2");
}

#[test]
fn download_starts_with_the_probe() {
    let api = api_at("/c/bookcorpus");
    let d = api.download_with(&Token::parse("abcdefg").unwrap());
    assert_eq!(d.phase(), Phase::Probe);
    assert_eq!(d.action(), Action::Probe);
    assert_eq!(d.url(), URL);
    assert_eq!(d.blob(), "/c/bookcorpus/bookcorpus.tar.bz2");
    assert_eq!(d.temp_dir(), "/c/bookcorpus/tmp");
    assert_eq!(d.temp(), "/c/bookcorpus/tmp/abcdefg");
    assert_eq!(d.output(), "/c/bookcorpus/bookcorpus.tar.bz2");
    assert!(d.reporting());
    assert_eq!(d.position(), 0);
    assert_eq!(d.total(), None);
}

#[test]
fn download_mints_a_token() {
    let api = api_at("/c/bookcorpus");
    let d = api.download();
    let token = d.temp().strip_prefix("/c/bookcorpus/tmp/").unwrap();
    assert_eq!(token.chars().count(), 7);
    assert!(token.chars().all(|c| c.is_ascii_alphanumeric()));
    assert_eq!(d.blob(), "/c/bookcorpus/bookcorpus.tar.bz2");
    assert_eq!(d.action(), Action::Probe);
}

#[test]
fn download_tempfile_starts_at_the_transfer() {
    let api = Api::custom(String::from("http://h/f.bz2"), Cache::new(String::from("/c")), false);
    let d = api.download_tempfile_with(&Token::parse("abcdefg").unwrap());
    assert_eq!(d.phase(), Phase::TempDir);
    assert_eq!(d.action(), Action::MakeTempDir);
    assert_eq!(d.output(), "/c/tmp/abcdefg");
    assert_eq!(d.blob(), "/c/f.bz2");
    assert!(!d.reporting());
    let d = api.download_tempfile();
    assert_eq!(d.action(), Action::MakeTempDir);
    assert!(d.temp().starts_with("/c/tmp/"));
    assert_eq!(d.output(), d.temp());
}

#[test]
fn rename_race() {
    let api = api_at("/c/bookcorpus");
    let a = api.download();
    let b = api.download();
    assert_eq!(a.blob(), b.blob());
    assert_eq!(a.output(), b.output());
    assert_ne!(a.temp(), b.temp());
    assert_ne!(a.temp(), a.blob());
    assert_ne!(b.temp(), b.blob());
}

#[test]
fn unzip_starts_with_the_probe() {
    let api = api_at("/c/bookcorpus");
    let x = api.unzip();
    assert_eq!(x.phase(), extract::Phase::Probe);
    assert_eq!(x.action(), extract::Action::Probe);
    assert_eq!(x.blob(), "/c/bookcorpus/bookcorpus.tar.bz2");
    assert_eq!(x.tar(), "/c/bookcorpus/bookcorpus.tar");
    assert_eq!(x.root(), "/c/bookcorpus");
    assert!(x.members().is_empty());
}

#[test]
fn unzip_of_an_archive_without_the_suffix() {
    let api = Api::custom(String::from("http://h/corpus.tar"), Cache::new(String::from("/c")), true);
    let x = api.unzip();
    assert_eq!(x.blob(), "/c/corpus.tar");
    assert_eq!(x.tar(), "/c/corpus.tar");
}
