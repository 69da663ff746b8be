use bookcorpus::api::Api;
use bookcorpus::cache::Cache;
use bookcorpus::error::ApiError;
use bookcorpus::extract::{all_members_safe, decompressed_path, Action, Event, Extraction, Phase, BZIP2_SUFFIX};

fn names(list: &[&str]) -> Vec<String> {
    list.iter().map(|s| String::from(*s)).collect()
}

fn extraction() -> Extraction {
    Api::with_cache(Cache::new(String::from("/root/bookcorpus"))).unzip()
}

#[test]
fn round_trip() {
    let mut x = extraction();
    assert_eq!(x.action(), Action::Probe);
    assert_eq!(x.step(Event::TarMissing), Action::Decompress);
    assert_eq!(x.step(Event::Decompressed), Action::List);
    assert_eq!(x.step(Event::Listed(names(&["a.txt", "dir/b.txt"]))), Action::Extract);
    assert_eq!(x.step(Event::Extracted), Action::Finish);
    assert_eq!(x.phase(), Phase::Done);
    assert_eq!(x.members(), &names(&["a.txt", "dir/b.txt"]));
    assert_eq!(x.root(), "/root/bookcorpus");
}

#[test]
fn second_extraction_skips_decompression() {
    let mut x = extraction();
    assert_eq!(x.step(Event::TarFound), Action::List);
    assert_eq!(x.step(Event::Listed(names(&["a.txt", "dir/b.txt"]))), Action::Extract);
    assert_eq!(x.step(Event::Extracted), Action::Finish);
    assert_eq!(x.members(), &names(&["a.txt", "dir/b.txt"]));
}

#[test]
fn extraction_keeps_the_order_of_the_tar() {
    let mut x = extraction();
    x.step(Event::TarFound);
    x.step(Event::Listed(names(&["z", "a", "m/n", "a"])));
    x.step(Event::Extracted);
    assert_eq!(x.members(), &names(&["z", "a", "m/n", "a"]));
}

#[test]
fn path_escape_rejects_the_archive() {
    let mut x = extraction();
    x.step(Event::TarFound);
    let a = x.step(Event::Listed(names(&["a.txt", "../evil", "b.txt"])));
    assert_eq!(a, Action::Fail(ApiError::Archive));
    assert_eq!(x.phase(), Phase::Failed(ApiError::Archive));
    assert!(x.members().is_empty());
    assert_eq!(x.step(Event::Extracted), Action::Fail(ApiError::Archive));
    assert_eq!(x.step(Event::Listed(names(&["a.txt"]))), Action::Fail(ApiError::Archive));
}

#[test]
fn absolute_member_rejects_the_archive() {
    let mut x = extraction();
    x.step(Event::TarFound);
    assert_eq!(x.step(Event::Listed(names(&["/etc/passwd"]))), Action::Fail(ApiError::Archive));
}

#[test]
fn empty_archive_extracts_to_nothing() {
    let mut x = extraction();
    x.step(Event::TarFound);
    assert_eq!(x.step(Event::Listed(Vec::new())), Action::Extract);
    assert_eq!(x.step(Event::Extracted), Action::Finish);
    assert!(x.members().is_empty());
}

#[test]
fn failed_decompression_is_an_archive_error() {
    let mut x = extraction();
    x.step(Event::TarMissing);
    assert_eq!(x.step(Event::ArchiveFailed), Action::Fail(ApiError::Archive));
}

#[test]
fn failed_listing_is_an_archive_error() {
    let mut x = extraction();
    x.step(Event::TarFound);
    assert_eq!(x.step(Event::ArchiveFailed), Action::Fail(ApiError::Archive));
}

#[test]
fn failed_unpacking_is_an_archive_error() {
    let mut x = extraction();
    x.step(Event::TarFound);
    x.step(Event::Listed(names(&["a.txt"])));
    assert_eq!(x.step(Event::ArchiveFailed), Action::Fail(ApiError::Archive));
    assert_eq!(x.phase(), Phase::Failed(ApiError::Archive));
}

#[test]
fn extraction_events_out_of_turn_change_nothing() {
    let mut x = extraction();
    assert_eq!(x.step(Event::Decompressed), Action::Probe);
    assert_eq!(x.step(Event::Listed(names(&["a"]))), Action::Probe);
    assert_eq!(x.step(Event::Extracted), Action::Probe);
    assert_eq!(x.step(Event::ArchiveFailed), Action::Probe);
    assert!(x.members().is_empty());
    x.step(Event::TarMissing);
    assert_eq!(x.step(Event::TarFound), Action::Decompress);
    assert_eq!(x.step(Event::Listed(names(&["a"]))), Action::Decompress);
    x.step(Event::Decompressed);
    assert_eq!(x.step(Event::Extracted), Action::List);
    x.step(Event::Listed(names(&["a"])));
    assert_eq!(x.step(Event::Listed(names(&["b"]))), Action::Extract);
    assert_eq!(x.members(), &names(&["a"]));
    x.step(Event::Extracted);
    assert_eq!(x.step(Event::ArchiveFailed), Action::Finish);
    assert_eq!(x.step(Event::TarMissing), Action::Finish);
}

#[test]
fn all_members_safe_checks_each_name() {
    assert!(all_members_safe(&names(&[])));
    assert!(all_members_safe(&names(&["a.txt", "dir/b.txt"])));
    assert!(!all_members_safe(&names(&["a.txt", "dir/../../b.txt"])));
    assert!(!all_members_safe(&names(&["/a.txt"])));
    assert!(!all_members_safe(&names(&["ok", "ok2", ".."])));
}

#[test]
fn decompressed_path_drops_the_bz2_suffix() {
    assert_eq!(BZIP2_SUFFIX, ".bz2");
    assert_eq!(decompressed_path("/c/bookcorpus/bookcorpus.tar.bz2"), "/c/bookcorpus/bookcorpus.tar");
    assert_eq!(decompressed_path("/c/bookcorpus/bookcorpus.tar"), "/c/bookcorpus/bookcorpus.tar");
    assert_eq!(decompressed_path("/c/x.bz2/y.tar.bz2"), "/c/x.bz2/y.tar");
}

#[test]
fn new_extraction_keeps_its_paths() {
    let x = Extraction::new(String::from("/c/f.tar.bz2"), String::from("/c/f.tar"), String::from("/c"));
    assert_eq!(x.blob(), "/c/f.tar.bz2");
    assert_eq!(x.tar(), "/c/f.tar");
    assert_eq!(x.root(), "/c");
    assert_eq!(x.phase(), Phase::Probe);
}
