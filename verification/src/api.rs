//! The entry point: one archive, one cache, and the fetch and the extraction
//! that go with them.

use vstd::prelude::*;
use crate::cache::{
    default_dataset_home, lemma_temp_is_not_blob, lemma_temp_paths_differ, names_place, root_below,
    temp_path_of, Cache, TEMP_DIR,
};
use crate::download::{
    lemma_cache_hit, pending, state_at, Action, Download, Event, Phase, State,
};
use crate::extract;
use crate::extract::{decompressed_path, tar_path, Extraction};
use crate::path::{file_name, file_name_of, join, lemma_file_name, SEPARATOR};
use crate::token::{is_token, Token};

verus! {

/// Where the BookCorpus archive is published.
pub const URL: &'static str =
    "https://storage.googleapis.com/huggingface-nlp/datasets/bookcorpus/bookcorpus.tar.bz2";

/// An archive to fetch and the cache to fetch it into.
#[derive(Debug)]
pub struct Api {
    url: String,
    cache: Cache,
    progress: bool,
}

impl Clone for Api {
    fn clone(&self) -> (a: Api)
        ensures
            a.address() == self.address(),
            a.root() == self.root(),
            a.reporting() == self.reporting(),
    {
        Api { url: self.url.clone(), cache: self.cache.clone(), progress: self.progress }
    }
}

impl Api {
    /// The URL of the archive.
    pub closed spec fn address(&self) -> Seq<char> {
        self.url@
    }

    /// The root directory of the cache.
    pub closed spec fn root(&self) -> Seq<char> {
        self.cache@
    }

    /// Whether progress is reported.
    pub closed spec fn reporting(&self) -> bool {
        self.progress
    }

    /// Where the blob is kept: the file name of the URL below the cache root.
    pub open spec fn blob(&self) -> Seq<char> {
        join(self.root(), file_name(self.address()))
    }

    /// The state in which a fetch of this archive starts, with its temporary
    /// file named by `token`.
    pub open spec fn initial(&self, token: Seq<char>, promote: bool) -> State {
        State {
            phase: if promote {
                Phase::Probe
            } else {
                Phase::TempDir
            },
            position: 0,
            total: None,
            promote,
            reporting: self.reporting(),
            url: self.address(),
            blob: self.blob(),
            temp_dir: join(self.root(), TEMP_DIR@),
            temp: temp_path_of(self.root(), token),
        }
    }

    /// The state in which the extraction of this archive starts.
    pub open spec fn extraction(&self) -> extract::State {
        extract::State {
            phase: extract::Phase::Probe,
            members: Seq::empty(),
            blob: self.blob(),
            tar: tar_path(self.blob()),
            root: self.root(),
        }
    }

    /// The BookCorpus archive with the cache of this process, given the value
    /// of `DATASET_HOME` (`None` when the variable is not set). Progress is
    /// reported. `None` comes back when the cache cannot be placed: see
    /// `Cache::locate`.
    pub fn new(dataset_home: Option<String>) -> (r: Option<Api>)
        ensures
            r matches Some(a) ==> a.address() == URL@ && a.reporting(),
            names_place(dataset_home) ==> r is Some && r->0.root() == root_below(
                dataset_home->0@,
            ),
            !names_place(dataset_home) ==> r is None || exists|h: Seq<char>|
                r->0.root() == #[trigger] root_below(default_dataset_home(h)),
    {
        match Cache::locate(dataset_home) {
            Some(cache) => Some(Api::with_cache(cache)),
            None => None,
        }
    }

    /// The BookCorpus archive with the given cache. Progress is reported.
    pub fn with_cache(cache: Cache) -> (a: Api)
        ensures
            a.address() == URL@,
            a.root() == cache@,
            a.reporting(),
    {
        Api { url: String::from_str(URL), cache, progress: true }
    }

    /// The archive at `url` with the given cache, with or without progress
    /// reports.
    pub fn custom(url: String, cache: Cache, progress: bool) -> (a: Api)
        ensures
            a.address() == url@,
            a.root() == cache@,
            a.reporting() == progress,
    {
        Api { url, cache, progress }
    }

    /// The URL of the archive.
    pub fn url(&self) -> (s: &String)
        ensures
            s@ == self.address(),
    {
        &self.url
    }

    /// The cache.
    pub fn cache(&self) -> (c: &Cache)
        ensures
            c@ == self.root(),
    {
        &self.cache
    }

    /// Whether progress is reported.
    pub fn progress(&self) -> (b: bool)
        ensures
            b == self.reporting(),
    {
        self.progress
    }

    /// The name under which the archive is cached: what follows the last `/`
    /// of the URL.
    pub fn get_filename(&self) -> (name: String)
        ensures
            name@ == file_name(self.address()),
            !name@.contains(SEPARATOR),
    {
        file_name_of(self.url.as_str())
    }

    /// Where the archive is cached.
    pub fn get_filename_path(&self) -> (p: String)
        ensures
            p@ == self.blob(),
    {
        let name = self.get_filename();
        self.cache.blob_path(name.as_str())
    }

    /// A fetch into the cache whose temporary file is named by `token`: it
    /// probes the cache first, and on a miss transfers the body and renames
    /// the temporary file to the blob path.
    pub fn download_with(&self, token: &Token) -> (d: Download)
        ensures
            d@ == self.initial(token@, true),
    {
        Download::new(
            self.url.clone(),
            self.get_filename_path(),
            self.cache.temp_dir(),
            self.cache.temp_path_with(token),
            true,
            self.progress,
        )
    }

    /// A fetch into the cache under a fresh random token.
    pub fn download(&self) -> (d: Download)
        ensures
            exists|token: Seq<char>| is_token(token) && d@ == self.initial(token, true),
    {
        let token = Token::random();
        let d = self.download_with(&token);
        assert(is_token(token@) && d@ == self.initial(token@, true));
        d
    }

    /// A transfer into the temporary file named by `token`, without a look
    /// at the cache and without the rename.
    pub fn download_tempfile_with(&self, token: &Token) -> (d: Download)
        ensures
            d@ == self.initial(token@, false),
    {
        Download::new(
            self.url.clone(),
            self.get_filename_path(),
            self.cache.temp_dir(),
            self.cache.temp_path_with(token),
            false,
            self.progress,
        )
    }

    /// A transfer into a temporary file under a fresh random token.
    pub fn download_tempfile(&self) -> (d: Download)
        ensures
            exists|token: Seq<char>| is_token(token) && d@ == self.initial(token, false),
    {
        let token = Token::random();
        let d = self.download_tempfile_with(&token);
        assert(is_token(token@) && d@ == self.initial(token@, false));
        d
    }

    /// The extraction of the cached archive into the cache root.
    pub fn unzip(&self) -> (x: Extraction)
        ensures
            x@ == self.extraction(),
    {
        let blob = self.get_filename_path();
        let tar = decompressed_path(blob.as_str());
        Extraction::new(blob, tar, self.cache.path().clone())
    }
}

/// The blob path is no temporary path: whatever token names the temporary
/// file of a fetch, the file lies elsewhere than the blob, so nothing reaches
/// the blob path but the rename.
pub proof fn lemma_blob_is_not_temp(api: Api, token: Seq<char>)
    requires
        is_token(token),
    ensures
        api.initial(token, true).blob != api.initial(token, true).temp,
        api.initial(token, false).blob != api.initial(token, false).temp,
{
    lemma_file_name(api.address());
    lemma_temp_is_not_blob(api.root(), file_name(api.address()), token);
}

/// Two fetches of one archive into one cache aim at the same blob path, and
/// write to different temporary files when their tokens differ.
pub proof fn lemma_fetches_share_blob_only(api: Api, first: Seq<char>, second: Seq<char>)
    requires
        is_token(first),
        is_token(second),
        first != second,
    ensures
        api.initial(first, true).output() == api.initial(second, true).output(),
        api.initial(first, true).output() == api.blob(),
        api.initial(first, true).temp != api.initial(second, true).temp,
{
    lemma_temp_paths_differ(api.root(), first, second);
}

/// A cache hit is idempotent: a fetch that finds the blob in place yields the
/// path that any other fetch of the archive yields, is done before a request
/// is pending, and has transferred nothing, however many events follow.
pub proof fn lemma_warm_fetch(
    api: Api,
    first: Seq<char>,
    second: Seq<char>,
    events: Seq<Event>,
    n: int,
)
    requires
        1 <= n <= events.len(),
        events[0] == Event::BlobFound,
    ensures
        state_at(api.initial(second, true), events, n).phase == Phase::Done,
        state_at(api.initial(second, true), events, n).position == 0,
        state_at(api.initial(second, true), events, n).output() == api.initial(
            first,
            true,
        ).output(),
        forall|k: int|
            0 <= k <= n ==> pending(#[trigger] state_at(api.initial(second, true), events, k))
                != Action::Get,
{
    let start = api.initial(second, true);
    lemma_cache_hit(start, events, n);
    assert forall|k: int| 0 <= k <= n implies pending(#[trigger] state_at(start, events, k))
        != Action::Get by {
        if k == 0 {
            assert(events.take(0) =~= Seq::<Event>::empty());
        } else {
            lemma_cache_hit(start, events, k);
        }
    }
}

} // verus!
