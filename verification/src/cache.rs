//! The cache directory: where the archive, its temporary files and the
//! unpacked corpus live.

use vstd::prelude::*;
use crate::path::{
    file_name, has_suffix, is_absolute, join, join_path, lemma_file_name_of_join,
    lemma_join_relative, SEPARATOR,
};
use crate::token::{is_alphanumeric, is_token, Token, TOKEN_LEN};

verus! {

/// Name of the corpus, and of its directory below the dataset home.
pub const NAME: &'static str = "bookcorpus";

/// Directory below the cache root that holds the temporary files.
pub const TEMP_DIR: &'static str = "tmp";

/// `DATASET_HOME` names a place: it is set and not empty.
pub open spec fn names_place(dataset_home: Option<String>) -> bool {
    dataset_home matches Some(d) && d@.len() > 0
}

/// The cache root below the dataset home `d`.
pub open spec fn root_below(d: Seq<char>) -> Seq<char> {
    join(d, NAME@)
}

/// The dataset home that goes with the home directory `h`: `h/.cache/datasets`.
pub open spec fn default_dataset_home(h: Seq<char>) -> Seq<char> {
    join(join(h, ".cache"@), "datasets"@)
}

/// The cache root that follows from the value of `DATASET_HOME` and the
/// user's home directory: the dataset home is `DATASET_HOME` when that is set
/// and not empty, else `.cache/datasets` below the home directory; the root
/// is the directory `NAME` below the dataset home. Without either there is no
/// root.
pub open spec fn resolved_root(dataset_home: Option<String>, home: Option<String>) -> Option<
    Seq<char>,
> {
    if names_place(dataset_home) {
        Some(root_below(dataset_home->0@))
    } else {
        match home {
            Some(h) => Some(root_below(default_dataset_home(h@))),
            None => None,
        }
    }
}

/// The temporary path that `token` names below `root`: `root/tmp/token`.
pub open spec fn temp_path_of(root: Seq<char>, token: Seq<char>) -> Seq<char> {
    join(join(root, TEMP_DIR@), token)
}

/// `dirs::home_dir()`, the path as text (a path that is not valid Unicode has
/// each offending part replaced by U+FFFD). The answer depends on the
/// environment of the process and on the user database, so nothing is claimed
/// about it.
#[verifier::external_body]
fn home_dir() -> (home: Option<String>) {
    match dirs::home_dir() {
        Some(p) => Some(p.to_string_lossy().into_owned()),
        None => None,
    }
}

/// A cache, known by its root directory.
#[derive(Debug)]
pub struct Cache {
    path: String,
}

impl View for Cache {
    type V = Seq<char>;

    /// The root directory.
    closed spec fn view(&self) -> Seq<char> {
        self.path@
    }
}

impl Clone for Cache {
    fn clone(&self) -> (c: Cache)
        ensures
            c@ == self@,
    {
        Cache { path: self.path.clone() }
    }
}

/// The root of the cache that was found, if one was.
pub open spec fn root_of(found: Option<Cache>) -> Option<Seq<char>> {
    match found {
        Some(c) => Some(c@),
        None => None,
    }
}

impl Cache {
    /// The cache rooted at `path`. The directory need not exist yet.
    pub fn new(path: String) -> (c: Cache)
        ensures
            c@ == path@,
    {
        Cache { path }
    }

    /// The root directory.
    pub fn path(&self) -> (p: &String)
        ensures
            p@ == self@,
    {
        &self.path
    }

    /// Where the blob called `name` is kept: `root / name`.
    pub fn blob_path(&self, name: &str) -> (p: String)
        ensures
            p@ == join(self@, name@),
    {
        join_path(self.path.as_str(), name)
    }

    /// The directory of the temporary files: `root / tmp`.
    pub fn temp_dir(&self) -> (p: String)
        ensures
            p@ == join(self@, TEMP_DIR@),
    {
        join_path(self.path.as_str(), TEMP_DIR)
    }

    /// The temporary path that `token` names: `root / tmp / token`.
    pub fn temp_path_with(&self, token: &Token) -> (p: String)
        ensures
            p@ == temp_path_of(self@, token@),
    {
        let dir = self.temp_dir();
        join_path(dir.as_str(), token.as_str())
    }

    /// A temporary path under a token drawn at random. The path is only
    /// named: the directory of temporary files is made by whoever writes
    /// the file.
    pub fn temp_path(&self) -> (p: String)
        ensures
            exists|token: Seq<char>| is_token(token) && p@ == temp_path_of(self@, token),
    {
        let token = Token::random();
        let p = self.temp_path_with(&token);
        assert(is_token(token@) && p@ == temp_path_of(self@, token@));
        p
    }

    /// The cache that follows from the value of `DATASET_HOME` and the home
    /// directory, `None` when neither gives a place.
    pub fn resolve(dataset_home: Option<String>, home: Option<String>) -> (r: Option<Cache>)
        ensures
            root_of(r) == resolved_root(dataset_home, home),
    {
        if let Some(d) = &dataset_home {
            if d.as_str().unicode_len() > 0 {
                return Some(Cache::new(join_path(d.as_str(), NAME)));
            }
        }
        match &home {
            Some(h) => {
                let dot_cache = join_path(h.as_str(), ".cache");
                let datasets = join_path(dot_cache.as_str(), "datasets");
                Some(Cache::new(join_path(datasets.as_str(), NAME)))
            },
            None => None,
        }
    }

    /// The cache for this process, given the value of `DATASET_HOME` (`None`
    /// when the variable is not set). The home directory is looked up only
    /// when `DATASET_HOME` gives no place; `None` comes back when it is
    /// needed and cannot be found.
    pub fn locate(dataset_home: Option<String>) -> (r: Option<Cache>)
        ensures
            names_place(dataset_home) ==> root_of(r) == Some(root_below(dataset_home->0@)),
            !names_place(dataset_home) ==> r is None || exists|h: Seq<char>|
                root_of(r) == Some(#[trigger] root_below(default_dataset_home(h))),
    {
        let usable = match &dataset_home {
            Some(d) => d.as_str().unicode_len() > 0,
            None => false,
        };
        let home = if usable {
            None
        } else {
            home_dir()
        };
        Cache::resolve(dataset_home, home)
    }
}

/// A token is a plain name: not empty, and without a separator.
pub proof fn lemma_token_is_plain(token: Seq<char>)
    requires
        is_token(token),
    ensures
        token.len() == TOKEN_LEN,
        !is_absolute(token),
        !token.contains(SEPARATOR),
{
    assert(is_alphanumeric(token[0]));
    if token.contains(SEPARATOR) {
        let i = choose|i: int| 0 <= i < token.len() && token[i] == SEPARATOR;
        assert(is_alphanumeric(token[i]));
    }
}

/// The directory of temporary files is the root, a separator where the root
/// needs one, and `tmp`.
pub proof fn lemma_temp_dir_shape(root: Seq<char>)
    ensures
        root.is_prefix_of(join(root, TEMP_DIR@)),
        has_suffix(join(root, TEMP_DIR@), TEMP_DIR@),
        join(root, TEMP_DIR@).len() == join(root, Seq::empty()).len() + 3,
        join(root, TEMP_DIR@).last() == 'p',
{
    reveal_strlit("tmp");
    let dir = join(root, TEMP_DIR@);
    lemma_join_relative(root, TEMP_DIR@);
    lemma_join_relative(root, Seq::empty());
    assert(dir.subrange(dir.len() - 3, dir.len() as int)[2] == TEMP_DIR@[2]);
}

/// A temporary path is the directory of temporary files, a separator, and
/// the seven characters of the token: the token is its file name.
pub proof fn lemma_temp_path_shape(root: Seq<char>, token: Seq<char>)
    requires
        is_token(token),
    ensures
        temp_path_of(root, token) == join(root, TEMP_DIR@) + seq![SEPARATOR] + token,
        file_name(temp_path_of(root, token)) == token,
        has_suffix(temp_path_of(root, token), token),
{
    lemma_token_is_plain(token);
    lemma_temp_dir_shape(root);
    let dir = join(root, TEMP_DIR@);
    lemma_file_name_of_join(dir, token);
    lemma_join_relative(dir, token);
}

/// Temporary paths are as distinct as their tokens: two tokens that differ
/// name two paths that differ, below any root.
pub proof fn lemma_temp_paths_differ(root: Seq<char>, first: Seq<char>, second: Seq<char>)
    requires
        is_token(first),
        is_token(second),
        first != second,
    ensures
        temp_path_of(root, first) != temp_path_of(root, second),
{
    lemma_temp_path_shape(root, first);
    lemma_temp_path_shape(root, second);
}

/// No temporary path is a blob path: a blob named without a separator never
/// lies where a temporary file of the same cache lies.
pub proof fn lemma_temp_is_not_blob(root: Seq<char>, name: Seq<char>, token: Seq<char>)
    requires
        !name.contains(SEPARATOR),
        is_token(token),
    ensures
        join(root, name) != temp_path_of(root, token),
{
    lemma_temp_path_shape(root, token);
    lemma_file_name_of_join(root, name);
    if name == token {
        // same file name, but the temporary path is longer by `tmp/`
        lemma_token_is_plain(token);
        lemma_temp_dir_shape(root);
        lemma_join_relative(root, name);
        lemma_join_relative(root, Seq::empty());
        lemma_join_relative(join(root, TEMP_DIR@), token);
        assert(temp_path_of(root, token).len() == join(root, name).len() + 4);
    }
}

} // verus!
