//! Where the cache files are.

use vstd::prelude::*;
use vstd::string::*;

verus! {

/// The three files that hold the pin.
#[derive(Clone, Copy, Debug, PartialEq, Eq, Structural)]
pub enum CacheFile {
    /// The pinned commit.
    Pin,
    /// The content hash of the source at that commit.
    Hash,
    /// The store path of the build made from it.
    StorePath,
}

/// `name` below the directory `base`: the two joined by one `/`, unless
/// `base` is empty or ends in one already. A `name` that starts at the root
/// stands for itself.
pub open spec fn joined(base: Seq<char>, name: Seq<char>) -> Seq<char> {
    if name.len() > 0 && name[0] == '/' {
        name
    } else if base.len() == 0 || base.last() == '/' {
        base + name
    } else {
        base + "/"@ + name
    }
}

/// The cache directory of a user whose home directory is `home`.
pub open spec fn cache_dir_of(home: Seq<char>) -> Seq<char> {
    joined(home, ".cache"@)
}

impl CacheFile {
    /// The file's name inside the cache directory.
    pub open spec fn name(self) -> Seq<char> {
        match self {
            CacheFile::Pin => "emacs-git-pin"@,
            CacheFile::Hash => "emacs-git-pin-hash"@,
            CacheFile::StorePath => "emacs-git-store-path"@,
        }
    }

    /// The file's path, given the cache directory.
    pub open spec fn path(self, cache_dir: Seq<char>) -> Seq<char> {
        joined(cache_dir, self.name())
    }

    /// The path of the file that a new content is written to before it
    /// takes the place of the old one.
    pub open spec fn temp_path(self, cache_dir: Seq<char>) -> Seq<char> {
        self.path(cache_dir) + ".tmp"@
    }

    /// Returns the file's name inside the cache directory.
    pub fn file_name(self) -> (name: &'static str)
        ensures
            name@ == self.name(),
    {
        match self {
            CacheFile::Pin => "emacs-git-pin",
            CacheFile::Hash => "emacs-git-pin-hash",
            CacheFile::StorePath => "emacs-git-store-path",
        }
    }

    /// Returns the file's path, given the cache directory.
    pub fn file_path(self, cache_dir: &str) -> (path: String)
        ensures
            path@ == self.path(cache_dir@),
    {
        join(cache_dir, self.file_name())
    }

    /// Returns the path of the temporary file beside this one.
    pub fn temp_file_path(self, cache_dir: &str) -> (path: String)
        ensures
            path@ == self.temp_path(cache_dir@),
    {
        let mut path = self.file_path(cache_dir);
        path.append(".tmp");
        path
    }
}

/// Joins a directory and a name into one path.
pub fn join(base: &str, name: &str) -> (path: String)
    ensures
        path@ == joined(base@, name@),
{
    if name.unicode_len() > 0 && name.get_char(0) == '/' {
        return String::from_str(name);
    }
    let n = base.unicode_len();
    let mut path = String::from_str(base);
    if n > 0 && base.get_char(n - 1) != '/' {
        path.append("/");
    }
    path.append(name);
    path
}

/// Asks the `dirs` crate for the user's home directory (`dirs::home_dir`).
/// The answer depends on the environment and on the user database, so
/// nothing is said of it. A home directory whose name is not Unicode comes
/// back as `None`.
#[verifier::external_body]
fn home_dir() -> (home: Option<String>) {
    dirs::home_dir().and_then(|path| path.into_os_string().into_string().ok())
}

/// The cache directory below a given home directory.
pub fn cache_dir_under(home: &str) -> (dir: String)
    ensures
        dir@ == cache_dir_of(home@),
{
    join(home, ".cache")
}

/// The cache directory of the current user: `.cache` below the home
/// directory. `None` if the home directory cannot be determined.
pub fn cache_dir() -> (dir: Option<String>)
    ensures
        dir matches Some(d) ==> exists|home: Seq<char>| d@ == cache_dir_of(home),
{
    let home = home_dir();
    let dir = cache_dir_from(home);
    assert(dir matches Some(d) ==> home is Some && d@ == cache_dir_of(home->0@));
    dir
}

/// The cache directory that follows from what was found out about the home
/// directory: `.cache` below it, or none where there is no home directory.
pub open spec fn cache_dir_found(home: Option<Seq<char>>) -> Option<Seq<char>> {
    match home {
        Some(home) => Some(cache_dir_of(home)),
        None => None,
    }
}

/// The cache directory of a user, given the home directory as it was found:
/// `.cache` below it, and `None` exactly if no home directory was found.
pub fn cache_dir_from(home: Option<String>) -> (dir: Option<String>)
    ensures
        dir.deep_view() == cache_dir_found(home.deep_view()),
{
    match home {
        Some(home) => Some(cache_dir_under(home.as_str())),
        None => None,
    }
}

/// The path of the file that holds the pinned commit.
pub fn pin_file(cache_dir: &str) -> (path: String)
    ensures
        path@ == CacheFile::Pin.path(cache_dir@),
{
    CacheFile::Pin.file_path(cache_dir)
}

/// The path of the file that holds the hash of the pinned source.
pub fn hash_file(cache_dir: &str) -> (path: String)
    ensures
        path@ == CacheFile::Hash.path(cache_dir@),
{
    CacheFile::Hash.file_path(cache_dir)
}

/// The path of the file that holds the store path of the pinned build.
pub fn store_path_file(cache_dir: &str) -> (path: String)
    ensures
        path@ == CacheFile::StorePath.path(cache_dir@),
{
    CacheFile::StorePath.file_path(cache_dir)
}

/// The length of the path of `name` below `base`, for a name that does not
/// start at the root: it depends on `name` by its length alone.
pub proof fn lemma_joined_len(base: Seq<char>, name: Seq<char>)
    requires
        name.len() > 0 ==> name[0] != '/',
    ensures
        joined(base, name).len() == joined(base, Seq::empty()).len() + name.len(),
{
    reveal_strlit("/");
}

/// The three cache files and their three temporary files are six files:
/// no two of them have the same path.
pub proof fn lemma_cache_paths_differ(cache_dir: Seq<char>, one: CacheFile, other: CacheFile)
    ensures
        one.path(cache_dir) != other.temp_path(cache_dir),
        one != other ==> one.path(cache_dir) != other.path(cache_dir),
        one != other ==> one.temp_path(cache_dir) != other.temp_path(cache_dir),
{
    reveal_strlit("emacs-git-pin");
    reveal_strlit("emacs-git-pin-hash");
    reveal_strlit("emacs-git-store-path");
    reveal_strlit(".tmp");
    lemma_joined_len(cache_dir, one.name());
    lemma_joined_len(cache_dir, other.name());
    assert(one.temp_path(cache_dir).len() == one.path(cache_dir).len() + 4);
    assert(other.temp_path(cache_dir).len() == other.path(cache_dir).len() + 4);
}

} // verus!
