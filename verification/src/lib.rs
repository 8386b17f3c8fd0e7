//! `tlrepo` provides `ThreadLocalRepo`, a convenient way to share a
//! `git2::Repository` object between threads.
//!
//! A `git2::Repository` object does not support sharing among threads without
//! some form of synchronization. `ThreadLocalRepo` instead reopens the same
//! repository on each thread, caching the opened repository thread-locally for
//! reuse: each thread gets its own independent handle, opened at most once per
//! thread over the cache's lifetime.
//!
//! A `ThreadLocalRepo` is created with `ThreadLocalRepo::new`, or through the
//! extension trait `RepositoryExt` by calling `.thread_local()` on an existing
//! `git2::Repository`.

use vstd::prelude::*;

verus! {

/// Declares `git2::Repository` so that it can stand in signatures and fields.
/// A repository handle is opaque here: nothing inside it is read.
#[verifier::external_type_specification]
#[verifier::external_body]
pub struct ExRepository(git2::Repository);

/// Declares `git2::Error`, the error a failed open returns. Opaque here: it is
/// propagated verbatim, never inspected.
#[verifier::external_type_specification]
#[verifier::external_body]
pub struct ExGitError(git2::Error);

/// Declares `thread_local::ThreadLocal`, the per-thread slot table.
#[verifier::external_type_specification]
#[verifier::external_body]
#[verifier::reject_recursive_types(T)]
pub struct ExThreadLocal<T: Send>(thread_local::ThreadLocal<T>);

/// Relies on `thread_local::ThreadLocal::new`: creates a slot table that holds
/// no value for any thread.
#[verifier::external_body]
fn empty_slots() -> thread_local::ThreadLocal<git2::Repository> {
    thread_local::ThreadLocal::new()
}

/// The path a repository handle reports through `git2::Repository::path`,
/// lossily decoded to characters. It is a function of the handle alone: the
/// handle stores the path it was opened at.
pub uninterp spec fn repo_path_of(repo: git2::Repository) -> Seq<char>;

/// Whether a repository handle carries the path to its gitdir. Handles opened
/// from a path always do; `git2` can also produce a handle wrapping only an
/// object database, which carries none, and asking such a handle for its path
/// panics.
pub uninterp spec fn has_gitdir(repo: git2::Repository) -> bool;

/// Relies on `git2::Repository::open`: attempts to open an already-existing
/// repository at `path`. Whether it returns a handle or an error depends on
/// what is on disk at the moment of the call, so nothing more is promised of
/// the outcome; every caller handles both. A handle it does return was opened
/// from the path on disk and so carries its gitdir path.
#[verifier::external_body]
fn open_repo(path: &String) -> (r: Result<git2::Repository, git2::Error>)
    ensures
        r matches Ok(repo) ==> has_gitdir(repo),
{
    git2::Repository::open(path.as_str())
}

/// Relies on `git2::Repository::path`: returns the path to the `.git` folder
/// for normal repositories, or to the repository itself for bare ones. The
/// body only converts that path to an owned string. The call panics on a
/// handle without a gitdir path, so such handles are excluded here.
#[verifier::external_body]
fn repo_path_string(repo: &git2::Repository) -> (r: String)
    requires
        has_gitdir(*repo),
    ensures
        r@ == repo_path_of(*repo),
{
    repo.path().to_string_lossy().into_owned()
}

/// An object providing a thread-local copy of a `git2::Repository` for each
/// thread.
///
/// The cache owns its path and a table of per-thread slots. A slot is filled
/// lazily by the first successful `get` on its thread and is never replaced or
/// removed afterwards; slots of threads that have exited stay allocated until
/// the cache itself is dropped.
pub struct ThreadLocalRepo {
    tl: thread_local::ThreadLocal<git2::Repository>,
    path: String,
}

impl ThreadLocalRepo {
    /// The path this cache opens on each thread, fixed at construction.
    pub closed spec fn identifier(&self) -> Seq<char> {
        self.path@
    }

    /// Create a `ThreadLocalRepo` that opens the repository at the specified
    /// path on each thread. Performs no I/O, does not check that the path is
    /// openable, and never fails.
    pub fn new(path: String) -> (r: Self)
        ensures
            r.identifier() == path@,
    {
        ThreadLocalRepo { tl: empty_slots(), path }
    }

    /// The path this cache was constructed with.
    pub fn path(&self) -> (r: &String)
        ensures
            r@ == self.identifier(),
    {
        &self.path
    }

    /// Get the `git2::Repository` for this thread. Returns an error if the
    /// open fails.
    ///
    /// Relies on `thread_local::ThreadLocal::get_or_try`: if a value is
    /// already stored for the calling thread, it is returned with no I/O and
    /// the closure does not run; otherwise the closure runs once, an `Ok`
    /// handle is stored in this thread's slot and a reference to it returned,
    /// and an `Err` is returned with nothing stored, leaving the slot absent
    /// exactly as before the call.
    ///
    /// Every handle the table holds came in through the closure as an `Ok` of
    /// the open, so any handle returned carries its gitdir path. The table
    /// reaches the standard library's thread-local machinery, which panics if
    /// called while the calling thread's local storage is being torn down; no
    /// input reaches that state, it is a property of the calling context.
    ///
    /// Note that the cache of thread-local objects never gets pruned. If
    /// you're running on a long-running thread or a thread pool, call this
    /// method. If you're running on a short-lived thread, call `get_uncached`
    /// instead.
    #[verifier::external_body]
    pub fn get(&self) -> (r: Result<&git2::Repository, git2::Error>)
        ensures
            r matches Ok(repo) ==> has_gitdir(*repo),
    {
        self.tl.get_or_try(|| open_repo(&self.path))
    }

    /// Get a new `git2::Repository`, and don't save it in the thread-local
    /// cache. Returns an error if the open fails.
    ///
    /// The cache of thread-local objects never gets pruned. If, over the
    /// lifetime of your process, you run an unbounded number of threads that
    /// call `get` and subsequently exit, the thread-local cache will grow
    /// without bound. In such threads, use `get_uncached` to open a repository
    /// that won't get cached.
    pub fn get_uncached(&self) -> (r: Result<git2::Repository, git2::Error>)
        ensures
            r matches Ok(repo) ==> has_gitdir(repo),
    {
        open_repo(&self.path)
    }
}

/// Extension trait for `git2::Repository`, to create a `ThreadLocalRepo` with
/// the path to the repository.
pub trait RepositoryExt {
    /// The identifier of this handle: the path a cache derived from it is
    /// bound to.
    spec fn repo_identifier(&self) -> Seq<char>;

    /// Whether this handle knows the path it was opened at. The adapter asks
    /// this of every source handle.
    spec fn has_identifier(&self) -> bool;

    /// Get a `ThreadLocalRepo` that reopens the path to this
    /// `git2::Repository` on each thread. The new cache is bound to this
    /// handle's own path and shares no state with this handle.
    fn thread_local(&self) -> (r: ThreadLocalRepo)
        requires
            self.has_identifier(),
        ensures
            r.identifier() == self.repo_identifier(),
    ;
}

impl RepositoryExt for git2::Repository {
    open spec fn repo_identifier(&self) -> Seq<char> {
        repo_path_of(*self)
    }

    open spec fn has_identifier(&self) -> bool {
        has_gitdir(*self)
    }

    fn thread_local(&self) -> (r: ThreadLocalRepo) {
        ThreadLocalRepo::new(repo_path_string(self))
    }
}

} // verus!

