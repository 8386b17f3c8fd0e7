use tlrepo::ThreadLocalRepo;

fn repo_fixture() -> (tempfile::TempDir, String) {
    let dir = tempfile::tempdir().unwrap();
    git2::Repository::init(dir.path()).unwrap();
    let path = dir.path().to_str().unwrap().to_string();
    (dir, path)
}

#[test]
fn distinct_threads_get_independent_handles() {
    let (_dir, path) = repo_fixture();
    let cache = ThreadLocalRepo::new(path);

    // Thread A marks its own handle through in-memory state.
    let a = cache.get().unwrap();
    a.set_namespace("thread-a").unwrap();

    // Thread B must receive a handle of its own, with no trace of A's mark.
    crossbeam_utils::thread::scope(|scope| {
        let seen = scope
            .spawn(|_| {
                let b = cache.get().unwrap();
                b.namespace().unwrap().map(|s| s.to_string())
            })
            .join()
            .unwrap();
        assert_eq!(seen, None);
    })
    .unwrap();

    // A's own handle is untouched by B's call.
    let a_again = cache.get().unwrap();
    assert_eq!(a_again.namespace().unwrap(), Some("thread-a"));
}

#[test]
fn each_thread_opens_once_and_keeps_its_handle() {
    let (_dir, path) = repo_fixture();
    let cache = ThreadLocalRepo::new(path);

    // Bind this thread's slot first; the worker's doings must not touch it.
    let main_handle = cache.get().unwrap();
    assert_eq!(main_handle.namespace().unwrap(), None);

    crossbeam_utils::thread::scope(|scope| {
        let worker = scope.spawn(|_| {
            let first = cache.get().unwrap();
            first.set_namespace("worker").unwrap();
            let second = cache.get().unwrap();
            assert_eq!(second.namespace().unwrap(), Some("worker"));
        });
        worker.join().unwrap();

        let main_again = cache.get().unwrap();
        assert_eq!(main_again.namespace().unwrap(), None);
    })
    .unwrap();
}
