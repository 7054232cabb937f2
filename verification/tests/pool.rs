use std::sync::Arc;

use glycin::config::{ConfigEntry, ConfigEntryHash, ImageEditorConfig, ImageLoaderConfig};
use glycin::error::GlycinError;
use glycin::pool::{Pool, PooledProcess, ProcessRequest, LOADER_RETENTION_TIME};
use glycin::sandbox::SandboxMechanism;

type TestPool = Pool<&'static str, &'static str>;

fn loader(program: &str) -> ImageLoaderConfig {
    ImageLoaderConfig {
        executable: program.as_bytes().to_vec(),
        fontconfig: false,
    }
}

fn request(
    pool: &TestPool,
    program: &str,
    base_dir: Option<&str>,
    connected: bool,
) -> ProcessRequest<&'static str> {
    pool.get_loader(
        loader(program),
        SandboxMechanism::Bwrap,
        base_dir.map(|dir| dir.as_bytes().to_vec()),
        |_| !connected,
    )
}

fn hash(request: ProcessRequest<&'static str>) -> ConfigEntryHash {
    match request {
        ProcessRequest::Spawn(hash) => hash,
        ProcessRequest::Existing(_) => panic!("no process should be found"),
    }
}

fn existing(request: ProcessRequest<&'static str>) -> Arc<&'static str> {
    match request {
        ProcessRequest::Existing(process) => process,
        ProcessRequest::Spawn(_) => panic!("a process should be found"),
    }
}

fn with_loader(pool: &mut TestPool, program: &str, name: &'static str, user: u64, now: u64) {
    let config_hash = hash(request(pool, program, None, false));
    let kept = TestPool::add_process(&mut pool.loaders, config_hash, Some(Ok(name)), user, now);
    assert_eq!(kept.ok().as_deref(), Some(&name));
}

#[test]
fn process_is_used_again() {
    let mut pool = TestPool::new();
    assert_eq!(pool.loader_retention_time, LOADER_RETENTION_TIME);
    assert_eq!(LOADER_RETENTION_TIME, 60 * 1000 * 1000 * 1000);
    assert_eq!(hash(request(&pool, "/a", None, true)).executable(), b"/a");
    with_loader(&mut pool, "/a", "first", 1, 0);
    assert_eq!(*existing(request(&pool, "/a", None, true)), "first");
}

#[test]
fn disconnected_process_is_replaced() {
    let mut pool = TestPool::new();
    with_loader(&mut pool, "/a", "first", 1, 0);
    with_loader(&mut pool, "/a", "second", 2, 10);
    assert_eq!(pool.loaders.entries.len(), 1);
    assert_eq!(*existing(request(&pool, "/a", None, true)), "second");
    let config_hash = hash(request(&pool, "/a", None, false));
    let pooled = pool.loaders.get(&config_hash).unwrap();
    assert_eq!((pooled.last_use, pooled.users.clone()), (10, vec![2]));
}

#[test]
fn base_dirs_and_mechanisms_are_kept_apart() {
    let mut pool = TestPool::new();
    with_loader(&mut pool, "/a", "first", 1, 0);
    hash(request(&pool, "/a", Some("/home"), true));
    hash(request(&pool, "/b", None, true));
    let mut fonts = loader("/a");
    fonts.fontconfig = true;
    hash(pool.get_loader(fonts, SandboxMechanism::Bwrap, None, |_| false));
    hash(pool.get_loader(loader("/a"), SandboxMechanism::NotSandboxed, None, |_| false));

    let one = ConfigEntry::Loader(loader("/a"));
    let home = one.hash_value(Some(b"/home".to_vec()), SandboxMechanism::Bwrap);
    assert!(home.is_same(&one.hash_value(Some(b"/home".to_vec()), SandboxMechanism::Bwrap)));
    assert!(!home.is_same(&one.hash_value(Some(b"/tmp".to_vec()), SandboxMechanism::Bwrap)));
    assert!(!home.is_same(&one.hash_value(None, SandboxMechanism::Bwrap)));
}

#[test]
fn editors_are_not_loaders() {
    let mut pool = TestPool::new();
    with_loader(&mut pool, "/a", "loader", 1, 0);
    let editor = || ImageEditorConfig {
        executable: b"/a".to_vec(),
        fontconfig: false,
    };
    let config_hash = hash(pool.get_editor(editor(), SandboxMechanism::Bwrap, None, |_| false));
    let kept = TestPool::add_process(&mut pool.editors, config_hash, Some(Ok("editor")), 2, 5);
    assert!(kept.is_ok());
    let found = pool.get_editor(editor(), SandboxMechanism::Bwrap, None, |process| {
        *process != "editor"
    });
    assert_eq!(*existing(found), "editor");
    assert_eq!(*existing(request(&pool, "/a", None, true)), "loader");

    assert!(pool.clean_loaders(&vec![], 1000000000000).len() == 1);
    assert_eq!(pool.editors.entries.len(), 1);
}

#[test]
fn failures_leave_the_pool_alone() {
    let mut pool = TestPool::new();
    let config_hash = hash(request(&pool, "/a", None, true));
    let canceled = TestPool::add_process(&mut pool.loaders, config_hash, None, 1, 0);
    assert!(matches!(canceled, Err(GlycinError::Canceled(None))));

    let config_hash = hash(request(&pool, "/a", None, true));
    let error = GlycinError::Lcms(lcms2::Error::MissingData);
    let failed = TestPool::add_process(&mut pool.loaders, config_hash, Some(Err(error)), 1, 0);
    assert!(matches!(
        failed,
        Err(GlycinError::Lcms(lcms2::Error::MissingData))
    ));
    assert!(pool.loaders.entries.is_empty());
}

#[test]
fn unused_loaders_are_dropped() {
    let mut pool = TestPool::new();
    with_loader(&mut pool, "/a", "a", 1, 0);
    with_loader(&mut pool, "/b", "b", 2, 0);
    with_loader(&mut pool, "/c", "c", 3, 40000000000);

    // Not longer than the retention time
    assert!(pool.clean_loaders(&vec![], 60000000000).is_empty());
    assert_eq!(pool.loaders.entries.len(), 3);

    // User 2 still uses its loader
    let dropped = pool.clean_loaders(&vec![2], 60000000001);
    assert_eq!(dropped.len(), 1);
    assert_eq!(dropped[0].executable(), b"/a");
    assert_eq!(*existing(request(&pool, "/b", None, true)), "b");
    assert_eq!(*existing(request(&pool, "/c", None, true)), "c");
    hash(request(&pool, "/a", None, true));

    let dropped = pool.clean_loaders(&vec![], 200000000000);
    assert_eq!(dropped.len(), 2);
    assert!(pool.loaders.entries.is_empty());
}

#[test]
fn use_is_remembered() {
    let mut pool = TestPool::new();
    with_loader(&mut pool, "/a", "a", 1, 0);
    let config_hash = hash(request(&pool, "/a", None, false));
    assert_eq!(pool.loaders.use_(&config_hash, 50000000000).as_deref(), Some(&"a"));
    assert!(pool.clean_loaders(&vec![], 110000000000).is_empty());
    assert_eq!(pool.clean_loaders(&vec![], 110000000001).len(), 1);
    assert_eq!(pool.loaders.use_(&config_hash, 110000000002), None);

    let mut process = PooledProcess {
        last_use: 5,
        process: Arc::new("x"),
        users: vec![7],
    };
    assert_eq!(*process.use_(9), "x");
    assert_eq!((process.last_use, process.users), (9, vec![7]));
}

#[test]
fn use_in_the_future_counts_as_recent() {
    let mut pool = TestPool::new();
    with_loader(&mut pool, "/a", "a", 1, 100000000000);
    assert!(pool.clean_loaders(&vec![], 0).is_empty());
}
