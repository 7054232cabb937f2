use glycin::config::{ConfigEntry, ImageEditorConfig, ImageLoaderConfig};
use glycin::sandbox::{
    inheritable_flags, FontconfigEnvironment, PreExec, Sandbox, SandboxMechanism, SeccompAction,
    SpawnResources, Stdio, ALLOWED_SYSCALLS, ALLOWED_SYSCALLS_FONTCONFIG,
};
use glycin::system::SystemSetup;

const DBUS_SOCKET: &str = "socket";

fn bytes(text: &str) -> Vec<u8> {
    text.as_bytes().to_vec()
}

fn texts(args: &[Vec<u8>]) -> Vec<&str> {
    args.iter()
        .map(|arg| std::str::from_utf8(arg).unwrap())
        .collect()
}

fn sandbox(mechanism: SandboxMechanism, program: &str, fontconfig: bool) -> Sandbox<&'static str> {
    let config = ImageLoaderConfig {
        executable: bytes(program),
        fontconfig,
    };
    Sandbox::new(mechanism, ConfigEntry::Loader(config), DBUS_SOCKET)
}

fn system() -> SystemSetup {
    SystemSetup {
        lib_symlinks: vec![(bytes("/lib"), bytes("/usr/lib"))],
        lib_dirs: vec![bytes("/lib64")],
    }
}

fn fonts(cache_dir_created: bool) -> FontconfigEnvironment {
    FontconfigEnvironment {
        paths: Some(vec![bytes("/etc/fonts"), bytes("/usr/share/fonts")]),
        user_cache_dir: bytes("/home/user/.cache"),
        cache_dir_created,
    }
}

const BASE: [&str; 22] = [
    "--unshare-all",
    "--die-with-parent",
    "--chdir",
    "/",
    "--ro-bind",
    "/usr",
    "/usr",
    "--dev",
    "/dev",
    "--ro-bind-try",
    "/etc/ld.so.cache",
    "/etc/ld.so.cache",
    "--tmpfs",
    "/tmp-home",
    "--setenv",
    "HOME",
    "/tmp-home",
    "--tmpfs",
    "/tmp-run",
    "--setenv",
    "XDG_RUNTIME_DIR",
    "/tmp-run",
];

const LIBRARIES: [&str; 6] = [
    "--symlink",
    "/usr/lib",
    "/lib",
    "--ro-bind",
    "/lib64",
    "/lib64",
];

fn bwrap_args(sandbox: &Sandbox<&'static str>, fonts: &FontconfigEnvironment) -> Vec<Vec<u8>> {
    let system = system();
    let found: Result<&SystemSetup, u8> = Ok(&system);
    sandbox.bwrap_args(found, fonts).unwrap()
}

#[test]
fn sandbox_for_installed_program() {
    let sandbox = sandbox(SandboxMechanism::Bwrap, "/usr/libexec/loader", false);
    let args = bwrap_args(&sandbox, &fonts(true));
    assert_eq!(texts(&args), [&BASE[..], &LIBRARIES[..]].concat());
}

#[test]
fn sandbox_for_other_program() {
    let mut sandbox = sandbox(SandboxMechanism::Bwrap, "/home/user/loader", false);
    sandbox.add_ro_bind(bytes("/home/user/pictures"));
    let args = bwrap_args(&sandbox, &fonts(true));
    let expected = [
        "--ro-bind",
        "/home/user/pictures",
        "/home/user/pictures",
        "--ro-bind",
        "/home/user/loader",
        "/home/user/loader",
    ];
    assert_eq!(
        texts(&args),
        [&BASE[..], &LIBRARIES[..], &expected[..]].concat()
    );
}

#[test]
fn sandbox_with_fonts() {
    let sandbox = sandbox(SandboxMechanism::Bwrap, "/usr/libexec/loader", true);
    let fonts_only = [
        "--ro-bind-try",
        "/etc/fonts",
        "/etc/fonts",
        "--ro-bind-try",
        "/usr/share/fonts",
        "/usr/share/fonts",
    ];
    let cache = "/home/user/.cache/glycin/usr/libexec/loader";
    let with_cache = [
        "--bind-try",
        cache,
        cache,
        "--setenv",
        "XDG_CACHE_HOME",
        cache,
    ];
    assert_eq!(
        texts(&bwrap_args(&sandbox, &fonts(false))),
        [&BASE[..], &LIBRARIES[..], &fonts_only[..]].concat()
    );
    assert_eq!(
        texts(&bwrap_args(&sandbox, &fonts(true))),
        [&BASE[..], &LIBRARIES[..], &fonts_only[..], &with_cache[..]].concat()
    );

    let mut unknown = fonts(true);
    unknown.paths = None;
    assert_eq!(
        texts(&bwrap_args(&sandbox, &unknown)),
        [&BASE[..], &LIBRARIES[..]].concat()
    );
}

#[test]
fn fonts_do_not_matter_to_other_programs() {
    let sandbox = sandbox(SandboxMechanism::Bwrap, "/opt/loader", false);
    let mut unknown = fonts(false);
    unknown.paths = None;
    assert_eq!(
        bwrap_args(&sandbox, &fonts(true)),
        bwrap_args(&sandbox, &unknown)
    );
}

#[test]
fn at_most_the_cache_is_writable() {
    for fontconfig in [false, true] {
        for created in [false, true] {
            let sandbox = sandbox(SandboxMechanism::Bwrap, "/opt/loader", fontconfig);
            let args = bwrap_args(&sandbox, &fonts(created));
            let args = texts(&args);
            let writable: Vec<&str> = args
                .iter()
                .zip(args.iter().skip(1))
                .filter(|(option, _)| option.starts_with("--bind") || option.starts_with("--dev-"))
                .map(|(_, path)| *path)
                .collect();
            if fontconfig && created {
                assert_eq!(writable, ["/home/user/.cache/glycin/opt/loader"]);
            } else {
                assert!(writable.is_empty());
            }
        }
    }
}

#[test]
fn cache_dir_is_only_needed_for_fonts() {
    let environment = fonts(false);
    let program = sandbox(SandboxMechanism::Bwrap, "/opt/loader", true);
    assert_eq!(
        program.fontconfig_cache_dir(&environment.paths, &environment.user_cache_dir),
        Some(bytes("/home/user/.cache/glycin/opt/loader/fontconfig"))
    );
    assert_eq!(
        program.fontconfig_cache_dir(&None, &environment.user_cache_dir),
        None
    );
    let program = sandbox(SandboxMechanism::Bwrap, "/opt/loader", false);
    assert_eq!(
        program.fontconfig_cache_dir(&environment.paths, &environment.user_cache_dir),
        None
    );
}

#[test]
fn command_with_bubblewrap() {
    let system = system();
    let environment = fonts(false);
    let variables = vec![
        (bytes("HOME"), bytes("/home/user")),
        (bytes("RUST_LOG"), bytes("debug")),
    ];
    let resources: SpawnResources<&str, u8> = SpawnResources::Bwrap {
        system: Ok(&system),
        fontconfig: &environment,
        seccomp: Ok(("memfd", 12)),
    };
    let spawned = sandbox(SandboxMechanism::Bwrap, "/usr/libexec/loader", false)
        .spawn(3, resources, &variables)
        .ok()
        .unwrap();
    let expected = [
        "--seccomp",
        "12",
        "/usr/libexec/loader",
        "--dbus-fd",
        "3",
    ];
    assert_eq!(spawned.command.program, b"bwrap");
    assert_eq!(
        texts(&spawned.command.args),
        [&BASE[..], &LIBRARIES[..], &expected[..]].concat()
    );
    assert!(spawned.command.env_clear);
    assert_eq!(spawned.command.envs, [("RUST_LOG", bytes("debug"))]);
    assert_eq!(spawned.command.pre_exec, PreExec::SetMemoryLimit);
    assert_eq!(spawned.command.inherited_fd, 3);
    assert_eq!(spawned.command.stdout, Stdio::Piped);
    assert_eq!(spawned.command.stderr, Stdio::Piped);
    assert_eq!(spawned._seccomp_fd, Some("memfd"));
    assert_eq!(spawned._dbus_socket, DBUS_SOCKET);
}

#[test]
fn command_with_flatpak() {
    let variables = vec![
        (bytes("RUST_LOG"), bytes("debug")),
        (bytes("RUST_BACKTRACE"), bytes("1")),
    ];
    let resources: SpawnResources<(), u8> = SpawnResources::FlatpakSpawn { memory_limit: 5000 };
    let spawned = sandbox(SandboxMechanism::FlatpakSpawn, "/app/loader", true)
        .spawn(7, resources, &variables)
        .ok()
        .unwrap();
    assert_eq!(spawned.command.program, b"flatpak-spawn");
    assert_eq!(
        texts(&spawned.command.args),
        [
            "--sandbox",
            "--watch-bus",
            "--directory=/",
            "--forward-fd=7",
            "prlimit",
            "--as=5000",
            "/app/loader",
            "--dbus-fd",
            "7",
            "--clear-env",
            "--env=RUST_BACKTRACE=1",
            "--env=RUST_LOG=debug",
        ]
    );
    assert!(!spawned.command.env_clear);
    assert!(spawned.command.envs.is_empty());
    assert_eq!(spawned.command.pre_exec, PreExec::DieWithParent);
    assert!(spawned._seccomp_fd.is_none());
}

#[test]
fn command_without_sandbox() {
    let resources: SpawnResources<(), u8> = SpawnResources::NotSandboxed;
    let spawned = sandbox(SandboxMechanism::NotSandboxed, "/opt/loader", false)
        .spawn(-1, resources, &Vec::new())
        .ok()
        .unwrap();
    assert_eq!(spawned.command.program, b"/opt/loader");
    assert_eq!(texts(&spawned.command.args), ["--dbus-fd", "-1"]);
    assert!(spawned.command.env_clear);
    assert!(spawned.command.envs.is_empty());
    assert_eq!(spawned.command.pre_exec, PreExec::DieWithParent);
}

#[test]
fn sandbox_that_cannot_be_built() {
    let system = system();
    let environment = fonts(false);
    let unknown_system: SpawnResources<(), u8> = SpawnResources::Bwrap {
        system: Err(1),
        fontconfig: &environment,
        seccomp: Err(2),
    };
    let program = sandbox(SandboxMechanism::Bwrap, "/opt/loader", false);
    assert_eq!(program.spawn(3, unknown_system, &Vec::new()).err(), Some(1));

    let no_filter: SpawnResources<(), u8> = SpawnResources::Bwrap {
        system: Ok(&system),
        fontconfig: &environment,
        seccomp: Err(2),
    };
    let program = sandbox(SandboxMechanism::Bwrap, "/opt/loader", false);
    assert_eq!(program.spawn(3, no_filter, &Vec::new()).err(), Some(2));
}

#[test]
fn system_calls() {
    let filter = sandbox(SandboxMechanism::Bwrap, "/opt/loader", false).seccomp_filter();
    assert_eq!(filter.default_action, SeccompAction::Trap);
    assert_eq!(filter.rules.len(), 113);
    assert_eq!(filter.rules[0], (SeccompAction::Allow, "access"));
    assert_eq!(filter.rules[112], (SeccompAction::Allow, "writev"));
    assert!(filter.rules.iter().all(|rule| rule.1 != "rename"));

    let fonts = sandbox(SandboxMechanism::Bwrap, "/opt/loader", true).seccomp_filter();
    assert_eq!(fonts.default_action, SeccompAction::Trap);
    assert_eq!(fonts.rules[..113], filter.rules);
    let further: Vec<&str> = fonts.rules[113..].iter().map(|rule| rule.1).collect();
    assert_eq!(further, ALLOWED_SYSCALLS_FONTCONFIG);
    assert!(ALLOWED_SYSCALLS_FONTCONFIG
        .iter()
        .all(|name| !ALLOWED_SYSCALLS.contains(name)));
}

#[test]
fn editors_are_configured_like_loaders() {
    let entry = ConfigEntry::Editor(ImageEditorConfig {
        executable: bytes("/opt/editor"),
        fontconfig: true,
    });
    assert_eq!(entry.executable(), b"/opt/editor");
    assert!(entry.fontconfig());
    let hash = entry.hash_value(Some(bytes("/home")), SandboxMechanism::Bwrap);
    assert_eq!(hash.executable(), b"/opt/editor");
    assert_eq!(hash.base_dir, Some(bytes("/home")));
}

#[test]
fn flags_of_inherited_descriptors() {
    assert_eq!(inheritable_flags(1), 0);
    assert_eq!(inheritable_flags(0), 0);
    assert_eq!(inheritable_flags(7), 6);
    assert_eq!(inheritable_flags(-1), -2);
}
