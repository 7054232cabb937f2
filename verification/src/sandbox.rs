//! Command lines that run a loader in a sandbox

use crate::config::ConfigEntry;
use crate::path;
use crate::path::PathBuf;
use crate::system::SystemSetup;
use crate::text;
use vstd::prelude::*;

verus! {

/// System calls that every loader may make
pub const ALLOWED_SYSCALLS: [&'static str; 113] = [
    "access",
    "arch_prctl",
    "arm_fadvise64_64",
    "brk",
    "capget",
    "capset",
    "chdir",
    "clock_getres",
    "clock_gettime",
    "clock_gettime64",
    "clone",
    "clone3",
    "close",
    "connect",
    "creat",
    "dup",
    "epoll_create",
    "epoll_create1",
    "epoll_ctl",
    "epoll_pwait",
    "epoll_wait",
    "eventfd",
    "eventfd2",
    "execve",
    "exit",
    "faccessat",
    "fadvise64",
    "fadvise64_64",
    "fchdir",
    "fcntl",
    "fcntl",
    "fcntl64",
    "fstat",
    "fstatfs",
    "fstatfs64",
    "ftruncate",
    "ftruncate64",
    "futex",
    "futex_time64",
    "get_mempolicy",
    "getcwd",
    "getdents64",
    "getegid",
    "getegid32",
    "geteuid",
    "geteuid32",
    "getgid",
    "getgid32",
    "getpid",
    "getppid",
    "getrandom",
    "gettid",
    "gettimeofday",
    "getuid",
    "getuid32",
    "ioctl",
    "madvise",
    "membarrier",
    "memfd_create",
    "mmap",
    "mmap2",
    "mprotect",
    "mremap",
    "munmap",
    "newfstatat",
    "open",
    "openat",
    "pipe",
    "pipe2",
    "pivot_root",
    "poll",
    "ppoll",
    "ppoll_time64",
    "prctl",
    "pread64",
    "prlimit64",
    "read",
    "readlink",
    "readlinkat",
    "recvfrom",
    "recvmsg",
    "rseq",
    "rt_sigaction",
    "rt_sigprocmask",
    "rt_sigreturn",
    "sched_getaffinity",
    "sched_yield",
    "sendmsg",
    "sendto",
    "set_mempolicy",
    "set_mempolicy",
    "set_robust_list",
    "set_thread_area",
    "set_tid_address",
    "set_tls",
    "sigaltstack",
    "signalfd4",
    "socket",
    "socketcall",
    "stat",
    "statfs",
    "statfs64",
    "statx",
    "sysinfo",
    "timerfd_create",
    "timerfd_settime",
    "timerfd_settime64",
    "tgkill",
    "ugetrlimit",
    "unshare",
    "wait4",
    "write",
    "writev",
];

/// System calls that a loader may make in addition if it uses fontconfig, whose
/// cache it may have to update
pub const ALLOWED_SYSCALLS_FONTCONFIG: [&'static str; 8] = [
    "chmod",
    "link",
    "linkat",
    "unlink",
    "unlinkat",
    "rename",
    "renameat",
    "renameat2",
];

/// How a loader process is isolated
#[derive(Clone, Copy, Debug, PartialEq, Eq, Structural)]
pub enum SandboxMechanism {
    /// Bubblewrap
    Bwrap,
    /// The Flatpak portal
    FlatpakSpawn,
    /// Not at all
    NotSandboxed,
}

/// What happens to a process that makes a system call
#[derive(Clone, Copy, Debug, PartialEq, Eq, Structural)]
pub enum SeccompAction {
    /// It gets a signal
    Trap,
    /// The call is made
    Allow,
}

/// Rules on the system calls of a process
pub struct SeccompFilter {
    /// What happens for a system call that no rule names
    pub default_action: SeccompAction,
    /// System calls and what happens for them, in the order in which the rules
    /// are added
    pub rules: Vec<(SeccompAction, &'static str)>,
}

/// The system calls that a program may make
pub open spec fn allowed_calls(uses_fontconfig: bool) -> Seq<&'static str> {
    if uses_fontconfig {
        ALLOWED_SYSCALLS@ + ALLOWED_SYSCALLS_FONTCONFIG@
    } else {
        ALLOWED_SYSCALLS@
    }
}

/// Rules that allow the given system calls
pub open spec fn allow_all(syscalls: Seq<&'static str>) -> Seq<(SeccompAction, &'static str)> {
    syscalls.map_values(|name: &'static str| (SeccompAction::Allow, name))
}

/// Options that every sandbox of Bubblewrap gets
///
/// They leave nothing shared with the surrounding system but `/usr`, which
/// cannot be written to, and what the dynamic linker has cached. The working
/// directory is one that exists. Home and runtime directories are made up.
pub const BWRAP_ARGS: [&'static str; 22] = [
    "--unshare-all",
    "--die-with-parent",
    "--chdir",
    "/",
    "--ro-bind",
    "/usr",
    "/usr",
    "--dev",
    "/dev",
    "--ro-bind-try",
    "/etc/ld.so.cache",
    "/etc/ld.so.cache",
    "--tmpfs",
    "/tmp-home",
    "--setenv",
    "HOME",
    "/tmp-home",
    "--tmpfs",
    "/tmp-run",
    "--setenv",
    "XDG_RUNTIME_DIR",
    "/tmp-run",
];

/// The bytes of several texts
pub open spec fn bytes_of_each(texts: Seq<&'static str>) -> Seq<Seq<u8>> {
    texts.map_values(|item: &'static str| text::utf8(item))
}

/// Arguments that make each directory available under its own path
pub open spec fn bind_each(option: &str, dirs: Seq<Seq<u8>>) -> Seq<Seq<u8>>
    decreases dirs.len(),
{
    if dirs.len() == 0 {
        seq![]
    } else {
        bind_each(option, dirs.drop_last()) + seq![text::utf8(option), dirs.last(), dirs.last()]
    }
}

/// Arguments that create each link, of which the place comes first and what it
/// leads to second
pub open spec fn symlink_each(links: Seq<(PathBuf, PathBuf)>) -> Seq<Seq<u8>>
    decreases links.len(),
{
    if links.len() == 0 {
        seq![]
    } else {
        symlink_each(links.drop_last()) + seq![
            text::utf8("--symlink"),
            links.last().1@,
            links.last().0@,
        ]
    }
}

/// What is known about the fonts of the system
pub struct FontconfigEnvironment {
    /// Paths to fonts, configs, and caches, if fontconfig could tell them
    pub paths: Option<Vec<PathBuf>>,
    /// Directory for caches of the user
    pub user_cache_dir: PathBuf,
    /// Whether the directory that [`Sandbox::fontconfig_cache_dir`] names
    /// exists or could be created
    pub cache_dir_created: bool,
}

/// Environment variables that a sandboxed process inherits
pub const INHERITED_VARIABLES: [&'static str; 2] = ["RUST_BACKTRACE", "RUST_LOG"];

/// What a new process does before it runs its program
#[derive(Clone, Copy, Debug, PartialEq, Eq, Structural)]
pub enum PreExec {
    /// Limit its own memory
    SetMemoryLimit,
    /// Ask to be killed when its parent dies
    DieWithParent,
}

/// Where the output of a process goes
#[derive(Clone, Copy, Debug, PartialEq, Eq, Structural)]
pub enum Stdio {
    /// Where the output of its parent goes
    Inherit,
    /// Nowhere
    Null,
    /// To its parent
    Piped,
}

/// Flag of a file descriptor that is closed when another program is run
pub const FD_CLOEXEC: i32 = 1;

/// The flags with which a file descriptor is passed to a child process, given
/// those that it has
pub fn inheritable_flags(flags: i32) -> (r: i32)
    ensures
        r == flags & !FD_CLOEXEC,
        r & FD_CLOEXEC == 0,
        r | FD_CLOEXEC == flags | FD_CLOEXEC,
        r & 1 == 0,
        r | 1 == flags | 1,
{
    let r: i32 = flags & !FD_CLOEXEC;
    assert((flags & !1i32) & 1i32 == 0 && (flags & !1i32) | 1i32 == flags | 1i32) by (bit_vector);
    r
}

/// Command that starts a process
pub struct Command {
    pub program: PathBuf,
    pub args: Vec<PathBuf>,
    /// Whether the process inherits no environment variables
    pub env_clear: bool,
    /// Environment variables that are set
    pub envs: Vec<(&'static str, Vec<u8>)>,
    /// File descriptor that is passed to the process, with the flags that
    /// [`inheritable_flags`] gives
    pub inherited_fd: i32,
    pub stdout: Stdio,
    pub stderr: Stdio,
    pub pre_exec: PreExec,
}

/// What a mechanism needs beyond the configuration of the sandbox
///
/// The rules on system calls are in a file `M`.
pub enum SpawnResources<'a, M, E> {
    Bwrap {
        system: Result<&'a SystemSetup, E>,
        fontconfig: &'a FontconfigEnvironment,
        /// The file with the rules of [`Sandbox::seccomp_filter`] and its
        /// descriptor
        seccomp: Result<(M, i32), E>,
    },
    FlatpakSpawn {
        /// In bytes
        memory_limit: u64,
    },
    NotSandboxed,
}

impl<'a, M, E> SpawnResources<'a, M, E> {
    /// The mechanism that these resources are for
    pub open spec fn mechanism(self) -> SandboxMechanism {
        match self {
            SpawnResources::Bwrap { .. } => SandboxMechanism::Bwrap,
            SpawnResources::FlatpakSpawn { .. } => SandboxMechanism::FlatpakSpawn,
            SpawnResources::NotSandboxed => SandboxMechanism::NotSandboxed,
        }
    }

    /// Why the sandbox cannot be built, if it cannot
    pub open spec fn failure(self) -> Option<E> {
        match self {
            SpawnResources::Bwrap { system: Err(error), .. } => Some(error),
            SpawnResources::Bwrap { seccomp: Err(error), .. } => Some(error),
            _ => None,
        }
    }

    /// The file that has to stay open until the process exits
    pub open spec fn seccomp_file(self) -> Option<M> {
        match self {
            SpawnResources::Bwrap { seccomp: Ok((file, _)), .. } => Some(file),
            _ => None,
        }
    }
}

/// A sandbox that is ready to be started
pub struct SpawnedSandbox<M, D> {
    pub command: Command,
    /// Keep seccomp fd alive until process exits
    pub _seccomp_fd: Option<M>,
    pub _dbus_socket: D,
}

/// Value of an environment variable, which is the first one if it is set
/// several times
pub open spec fn variable(environment: Seq<(Vec<u8>, Vec<u8>)>, name: Seq<u8>) -> Option<Seq<u8>>
    decreases environment.len(),
{
    if environment.len() == 0 {
        None
    } else if environment[0].0@ == name {
        Some(environment[0].1@)
    } else {
        variable(environment.drop_first(), name)
    }
}

/// Arguments that pass on those of the given environment variables that are
/// set
pub open spec fn env_args(environment: Seq<(Vec<u8>, Vec<u8>)>, names: Seq<&'static str>) -> Seq<
    Seq<u8>,
>
    decreases names.len(),
{
    if names.len() == 0 {
        seq![]
    } else {
        let before = env_args(environment, names.drop_last());
        let name = text::utf8(names.last());
        match variable(environment, name) {
            Some(value) => before.push(text::utf8("--env=") + name + text::utf8("=") + value),
            None => before,
        }
    }
}

/// Those of the given environment variables that are set, with their values
pub open spec fn env_values(environment: Seq<(Vec<u8>, Vec<u8>)>, names: Seq<&'static str>) -> Seq<
    (&'static str, Seq<u8>),
>
    decreases names.len(),
{
    if names.len() == 0 {
        seq![]
    } else {
        let before = env_values(environment, names.drop_last());
        match variable(environment, text::utf8(names.last())) {
            Some(value) => before.push((names.last(), value)),
            None => before,
        }
    }
}

/// The names and values of environment variables
pub open spec fn env_contents(envs: Seq<(&'static str, Vec<u8>)>) -> Seq<(&'static str, Seq<u8>)> {
    envs.map_values(|entry: (&'static str, Vec<u8>)| (entry.0, entry.1@))
}

/// Value of an environment variable
fn var_os(environment: &Vec<(Vec<u8>, Vec<u8>)>, name: &str) -> (r: Option<Vec<u8>>)
    ensures
        match (r, variable(environment@, text::utf8(name))) {
            (Some(value), Some(expected)) => value@ == expected,
            (None, None) => true,
            _ => false,
        },
{
    assert(environment@.skip(0) =~= environment@);
    for i in 0..environment.len()
        invariant
            variable(environment@, text::utf8(name)) == variable(
                environment@.skip(i as int),
                text::utf8(name),
            ),
    {
        proof {
            assert(environment@.skip(i as int)[0] == environment@[i as int]);
            assert(environment@.skip(i as int).drop_first() =~= environment@.skip(i + 1));
        }
        if text::is_same(&environment[i].0, name.as_bytes()) {
            return Some(text::copy(&environment[i].1));
        }
    }
    None
}

/// Text that passes on an environment variable
fn env_arg(name: &str, value: &Vec<u8>) -> (r: Vec<u8>)
    ensures
        r@ == text::utf8("--env=") + text::utf8(name) + text::utf8("=") + value@,
{
    let mut arg: Vec<u8> = "--env=".as_bytes_vec();
    arg.extend_from_slice(name.as_bytes());
    arg.extend_from_slice("=".as_bytes());
    arg.extend_from_slice(value);
    assert(arg@ =~= text::utf8("--env=") + text::utf8(name) + text::utf8("=") + value@);
    arg
}

/// Text that consists of a fixed beginning and a number
fn numbered(beginning: &str, number: Vec<u8>) -> (r: Vec<u8>)
    ensures
        r@ == text::utf8(beginning) + number@,
{
    let mut whole: Vec<u8> = beginning.as_bytes_vec();
    whole.extend_from_slice(&number);
    assert(whole@ =~= text::utf8(beginning) + number@);
    whole
}

/// Add a text to a list of arguments
fn push_text(args: &mut Vec<PathBuf>, item: &str)
    ensures
        text::contents(final(args)@) == text::contents(old(args)@).push(text::utf8(item)),
{
    args.push(item.as_bytes_vec());
    assert(text::contents(args@) =~= text::contents(old(args)@).push(text::utf8(item)));
}

/// Add a path to a list of arguments
fn push_path(args: &mut Vec<PathBuf>, item: PathBuf)
    ensures
        text::contents(final(args)@) == text::contents(old(args)@).push(item@),
{
    args.push(item);
    assert(text::contents(args@) =~= text::contents(old(args)@).push(item@));
}

/// Add arguments that make each directory available under its own path
fn push_bindings(args: &mut Vec<PathBuf>, option: &str, dirs: &Vec<PathBuf>)
    ensures
        text::contents(final(args)@) == text::contents(old(args)@) + bind_each(
            option,
            text::contents(dirs@),
        ),
{
    let ghost all = text::contents(dirs@);
    assert(all.take(0) =~= Seq::<Seq<u8>>::empty());
    assert(text::contents(args@) =~= text::contents(args@) + bind_each(option, all.take(0)));
    for i in 0..dirs.len()
        invariant
            all == text::contents(dirs@),
            text::contents(args@) == text::contents(old(args)@) + bind_each(
                option,
                all.take(i as int),
            ),
    {
        push_text(args, option);
        push_path(args, text::copy(&dirs[i]));
        push_path(args, text::copy(&dirs[i]));
        proof {
            assert(all.take(i + 1).drop_last() =~= all.take(i as int));
            assert(all.take(i + 1).last() == dirs@[i as int]@);
            assert(text::contents(args@) =~= text::contents(old(args)@) + bind_each(
                option,
                all.take(i + 1),
            ));
        }
    }
    assert(all.take(dirs@.len() as int) =~= all);
}

/// Add arguments that create each link
fn push_symlinks(args: &mut Vec<PathBuf>, links: &Vec<(PathBuf, PathBuf)>)
    ensures
        text::contents(final(args)@) == text::contents(old(args)@) + symlink_each(links@),
{
    assert(links@.take(0) =~= Seq::<(PathBuf, PathBuf)>::empty());
    assert(text::contents(args@) =~= text::contents(args@) + symlink_each(links@.take(0)));
    for i in 0..links.len()
        invariant
            text::contents(args@) == text::contents(old(args)@) + symlink_each(
                links@.take(i as int),
            ),
    {
        push_text(args, "--symlink");
        push_path(args, text::copy(&links[i].1));
        push_path(args, text::copy(&links[i].0));
        proof {
            assert(links@.take(i + 1).drop_last() =~= links@.take(i as int));
            assert(links@.take(i + 1).last() == links@[i as int]);
            assert(text::contents(args@) =~= text::contents(old(args)@) + symlink_each(
                links@.take(i + 1),
            ));
        }
    }
    assert(links@.take(links@.len() as int) =~= links@);
}

/// Add arguments that pass on the environment variables that are inherited
fn push_env_args(args: &mut Vec<PathBuf>, environment: &Vec<(Vec<u8>, Vec<u8>)>)
    ensures
        text::contents(final(args)@) == text::contents(old(args)@) + env_args(
            environment@,
            INHERITED_VARIABLES@,
        ),
{
    let names = INHERITED_VARIABLES;
    let ghost all = INHERITED_VARIABLES@;
    assert(all.take(0) =~= Seq::<&'static str>::empty());
    assert(text::contents(args@) =~= text::contents(args@) + env_args(environment@, all.take(0)));
    for i in 0..names.len()
        invariant
            all == INHERITED_VARIABLES@,
            names == INHERITED_VARIABLES,
            text::contents(args@) == text::contents(old(args)@) + env_args(
                environment@,
                all.take(i as int),
            ),
    {
        let env_key: &'static str = names[i];
        proof {
            assert(all.take(i + 1).drop_last() =~= all.take(i as int));
            assert(all.take(i + 1).last() == env_key);
        }
        if let Some(val) = var_os(environment, env_key) {
            push_path(args, env_arg(env_key, &val));
        }
        assert(text::contents(args@) =~= text::contents(old(args)@) + env_args(
            environment@,
            all.take(i + 1),
        ));
    }
    assert(all.take(names@.len() as int) =~= all);
}

/// The environment variables that are inherited, with their values
fn inherited_envs(environment: &Vec<(Vec<u8>, Vec<u8>)>) -> (r: Vec<(&'static str, Vec<u8>)>)
    ensures
        env_contents(r@) == env_values(environment@, INHERITED_VARIABLES@),
{
    let mut envs: Vec<(&'static str, Vec<u8>)> = Vec::new();
    let names = INHERITED_VARIABLES;
    let ghost all = INHERITED_VARIABLES@;
    assert(all.take(0) =~= Seq::<&'static str>::empty());
    assert(env_contents(envs@) =~= seq![]);
    for i in 0..names.len()
        invariant
            all == INHERITED_VARIABLES@,
            names == INHERITED_VARIABLES,
            env_contents(envs@) == env_values(environment@, all.take(i as int)),
    {
        let env_key: &'static str = names[i];
        proof {
            assert(all.take(i + 1).drop_last() =~= all.take(i as int));
            assert(all.take(i + 1).last() == env_key);
        }
        if let Some(val) = var_os(environment, env_key) {
            let ghost earlier = envs@;
            envs.push((env_key, val));
            assert(env_contents(envs@) =~= env_contents(earlier).push((env_key, val@)));
        }
    }
    assert(all.take(names@.len() as int) =~= all);
    envs
}

/// Sandbox for a loader or editor
///
/// The process is spoken to through a socket `D`.
pub struct Sandbox<D> {
    pub sandbox_mechanism: SandboxMechanism,
    pub config_entry: ConfigEntry,
    pub dbus_socket: D,
    pub ro_bind_extra: Vec<PathBuf>,
}

impl<D> Sandbox<D> {
    pub fn new(
        sandbox_mechanism: SandboxMechanism,
        config_entry: ConfigEntry,
        dbus_socket: D,
    ) -> (r: Self)
        ensures
            r.sandbox_mechanism == sandbox_mechanism,
            r.config_entry == config_entry,
            r.dbus_socket == dbus_socket,
            r.ro_bind_extra@.len() == 0,
    {
        Sandbox { sandbox_mechanism, config_entry, dbus_socket, ro_bind_extra: Vec::new() }
    }

    fn executable(&self) -> (r: PathBuf)
        ensures
            r@ == self.config_entry.program(),
    {
        self.config_entry.executable()
    }

    /// Make a further path available in the sandbox, which cannot be written to
    pub fn add_ro_bind(&mut self, path: PathBuf)
        ensures
            final(self).ro_bind_extra@ == old(self).ro_bind_extra@.push(path),
            final(self).sandbox_mechanism == old(self).sandbox_mechanism,
            final(self).config_entry == old(self).config_entry,
            final(self).dbus_socket == old(self).dbus_socket,
    {
        self.ro_bind_extra.push(path);
    }

    /// All arguments that start the program through the Flatpak portal
    pub open spec fn all_flatpak_args(self, dbus_fd: int, memory_limit: u64) -> Seq<Seq<u8>> {
        seq![
            text::utf8("--sandbox"),
            text::utf8("--watch-bus"),
            text::utf8("--directory=/"),
            text::utf8("--forward-fd=") + text::signed_decimal(dbus_fd),
            text::utf8("prlimit"),
            text::utf8("--as=") + text::decimal(memory_limit as nat),
            self.config_entry.program(),
        ]
    }

    /// Arguments for the mechanism and, as far as it is not run directly, the
    /// program
    pub open spec fn mechanism_args<M, E>(
        self,
        dbus_fd: int,
        resources: SpawnResources<M, E>,
    ) -> Seq<Seq<u8>> {
        let program = self.config_entry.program();
        match resources {
            SpawnResources::Bwrap { system: Ok(system), fontconfig, seccomp: Ok((_, fd)) } => {
                self.all_bwrap_args(*system, *fontconfig) + seq![
                    text::utf8("--seccomp"),
                    text::signed_decimal(fd as int),
                    program,
                ]
            },
            SpawnResources::FlatpakSpawn { memory_limit } => self.all_flatpak_args(
                dbus_fd,
                memory_limit,
            ),
            _ => seq![],
        }
    }

    /// All arguments of the command that starts the process
    pub open spec fn command_args<M, E>(
        self,
        dbus_fd: int,
        resources: SpawnResources<M, E>,
        environment: Seq<(Vec<u8>, Vec<u8>)>,
    ) -> Seq<Seq<u8>> {
        self.mechanism_args(dbus_fd, resources) + seq![
            text::utf8("--dbus-fd"),
            text::signed_decimal(dbus_fd),
        ] + if self.sandbox_mechanism == SandboxMechanism::FlatpakSpawn {
            seq![text::utf8("--clear-env")] + env_args(environment, INHERITED_VARIABLES@)
        } else {
            seq![]
        }
    }

    /// The program that the command starts
    pub open spec fn command_program(self) -> Seq<u8> {
        match self.sandbox_mechanism {
            SandboxMechanism::Bwrap => text::utf8("bwrap"),
            SandboxMechanism::FlatpakSpawn => text::utf8("flatpak-spawn"),
            SandboxMechanism::NotSandboxed => self.config_entry.program(),
        }
    }

    /// Arguments that start the program through the Flatpak portal
    fn flatpak_args(&self, dbus_fd: i32, memory_limit: u64) -> (r: Vec<PathBuf>)
        ensures
            text::contents(r@) == self.all_flatpak_args(dbus_fd as int, memory_limit),
    {
        let mut args: Vec<PathBuf> = Vec::new();
        assert(text::contents(args@) =~= seq![]);
        push_text(&mut args, "--sandbox");
        // die with parent
        push_text(&mut args, "--watch-bus");
        // change working directory to something that exists
        push_text(&mut args, "--directory=/");
        // forward dbus connection
        push_path(&mut args, numbered("--forward-fd=", text::write_i32(dbus_fd)));
        // Start loader with memory limit
        push_text(&mut args, "prlimit");
        push_path(&mut args, numbered("--as=", text::write_u64(memory_limit)));
        // Loader binary
        push_path(&mut args, self.executable());
        assert(text::contents(args@) =~= self.all_flatpak_args(dbus_fd as int, memory_limit));
        args
    }

    /// Build the command that starts the process in its sandbox
    ///
    /// The process gets the descriptor of its socket, and nothing of the given
    /// environment variables but those for debugging.
    pub fn spawn<M, E>(
        self,
        dbus_fd: i32,
        resources: SpawnResources<M, E>,
        environment: &Vec<(Vec<u8>, Vec<u8>)>,
    ) -> (r: Result<SpawnedSandbox<M, D>, E>)
        requires
            resources.mechanism() == self.sandbox_mechanism,
        ensures
            match (resources.failure(), r) {
                (Some(error), Err(returned)) => returned == error,
                (None, Ok(spawned)) => {
                    let command = spawned.command;
                    let flatpak = self.sandbox_mechanism == SandboxMechanism::FlatpakSpawn;
                    &&& command.program@ == self.command_program()
                    &&& text::contents(command.args@) == self.command_args(
                        dbus_fd as int,
                        resources,
                        environment@,
                    )
                    &&& command.env_clear == !flatpak
                    &&& env_contents(command.envs@) == if flatpak {
                        seq![]
                    } else {
                        env_values(environment@, INHERITED_VARIABLES@)
                    }
                    &&& command.inherited_fd == dbus_fd
                    &&& command.stdout == Stdio::Piped
                    &&& command.stderr == Stdio::Piped
                    &&& command.pre_exec == if self.sandbox_mechanism == SandboxMechanism::Bwrap {
                        PreExec::SetMemoryLimit
                    } else {
                        PreExec::DieWithParent
                    }
                    &&& spawned._seccomp_fd == resources.seccomp_file()
                    &&& spawned._seccomp_fd is Some <==> self.sandbox_mechanism
                        == SandboxMechanism::Bwrap
                    &&& spawned._dbus_socket == self.dbus_socket
                },
                _ => false,
            },
    {
        let ghost given = resources;
        let program: PathBuf;
        let mut args: Vec<PathBuf>;
        let seccomp_fd: Option<M>;

        // Determine command line args
        match resources {
            SpawnResources::Bwrap { system, fontconfig, seccomp } => {
                args = match self.bwrap_args(system, fontconfig) {
                    Ok(args) => args,
                    Err(error) => return Err(error),
                };
                let (seccomp_memfd, fd) = match seccomp {
                    Ok(seccomp) => seccomp,
                    Err(error) => return Err(error),
                };
                push_text(&mut args, "--seccomp");
                push_path(&mut args, text::write_i32(fd));

                push_path(&mut args, self.executable());

                program = "bwrap".as_bytes_vec();
                seccomp_fd = Some(seccomp_memfd);
                assert(text::contents(args@) =~= self.mechanism_args(dbus_fd as int, given));
            },
            SpawnResources::FlatpakSpawn { memory_limit } => {
                args = self.flatpak_args(dbus_fd, memory_limit);

                program = "flatpak-spawn".as_bytes_vec();
                seccomp_fd = None;
                assert(text::contents(args@) =~= self.mechanism_args(dbus_fd as int, given));
            },
            SpawnResources::NotSandboxed => {
                args = Vec::new();
                program = self.executable();
                seccomp_fd = None;
                assert(text::contents(args@) =~= self.mechanism_args(dbus_fd as int, given));
            },
        }

        push_text(&mut args, "--dbus-fd");
        push_path(&mut args, text::write_i32(dbus_fd));

        // Clear ENV
        let flatpak = match self.sandbox_mechanism {
            SandboxMechanism::FlatpakSpawn => true,
            _ => false,
        };
        if flatpak {
            // Do not clear environment before `flatpak-spawn` is called. Otherwise,
            // `flatpak-spawn` will fail to find the D-Bus connection to call the portal.
            push_text(&mut args, "--clear-env");
        }

        // Inherit some environment variables
        let envs = if flatpak {
            push_env_args(&mut args, environment);
            Vec::new()
        } else {
            inherited_envs(environment)
        };
        assert(flatpak ==> env_contents(envs@) =~= seq![]);
        assert(text::contents(args@) =~= self.command_args(dbus_fd as int, given, environment@));

        // Set memory limit for sandbox
        let pre_exec = match self.sandbox_mechanism {
            SandboxMechanism::Bwrap => PreExec::SetMemoryLimit,
            SandboxMechanism::FlatpakSpawn | SandboxMechanism::NotSandboxed => {
                PreExec::DieWithParent
            },
        };

        Ok(
            SpawnedSandbox {
                command: Command {
                    program,
                    args,
                    env_clear: !flatpak,
                    envs,
                    // Allow FD to be passed to child process
                    inherited_fd: dbus_fd,
                    stdout: Stdio::Piped,
                    stderr: Stdio::Piped,
                    pre_exec,
                },
                _seccomp_fd: seccomp_fd,
                _dbus_socket: self.dbus_socket,
            },
        )
    }

    /// Arguments that make the program available, unless it is in `/usr`
    pub open spec fn executable_args(self) -> Seq<Seq<u8>> {
        let program = self.config_entry.program();
        if path::is_within(program, text::utf8("/usr")) {
            seq![]
        } else {
            seq![text::utf8("--ro-bind"), program, program]
        }
    }

    /// Directory in which the program can keep a cache
    pub open spec fn cache_dir(self, user_cache_dir: Seq<u8>) -> Seq<u8> {
        let program = path::components(self.config_entry.program());
        path::joined_all(
            seq![
                user_cache_dir,
                text::utf8("glycin"),
                path::joined_all(path::without_first(program)),
            ],
        )
    }

    /// Arguments that make fonts available, if the program needs any
    pub open spec fn fontconfig_args(self, environment: FontconfigEnvironment) -> Seq<Seq<u8>> {
        let cache_dir = self.cache_dir(environment.user_cache_dir@);
        match environment.paths {
            Some(paths) if self.config_entry.uses_fontconfig() => bind_each(
                "--ro-bind-try",
                text::contents(paths@),
            ) + if environment.cache_dir_created {
                seq![
                    text::utf8("--bind-try"),
                    cache_dir,
                    cache_dir,
                    text::utf8("--setenv"),
                    text::utf8("XDG_CACHE_HOME"),
                    cache_dir,
                ]
            } else {
                seq![]
            },
            _ => seq![],
        }
    }

    /// All arguments that describe a sandbox of Bubblewrap
    pub open spec fn all_bwrap_args(
        self,
        system: SystemSetup,
        environment: FontconfigEnvironment,
    ) -> Seq<Seq<u8>> {
        bytes_of_each(BWRAP_ARGS@) + symlink_each(system.lib_symlinks@) + bind_each(
            "--ro-bind",
            text::contents(system.lib_dirs@),
        ) + bind_each("--ro-bind", text::contents(self.ro_bind_extra@)) + self.executable_args()
            + self.fontconfig_args(environment)
    }

    fn cache_dir_path(&self, user_cache_dir: &PathBuf) -> (r: PathBuf)
        ensures
            r@ == self.cache_dir(user_cache_dir@),
    {
        let program = self.executable();
        let mut components = path::iter(&program);
        let ghost all = text::contents(components@);
        if components.len() > 0 {
            let root = components.remove(0);
            assert(text::contents(components@) =~= all.drop_first());
        }
        assert(text::contents(components@) =~= path::without_first(all));
        let mut parts: Vec<PathBuf> = Vec::new();
        push_path(&mut parts, text::copy(user_cache_dir));
        push_text(&mut parts, "glycin");
        push_path(&mut parts, path::from_iter(&components));
        assert(text::contents(parts@) =~= seq![
            user_cache_dir@,
            text::utf8("glycin"),
            path::joined_all(path::without_first(all)),
        ]);
        path::from_iter(&parts)
    }

    /// Directory that is to be created before the program is started
    ///
    /// Fontconfig needs a writeable cache if the cache is outdated.
    pub fn fontconfig_cache_dir(
        &self,
        paths: &Option<Vec<PathBuf>>,
        user_cache_dir: &PathBuf,
    ) -> (r: Option<PathBuf>)
        ensures
            match r {
                Some(dir) => {
                    &&& self.config_entry.uses_fontconfig() && paths is Some
                    &&& dir@ == path::joined(
                        self.cache_dir(user_cache_dir@),
                        text::utf8("fontconfig"),
                    )
                },
                None => !(self.config_entry.uses_fontconfig() && paths is Some),
            },
    {
        if self.config_entry.fontconfig() && paths.is_some() {
            Some(path::join(&self.cache_dir_path(user_cache_dir), "fontconfig".as_bytes()))
        } else {
            None
        }
    }

    /// Arguments that describe a sandbox of Bubblewrap, or the error if it is
    /// not known what the system looks like
    pub fn bwrap_args<E>(
        &self,
        system: Result<&SystemSetup, E>,
        environment: &FontconfigEnvironment,
    ) -> (r: Result<Vec<PathBuf>, E>)
        ensures
            match (system, r) {
                (Ok(system), Ok(args)) => {
                    &&& text::contents(args@) == self.all_bwrap_args(*system, *environment)
                    &&& forall|k: int|
                        0 <= k < self.ro_bind_extra@.len() ==> has_option(
                            args@,
                            "--ro-bind",
                            (#[trigger] self.ro_bind_extra@[k])@,
                            self.ro_bind_extra@[k]@,
                        )
                    &&& forall|k: int|
                        0 <= k < system.lib_dirs@.len() ==> has_option(
                            args@,
                            "--ro-bind",
                            (#[trigger] system.lib_dirs@[k])@,
                            system.lib_dirs@[k]@,
                        )
                    &&& forall|k: int|
                        0 <= k < system.lib_symlinks@.len() ==> has_option(
                            args@,
                            "--symlink",
                            (#[trigger] system.lib_symlinks@[k]).1@,
                            system.lib_symlinks@[k].0@,
                        )
                },
                (Err(error), Err(returned)) => returned == error,
                _ => false,
            },
    {
        match system {
            Err(error) => Err(error),
            Ok(system) => {
                let args = self.bwrap_args_for(system, environment);
                proof {
                    lemma_all_is_bound(*self, *system, *environment, args@);
                }
                Ok(args)
            },
        }
    }

    /// Arguments that describe a sandbox of Bubblewrap on the given system
    fn bwrap_args_for(&self, system: &SystemSetup, environment: &FontconfigEnvironment) -> (r: Vec<
        PathBuf,
    >)
        ensures
            text::contents(r@) == self.all_bwrap_args(*system, *environment),
    {
        let mut args: Vec<PathBuf> = Vec::new();
        let ghost fixed = bytes_of_each(BWRAP_ARGS@);
        let base_args = BWRAP_ARGS;
        for i in 0..22usize
            invariant
                base_args == BWRAP_ARGS,
                fixed == bytes_of_each(BWRAP_ARGS@),
                text::contents(args@) == fixed.take(i as int),
        {
            push_text(&mut args, base_args[i]);
            assert(text::contents(args@) =~= fixed.take(i + 1));
        }
        assert(fixed.take(22) =~= fixed);

        // Symlink paths like /usr/lib64 to /lib64
        push_symlinks(&mut args, &system.lib_symlinks);

        // Mount paths like /lib64 if they exist
        push_bindings(&mut args, "--ro-bind", &system.lib_dirs);

        // Make extra dirs available
        push_bindings(&mut args, "--ro-bind", &self.ro_bind_extra);

        // Make loader binary available if not in /usr. This is useful for testing and
        // adding loaders in user (/home) configurations.
        let program = self.executable();
        let ghost before = text::contents(args@);
        if !path::starts_with(&program, "/usr".as_bytes()) {
            push_text(&mut args, "--ro-bind");
            push_path(&mut args, self.executable());
            push_path(&mut args, self.executable());
        }
        assert(text::contents(args@) =~= before + self.executable_args());

        // Fontconfig
        let ghost before = text::contents(args@);
        if self.config_entry.fontconfig() {
            if let Some(fc_paths) = &environment.paths {
                // Expose paths to fonts, configs, and caches
                push_bindings(&mut args, "--ro-bind-try", fc_paths);

                if environment.cache_dir_created {
                    let cache_dir = self.cache_dir_path(&environment.user_cache_dir);
                    push_text(&mut args, "--bind-try");
                    push_path(&mut args, text::copy(&cache_dir));
                    push_path(&mut args, text::copy(&cache_dir));

                    push_text(&mut args, "--setenv");
                    push_text(&mut args, "XDG_CACHE_HOME");
                    push_path(&mut args, cache_dir);
                }
            }
        }
        assert(text::contents(args@) =~= before + self.fontconfig_args(*environment));

        args
    }

    /// Rules on the system calls of the process
    pub fn seccomp_filter(&self) -> (r: SeccompFilter)
        ensures
            r.default_action == SeccompAction::Trap,
            r.rules@ == allow_all(allowed_calls(self.config_entry.uses_fontconfig())),
    {
        let mut rules: Vec<(SeccompAction, &'static str)> = Vec::new();
        let syscalls = ALLOWED_SYSCALLS;
        for i in 0..syscalls.len()
            invariant
                syscalls == ALLOWED_SYSCALLS,
                rules@ == allow_all(ALLOWED_SYSCALLS@.take(i as int)),
        {
            rules.push((SeccompAction::Allow, syscalls[i]));
            assert(rules@ =~= allow_all(ALLOWED_SYSCALLS@.take(i + 1)));
        }
        assert(rules@ =~= allow_all(ALLOWED_SYSCALLS@));
        if self.config_entry.fontconfig() {
            // Enable some write operations for fontconfig to update its cache
            let syscalls = ALLOWED_SYSCALLS_FONTCONFIG;
            for i in 0..syscalls.len()
                invariant
                    syscalls == ALLOWED_SYSCALLS_FONTCONFIG,
                    rules@ == allow_all(
                        ALLOWED_SYSCALLS@ + ALLOWED_SYSCALLS_FONTCONFIG@.take(i as int),
                    ),
            {
                rules.push((SeccompAction::Allow, syscalls[i]));
                assert(rules@ =~= allow_all(
                    ALLOWED_SYSCALLS@ + ALLOWED_SYSCALLS_FONTCONFIG@.take(i + 1),
                ));
            }
            assert(rules@ =~= allow_all(ALLOWED_SYSCALLS@ + ALLOWED_SYSCALLS_FONTCONFIG@));
        }
        SeccompFilter { default_action: SeccompAction::Trap, rules }
    }
}

proof fn lemma_bind_each(option: &str, dirs: Seq<Seq<u8>>, k: int)
    requires
        0 <= k <= dirs.len(),
    ensures
        bind_each(option, dirs).len() == 3 * dirs.len(),
        k < dirs.len() ==> {
            &&& bind_each(option, dirs)[3 * k] == text::utf8(option)
            &&& bind_each(option, dirs)[3 * k + 1] == dirs[k]
            &&& bind_each(option, dirs)[3 * k + 2] == dirs[k]
        },
    decreases dirs.len(),
{
    if dirs.len() > 0 {
        let earlier = dirs.drop_last();
        lemma_bind_each(option, earlier, if k < earlier.len() { k } else { 0 });
        if k < earlier.len() {
            assert(earlier[k] == dirs[k]);
        }
    }
}

proof fn lemma_symlink_each(links: Seq<(PathBuf, PathBuf)>, k: int)
    requires
        0 <= k <= links.len(),
    ensures
        symlink_each(links).len() == 3 * links.len(),
        k < links.len() ==> {
            &&& symlink_each(links)[3 * k] == text::utf8("--symlink")
            &&& symlink_each(links)[3 * k + 1] == links[k].1@
            &&& symlink_each(links)[3 * k + 2] == links[k].0@
        },
    decreases links.len(),
{
    if links.len() > 0 {
        let earlier = links.drop_last();
        lemma_symlink_each(earlier, if k < earlier.len() { k } else { 0 });
        if k < earlier.len() {
            assert(earlier[k] == links[k]);
        }
    }
}

/// Every further path that a sandbox was told to make available is bound so that
/// it cannot be written to, wherever the program is.
pub proof fn further_path_is_bound<D>(
    sandbox: Sandbox<D>,
    system: SystemSetup,
    environment: FontconfigEnvironment,
    k: int,
) -> (i: int)
    requires
        0 <= k < sandbox.ro_bind_extra@.len(),
    ensures
        i == 22 + 3 * (system.lib_symlinks@.len() + system.lib_dirs@.len() + k),
        0 <= i < sandbox.all_bwrap_args(system, environment).len() - 2,
        sandbox.all_bwrap_args(system, environment)[i] == text::utf8("--ro-bind"),
        sandbox.all_bwrap_args(system, environment)[i + 1] == sandbox.ro_bind_extra@[k]@,
        sandbox.all_bwrap_args(system, environment)[i + 2] == sandbox.ro_bind_extra@[k]@,
{
    let base = bytes_of_each(BWRAP_ARGS@);
    let links = symlink_each(system.lib_symlinks@);
    let dirs = bind_each("--ro-bind", text::contents(system.lib_dirs@));
    lemma_symlink_each(system.lib_symlinks@, 0);
    lemma_bind_each("--ro-bind", text::contents(system.lib_dirs@), 0);
    lemma_bind_each("--ro-bind", text::contents(sandbox.ro_bind_extra@), k);
    base.len() + links.len() + dirs.len() + 3 * k
}

/// Every library directory of the system is bound so that it cannot be written
/// to.
pub proof fn library_directory_is_bound<D>(
    sandbox: Sandbox<D>,
    system: SystemSetup,
    environment: FontconfigEnvironment,
    k: int,
) -> (i: int)
    requires
        0 <= k < system.lib_dirs@.len(),
    ensures
        i == 22 + 3 * (system.lib_symlinks@.len() + k),
        0 <= i < sandbox.all_bwrap_args(system, environment).len() - 2,
        sandbox.all_bwrap_args(system, environment)[i] == text::utf8("--ro-bind"),
        sandbox.all_bwrap_args(system, environment)[i + 1] == system.lib_dirs@[k]@,
        sandbox.all_bwrap_args(system, environment)[i + 2] == system.lib_dirs@[k]@,
{
    let base = bytes_of_each(BWRAP_ARGS@);
    let links = symlink_each(system.lib_symlinks@);
    let dirs = bind_each("--ro-bind", text::contents(system.lib_dirs@));
    lemma_symlink_each(system.lib_symlinks@, 0);
    lemma_bind_each("--ro-bind", text::contents(system.lib_dirs@), k);
    base.len() + links.len() + 3 * k
}

/// Every link to a library directory is made: it is where the link of the system
/// is and leads to where that one leads to.
pub proof fn library_link_is_made<D>(
    sandbox: Sandbox<D>,
    system: SystemSetup,
    environment: FontconfigEnvironment,
    k: int,
) -> (i: int)
    requires
        0 <= k < system.lib_symlinks@.len(),
    ensures
        i == 22 + 3 * k,
        0 <= i < sandbox.all_bwrap_args(system, environment).len() - 2,
        sandbox.all_bwrap_args(system, environment)[i] == text::utf8("--symlink"),
        sandbox.all_bwrap_args(system, environment)[i + 1] == system.lib_symlinks@[k].1@,
        sandbox.all_bwrap_args(system, environment)[i + 2] == system.lib_symlinks@[k].0@,
{
    let base = bytes_of_each(BWRAP_ARGS@);
    let links = symlink_each(system.lib_symlinks@);
    lemma_symlink_each(system.lib_symlinks@, k);
    base.len() + 3 * k
}

/// Whether an option with two operands is among the arguments
pub open spec fn has_option(
    args: Seq<PathBuf>,
    option: &str,
    first: Seq<u8>,
    second: Seq<u8>,
) -> bool {
    exists|i: int|
        {
            &&& 0 <= i < args.len() - 2
            &&& (#[trigger] args[i])@ == text::utf8(option)
            &&& args[i + 1]@ == first
            &&& args[i + 2]@ == second
        }
}

proof fn lemma_all_is_bound<D>(
    sandbox: Sandbox<D>,
    system: SystemSetup,
    environment: FontconfigEnvironment,
    args: Seq<PathBuf>,
)
    requires
        text::contents(args) == sandbox.all_bwrap_args(system, environment),
    ensures
        forall|k: int|
            0 <= k < sandbox.ro_bind_extra@.len() ==> has_option(
                args,
                "--ro-bind",
                (#[trigger] sandbox.ro_bind_extra@[k])@,
                sandbox.ro_bind_extra@[k]@,
            ),
        forall|k: int|
            0 <= k < system.lib_dirs@.len() ==> has_option(
                args,
                "--ro-bind",
                (#[trigger] system.lib_dirs@[k])@,
                system.lib_dirs@[k]@,
            ),
        forall|k: int|
            0 <= k < system.lib_symlinks@.len() ==> has_option(
                args,
                "--symlink",
                (#[trigger] system.lib_symlinks@[k]).1@,
                system.lib_symlinks@[k].0@,
            ),
{
    assert forall|k: int| 0 <= k < sandbox.ro_bind_extra@.len() implies has_option(
        args,
        "--ro-bind",
        (#[trigger] sandbox.ro_bind_extra@[k])@,
        sandbox.ro_bind_extra@[k]@,
    ) by {
        let i = further_path_is_bound(sandbox, system, environment, k);
        assert(args[i]@ == text::contents(args)[i]);
        assert(args[i + 1]@ == text::contents(args)[i + 1]);
        assert(args[i + 2]@ == text::contents(args)[i + 2]);
    }
    assert forall|k: int| 0 <= k < system.lib_dirs@.len() implies has_option(
        args,
        "--ro-bind",
        (#[trigger] system.lib_dirs@[k])@,
        system.lib_dirs@[k]@,
    ) by {
        let i = library_directory_is_bound(sandbox, system, environment, k);
        assert(args[i]@ == text::contents(args)[i]);
        assert(args[i + 1]@ == text::contents(args)[i + 1]);
        assert(args[i + 2]@ == text::contents(args)[i + 2]);
    }
    assert forall|k: int| 0 <= k < system.lib_symlinks@.len() implies has_option(
        args,
        "--symlink",
        (#[trigger] system.lib_symlinks@[k]).1@,
        system.lib_symlinks@[k].0@,
    ) by {
        let i = library_link_is_made(sandbox, system, environment, k);
        assert(args[i]@ == text::contents(args)[i]);
        assert(args[i + 1]@ == text::contents(args)[i + 1]);
        assert(args[i + 2]@ == text::contents(args)[i + 2]);
    }
}

/// A program that is not in `/usr` is bound itself, so that it can be run.
pub proof fn program_is_bound<D>(
    sandbox: Sandbox<D>,
    system: SystemSetup,
    environment: FontconfigEnvironment,
) -> (i: int)
    requires
        !path::is_within(sandbox.config_entry.program(), text::utf8("/usr")),
    ensures
        i == 22 + 3 * (system.lib_symlinks@.len() + system.lib_dirs@.len()
            + sandbox.ro_bind_extra@.len()),
        0 <= i < sandbox.all_bwrap_args(system, environment).len() - 2,
        sandbox.all_bwrap_args(system, environment)[i] == text::utf8("--ro-bind"),
        sandbox.all_bwrap_args(system, environment)[i + 1] == sandbox.config_entry.program(),
        sandbox.all_bwrap_args(system, environment)[i + 2] == sandbox.config_entry.program(),
{
    let base = bytes_of_each(BWRAP_ARGS@);
    let links = symlink_each(system.lib_symlinks@);
    let dirs = bind_each("--ro-bind", text::contents(system.lib_dirs@));
    let extra = bind_each("--ro-bind", text::contents(sandbox.ro_bind_extra@));
    lemma_symlink_each(system.lib_symlinks@, 0);
    lemma_bind_each("--ro-bind", text::contents(system.lib_dirs@), 0);
    lemma_bind_each("--ro-bind", text::contents(sandbox.ro_bind_extra@), 0);
    (base.len() + links.len() + dirs.len() + extra.len()) as int
}

/// Every path that fontconfig names is bound for a program that uses it.
pub proof fn font_path_is_bound<D>(
    sandbox: Sandbox<D>,
    system: SystemSetup,
    environment: FontconfigEnvironment,
    k: int,
) -> (i: int)
    requires
        sandbox.config_entry.uses_fontconfig(),
        environment.paths matches Some(paths) && 0 <= k < paths@.len(),
    ensures
        0 <= i < sandbox.all_bwrap_args(system, environment).len() - 2,
        sandbox.all_bwrap_args(system, environment)[i] == text::utf8("--ro-bind-try"),
        sandbox.all_bwrap_args(system, environment)[i + 1] == environment.paths->0@[k]@,
        sandbox.all_bwrap_args(system, environment)[i + 2] == environment.paths->0@[k]@,
{
    let base = bytes_of_each(BWRAP_ARGS@);
    let links = symlink_each(system.lib_symlinks@);
    let dirs = bind_each("--ro-bind", text::contents(system.lib_dirs@));
    let extra = bind_each("--ro-bind", text::contents(sandbox.ro_bind_extra@));
    lemma_symlink_each(system.lib_symlinks@, 0);
    lemma_bind_each("--ro-bind", text::contents(system.lib_dirs@), 0);
    lemma_bind_each("--ro-bind", text::contents(sandbox.ro_bind_extra@), 0);
    lemma_bind_each("--ro-bind-try", text::contents(environment.paths->0@), k);
    base.len() + links.len() + dirs.len() + extra.len() + sandbox.executable_args().len() + 3 * k
}

/// The cache directory can be written to, and is named as such, for a program
/// that uses fontconfig, if it exists.
pub proof fn cache_is_bound_last<D>(
    sandbox: Sandbox<D>,
    system: SystemSetup,
    environment: FontconfigEnvironment,
)
    requires
        sandbox.config_entry.uses_fontconfig(),
        environment.paths is Some,
        environment.cache_dir_created,
    ensures
        ({
            let args = sandbox.all_bwrap_args(system, environment);
            let cache_dir = sandbox.cache_dir(environment.user_cache_dir@);
            &&& args.len() >= 6
            &&& args.skip(args.len() - 6) == seq![
                text::utf8("--bind-try"),
                cache_dir,
                cache_dir,
                text::utf8("--setenv"),
                text::utf8("XDG_CACHE_HOME"),
                cache_dir,
            ]
        }),
{
    let args = sandbox.all_bwrap_args(system, environment);
    let fonts = sandbox.fontconfig_args(environment);
    assert(args.skip(args.len() - 6) =~= fonts.skip(fonts.len() - 6));
}

/// The options that every sandbox gets come first.
pub proof fn fixed_arguments_come_first<D>(
    sandbox: Sandbox<D>,
    system: SystemSetup,
    environment: FontconfigEnvironment,
    i: int,
)
    requires
        0 <= i < BWRAP_ARGS@.len(),
    ensures
        i < sandbox.all_bwrap_args(system, environment).len(),
        sandbox.all_bwrap_args(system, environment)[i] == text::utf8(BWRAP_ARGS@[i]),
{
}

/// Every sandbox of Bubblewrap shares nothing with the system, ends with its
/// parent, starts in the root directory, and has `/usr`, devices and the cache of
/// the dynamic linker, but only made-up home and runtime directories.
pub proof fn sandbox_is_cut_off<D>(
    sandbox: Sandbox<D>,
    system: SystemSetup,
    environment: FontconfigEnvironment,
)
    ensures
        sandbox.all_bwrap_args(system, environment).len() >= 22,
        sandbox.all_bwrap_args(system, environment).take(22) == seq![
            text::utf8("--unshare-all"),
            text::utf8("--die-with-parent"),
            text::utf8("--chdir"),
            text::utf8("/"),
            text::utf8("--ro-bind"),
            text::utf8("/usr"),
            text::utf8("/usr"),
            text::utf8("--dev"),
            text::utf8("/dev"),
            text::utf8("--ro-bind-try"),
            text::utf8("/etc/ld.so.cache"),
            text::utf8("/etc/ld.so.cache"),
            text::utf8("--tmpfs"),
            text::utf8("/tmp-home"),
            text::utf8("--setenv"),
            text::utf8("HOME"),
            text::utf8("/tmp-home"),
            text::utf8("--tmpfs"),
            text::utf8("/tmp-run"),
            text::utf8("--setenv"),
            text::utf8("XDG_RUNTIME_DIR"),
            text::utf8("/tmp-run"),
        ],
{
    assert(sandbox.all_bwrap_args(system, environment).take(22) =~= seq![
        text::utf8("--unshare-all"),
        text::utf8("--die-with-parent"),
        text::utf8("--chdir"),
        text::utf8("/"),
        text::utf8("--ro-bind"),
        text::utf8("/usr"),
        text::utf8("/usr"),
        text::utf8("--dev"),
        text::utf8("/dev"),
        text::utf8("--ro-bind-try"),
        text::utf8("/etc/ld.so.cache"),
        text::utf8("/etc/ld.so.cache"),
        text::utf8("--tmpfs"),
        text::utf8("/tmp-home"),
        text::utf8("--setenv"),
        text::utf8("HOME"),
        text::utf8("/tmp-home"),
        text::utf8("--tmpfs"),
        text::utf8("/tmp-run"),
        text::utf8("--setenv"),
        text::utf8("XDG_RUNTIME_DIR"),
        text::utf8("/tmp-run"),
    ]);
}

/// There are no arguments beyond the fixed ones and those for links, library
/// directories, further paths, the program, fonts and the cache.
pub proof fn arguments_are_counted<D>(
    sandbox: Sandbox<D>,
    system: SystemSetup,
    environment: FontconfigEnvironment,
)
    ensures
        sandbox.all_bwrap_args(system, environment).len() == 22 + 3 * (system.lib_symlinks@.len()
            + system.lib_dirs@.len() + sandbox.ro_bind_extra@.len()) + (if path::is_within(
            sandbox.config_entry.program(),
            text::utf8("/usr"),
        ) {
            0int
        } else {
            3
        }) + (match environment.paths {
            Some(paths) => if !sandbox.config_entry.uses_fontconfig() {
                0
            } else if environment.cache_dir_created {
                3 * paths@.len() as int + 6
            } else {
                3 * paths@.len() as int
            },
            None => 0,
        }),
{
    let base = bytes_of_each(BWRAP_ARGS@);
    let links = symlink_each(system.lib_symlinks@);
    let dirs = bind_each("--ro-bind", text::contents(system.lib_dirs@));
    let extra = bind_each("--ro-bind", text::contents(sandbox.ro_bind_extra@));
    lemma_symlink_each(system.lib_symlinks@, 0);
    lemma_bind_each("--ro-bind", text::contents(system.lib_dirs@), 0);
    lemma_bind_each("--ro-bind", text::contents(sandbox.ro_bind_extra@), 0);
    if let Some(paths) = environment.paths {
        lemma_bind_each("--ro-bind-try", text::contents(paths@), 0);
    }
}

/// The value of an environment variable is that of its first setting.
pub proof fn first_setting_counts(environment: Seq<(Vec<u8>, Vec<u8>)>, name: Seq<u8>, i: int)
    requires
        0 <= i <= environment.len(),
        forall|j: int| 0 <= j < i ==> (#[trigger] environment[j]).0@ != name,
        i < environment.len() ==> environment[i].0@ == name,
    ensures
        variable(environment, name) == if i < environment.len() {
            Some(environment[i].1@)
        } else {
            None
        },
    decreases i,
{
    if i > 0 {
        let rest = environment.drop_first();
        assert(environment[0].0@ != name);
        assert forall|j: int| 0 <= j < i - 1 implies (#[trigger] rest[j]).0@ != name by {
            assert(rest[j] == environment[j + 1]);
        }
        if i < environment.len() {
            assert(rest[i - 1] == environment[i]);
        }
        first_setting_counts(rest, name, i - 1);
    }
}

/// Exactly the variables for backtraces and logging are inherited, in this
/// order and as far as they are set: as arguments of the Flatpak portal, and as
/// environment variables otherwise.
pub proof fn only_debugging_variables_are_inherited(environment: Seq<(Vec<u8>, Vec<u8>)>)
    ensures
        env_args(environment, INHERITED_VARIABLES@) == (match variable(
            environment,
            text::utf8("RUST_BACKTRACE"),
        ) {
            Some(value) => seq![
                text::utf8("--env=") + text::utf8("RUST_BACKTRACE") + text::utf8("=") + value,
            ],
            None => seq![],
        }) + (match variable(environment, text::utf8("RUST_LOG")) {
            Some(value) => seq![
                text::utf8("--env=") + text::utf8("RUST_LOG") + text::utf8("=") + value,
            ],
            None => seq![],
        }),
        env_values(environment, INHERITED_VARIABLES@) == (match variable(
            environment,
            text::utf8("RUST_BACKTRACE"),
        ) {
            Some(value) => seq![("RUST_BACKTRACE", value)],
            None => seq![],
        }) + (match variable(environment, text::utf8("RUST_LOG")) {
            Some(value) => seq![("RUST_LOG", value)],
            None => seq![],
        }),
{
    reveal_with_fuel(env_args, 3);
    reveal_with_fuel(env_values, 3);
    let names = INHERITED_VARIABLES@;
    assert(names.drop_last() =~= seq![names[0]]);
    assert(names.drop_last().drop_last() =~= Seq::<&'static str>::empty());
}

/// With Bubblewrap the description of the sandbox comes first. The file with the
/// rules on system calls, the program and the socket of the process follow, and
/// nothing else.
pub proof fn bubblewrap_command<D, M, E>(
    sandbox: Sandbox<D>,
    dbus_fd: int,
    system: &SystemSetup,
    fontconfig: &FontconfigEnvironment,
    fd: i32,
    resources: SpawnResources<M, E>,
    environment: Seq<(Vec<u8>, Vec<u8>)>,
)
    requires
        sandbox.sandbox_mechanism == SandboxMechanism::Bwrap,
        resources matches SpawnResources::Bwrap {
            system: Ok(found),
            fontconfig: fonts,
            seccomp: Ok((_, number)),
        } && *found == *system && *fonts == *fontconfig && number == fd,
    ensures
        sandbox.command_program() == text::utf8("bwrap"),
        sandbox.command_args(dbus_fd, resources, environment) == sandbox.all_bwrap_args(
            *system,
            *fontconfig,
        ) + seq![
            text::utf8("--seccomp"),
            text::signed_decimal(fd as int),
            sandbox.config_entry.program(),
            text::utf8("--dbus-fd"),
            text::signed_decimal(dbus_fd),
        ],
{
    assert(sandbox.command_args(dbus_fd, resources, environment) =~= sandbox.all_bwrap_args(
        *system,
        *fontconfig,
    ) + seq![
        text::utf8("--seccomp"),
        text::signed_decimal(fd as int),
        sandbox.config_entry.program(),
        text::utf8("--dbus-fd"),
        text::signed_decimal(dbus_fd),
    ]);
}

/// Through the Flatpak portal the program gets a sandbox, a memory limit, its
/// socket, and no environment variables but those for debugging.
pub proof fn flatpak_command<D, M, E>(
    sandbox: Sandbox<D>,
    dbus_fd: int,
    memory_limit: u64,
    resources: SpawnResources<M, E>,
    environment: Seq<(Vec<u8>, Vec<u8>)>,
)
    requires
        sandbox.sandbox_mechanism == SandboxMechanism::FlatpakSpawn,
        resources matches SpawnResources::FlatpakSpawn { memory_limit: limit } && limit
            == memory_limit,
    ensures
        sandbox.command_program() == text::utf8("flatpak-spawn"),
        sandbox.command_args(dbus_fd, resources, environment) == seq![
            text::utf8("--sandbox"),
            text::utf8("--watch-bus"),
            text::utf8("--directory=/"),
            text::utf8("--forward-fd=") + text::signed_decimal(dbus_fd),
            text::utf8("prlimit"),
            text::utf8("--as=") + text::decimal(memory_limit as nat),
            sandbox.config_entry.program(),
            text::utf8("--dbus-fd"),
            text::signed_decimal(dbus_fd),
            text::utf8("--clear-env"),
        ] + env_args(environment, INHERITED_VARIABLES@),
{
    assert(sandbox.command_args(dbus_fd, resources, environment) =~= seq![
        text::utf8("--sandbox"),
        text::utf8("--watch-bus"),
        text::utf8("--directory=/"),
        text::utf8("--forward-fd=") + text::signed_decimal(dbus_fd),
        text::utf8("prlimit"),
        text::utf8("--as=") + text::decimal(memory_limit as nat),
        sandbox.config_entry.program(),
        text::utf8("--dbus-fd"),
        text::signed_decimal(dbus_fd),
        text::utf8("--clear-env"),
    ] + env_args(environment, INHERITED_VARIABLES@));
}

/// Without a sandbox the program itself is run, with its socket as the only
/// argument.
pub proof fn unsandboxed_command<D, M, E>(
    sandbox: Sandbox<D>,
    dbus_fd: int,
    resources: SpawnResources<M, E>,
    environment: Seq<(Vec<u8>, Vec<u8>)>,
)
    requires
        sandbox.sandbox_mechanism == SandboxMechanism::NotSandboxed,
        resources is NotSandboxed,
    ensures
        sandbox.command_program() == sandbox.config_entry.program(),
        sandbox.command_args(dbus_fd, resources, environment) == seq![
            text::utf8("--dbus-fd"),
            text::signed_decimal(dbus_fd),
        ],
{
    assert(sandbox.command_args(dbus_fd, resources, environment)
        =~= seq![text::utf8("--dbus-fd"), text::signed_decimal(dbus_fd)]);
}

/// A sandbox cannot be built if and only if it is one of Bubblewrap and the
/// system or, if not that, the file with the rules could not be had.
pub proof fn sandbox_fails_for_missing_resources<M, E>(resources: SpawnResources<M, E>)
    ensures
        match resources {
            SpawnResources::Bwrap { system, fontconfig: _, seccomp } => resources.failure()
                == match (system, seccomp) {
                (Err(error), _) => Some(error),
                (Ok(_), Err(error)) => Some(error),
                (Ok(_), Ok(_)) => None,
            },
            _ => resources.failure() is None && resources.seccomp_file() is None,
        },
{
}

/// There is one rule for each system call, in the same order, and it allows the
/// call.
pub proof fn each_rule_allows_one_call(syscalls: Seq<&'static str>, i: int)
    requires
        0 <= i < syscalls.len(),
    ensures
        allow_all(syscalls).len() == syscalls.len(),
        allow_all(syscalls)[i] == (SeccompAction::Allow, syscalls[i]),
{
}

/// The system calls that a program may make are those that reading, decoding and
/// answering need. With fontconfig come those that update its cache.
pub proof fn calls_for_decoding_are_allowed()
    ensures
        allowed_calls(false) == seq![
            "access", "arch_prctl", "arm_fadvise64_64", "brk", "capget", "capset", "chdir",
            "clock_getres", "clock_gettime", "clock_gettime64", "clone", "clone3", "close",
            "connect", "creat", "dup", "epoll_create", "epoll_create1", "epoll_ctl",
            "epoll_pwait", "epoll_wait", "eventfd", "eventfd2", "execve", "exit", "faccessat",
            "fadvise64", "fadvise64_64", "fchdir", "fcntl", "fcntl", "fcntl64", "fstat",
            "fstatfs", "fstatfs64", "ftruncate", "ftruncate64", "futex", "futex_time64",
            "get_mempolicy", "getcwd", "getdents64", "getegid", "getegid32", "geteuid",
            "geteuid32", "getgid", "getgid32", "getpid", "getppid", "getrandom", "gettid",
            "gettimeofday", "getuid", "getuid32", "ioctl", "madvise", "membarrier",
            "memfd_create", "mmap", "mmap2", "mprotect", "mremap", "munmap", "newfstatat",
            "open", "openat", "pipe", "pipe2", "pivot_root", "poll", "ppoll", "ppoll_time64",
            "prctl", "pread64", "prlimit64", "read", "readlink", "readlinkat", "recvfrom",
            "recvmsg", "rseq", "rt_sigaction", "rt_sigprocmask", "rt_sigreturn",
            "sched_getaffinity", "sched_yield", "sendmsg", "sendto", "set_mempolicy",
            "set_mempolicy", "set_robust_list", "set_thread_area", "set_tid_address", "set_tls",
            "sigaltstack", "signalfd4", "socket", "socketcall", "stat", "statfs", "statfs64",
            "statx", "sysinfo", "timerfd_create", "timerfd_settime", "timerfd_settime64",
            "tgkill", "ugetrlimit", "unshare", "wait4", "write", "writev",
        ],
        allowed_calls(true) == allowed_calls(false) + seq![
            "chmod", "link", "linkat", "unlink", "unlinkat", "rename", "renameat", "renameat2",
        ],
{
    let calls = seq![
        "access", "arch_prctl", "arm_fadvise64_64", "brk", "capget", "capset", "chdir",
        "clock_getres", "clock_gettime", "clock_gettime64", "clone", "clone3", "close",
        "connect", "creat", "dup", "epoll_create", "epoll_create1", "epoll_ctl", "epoll_pwait",
        "epoll_wait", "eventfd", "eventfd2", "execve", "exit", "faccessat", "fadvise64",
        "fadvise64_64", "fchdir", "fcntl", "fcntl", "fcntl64", "fstat", "fstatfs", "fstatfs64",
        "ftruncate", "ftruncate64", "futex", "futex_time64", "get_mempolicy", "getcwd",
        "getdents64", "getegid", "getegid32", "geteuid", "geteuid32", "getgid", "getgid32",
        "getpid", "getppid", "getrandom", "gettid", "gettimeofday", "getuid", "getuid32",
        "ioctl", "madvise", "membarrier", "memfd_create", "mmap", "mmap2", "mprotect", "mremap",
        "munmap", "newfstatat", "open", "openat", "pipe", "pipe2", "pivot_root", "poll", "ppoll",
        "ppoll_time64", "prctl", "pread64", "prlimit64", "read", "readlink", "readlinkat",
        "recvfrom", "recvmsg", "rseq", "rt_sigaction", "rt_sigprocmask", "rt_sigreturn",
        "sched_getaffinity", "sched_yield", "sendmsg", "sendto", "set_mempolicy",
        "set_mempolicy", "set_robust_list", "set_thread_area", "set_tid_address", "set_tls",
        "sigaltstack", "signalfd4", "socket", "socketcall", "stat", "statfs", "statfs64",
        "statx", "sysinfo", "timerfd_create", "timerfd_settime", "timerfd_settime64", "tgkill",
        "ugetrlimit", "unshare", "wait4", "write", "writev",
    ];
    assert(ALLOWED_SYSCALLS@ =~= calls);
    assert(ALLOWED_SYSCALLS_FONTCONFIG@ =~= seq![
        "chmod", "link", "linkat", "unlink", "unlinkat", "rename", "renameat", "renameat2",
    ]);
}

/// The program and its rules are started by the mechanism that the resources are
/// for.
pub proof fn resources_are_for_one_mechanism<M, E>(resources: SpawnResources<M, E>)
    ensures
        resources.mechanism() == SandboxMechanism::Bwrap <==> resources is Bwrap,
        resources.mechanism() == SandboxMechanism::FlatpakSpawn <==> resources is FlatpakSpawn,
        resources.mechanism() == SandboxMechanism::NotSandboxed <==> resources is NotSandboxed,
        resources matches SpawnResources::Bwrap { system: _, fontconfig: _, seccomp: Ok((file, _)) }
            ==> resources.seccomp_file() == Some(file),
{
}

/// Environment variables are set under their names to their values.
pub proof fn environment_is_kept(envs: Seq<(&'static str, Vec<u8>)>)
    ensures
        env_contents(envs).len() == envs.len(),
        forall|i: int|
            0 <= i < envs.len() ==> #[trigger] env_contents(envs)[i] == (envs[i].0, envs[i].1@),
{
}

/// The cache of a program is below that of this library in the cache directory of
/// the user, under the names of the path to the program.
pub proof fn cache_is_named_after_program<D>(sandbox: Sandbox<D>, user_cache_dir: Seq<u8>)
    requires
        user_cache_dir.len() > 0,
        sandbox.config_entry.program().len() > 0,
        sandbox.config_entry.program()[0] == 47,
    ensures
        path::components(sandbox.cache_dir(user_cache_dir)) == path::components(user_cache_dir)
            + seq![text::utf8("glycin")] + path::components(sandbox.config_entry.program()).skip(1),
{
    let program = sandbox.config_entry.program();
    let name = text::utf8("glycin");
    reveal_strlit("glycin");
    vstd::utf8::is_ascii_chars_encode_utf8("glycin"@);
    let rest = path::joined_all(path::without_first(path::components(program)));
    let none = Seq::<Seq<u8>>::empty();
    path::paths_are_followed_in_order(none, user_cache_dir);
    path::paths_are_followed_in_order(none.push(user_cache_dir), name);
    path::paths_are_followed_in_order(none.push(user_cache_dir).push(name), rest);
    assert(none.push(user_cache_dir).push(name).push(rest) =~= seq![user_cache_dir, name, rest]);
    path::paths_are_joined_with_slash(seq![], user_cache_dir);
    let own = path::joined(user_cache_dir, name);
    path::joined_path_is_within_base(user_cache_dir, name);
    path::first_components(name);
    text::text_without_separator_is_one_part(name, 47);
    assert(path::components(name) =~= path::names(text::split_at_all(name, 47)));
    path::absolute_path_is_moved(own, program);
}

/// A program that does not use fontconfig gets the same sandbox whatever is
/// known about fonts.
pub proof fn fonts_do_not_matter_without_fontconfig<D>(
    sandbox: Sandbox<D>,
    system: SystemSetup,
    one: FontconfigEnvironment,
    other: FontconfigEnvironment,
)
    requires
        !sandbox.config_entry.uses_fontconfig(),
    ensures
        sandbox.all_bwrap_args(system, one) == sandbox.all_bwrap_args(system, other),
{
}

/// Whether the name of a system call begins like one of those for fontconfig
spec fn begins_like_fontconfig_call(name: Seq<char>) -> bool {
    &&& name.len() > 2
    &&& {
        ||| name[0] == 'c' && name[1] == 'h' && name[2] == 'm'
        ||| name[0] == 'l' && name[1] == 'i' && name[2] == 'n'
        ||| name[0] == 'u' && name[1] == 'n' && name[2] == 'l'
        ||| name[0] == 'r' && name[1] == 'e' && name[2] == 'n'
    }
}

proof fn lemma_first_calls(i: int)
    requires
        0 <= i < 23,
    ensures
        !begins_like_fontconfig_call(ALLOWED_SYSCALLS@[i]@),
{
    reveal_strlit("access");
    reveal_strlit("arch_prctl");
    reveal_strlit("arm_fadvise64_64");
    reveal_strlit("brk");
    reveal_strlit("capget");
    reveal_strlit("capset");
    reveal_strlit("chdir");
    reveal_strlit("clock_getres");
    reveal_strlit("clock_gettime");
    reveal_strlit("clock_gettime64");
    reveal_strlit("clone");
    reveal_strlit("clone3");
    reveal_strlit("close");
    reveal_strlit("connect");
    reveal_strlit("creat");
    reveal_strlit("dup");
    reveal_strlit("epoll_create");
    reveal_strlit("epoll_create1");
    reveal_strlit("epoll_ctl");
    reveal_strlit("epoll_pwait");
    reveal_strlit("epoll_wait");
    reveal_strlit("eventfd");
    reveal_strlit("eventfd2");
}

proof fn lemma_second_calls(i: int)
    requires
        23 <= i < 46,
    ensures
        !begins_like_fontconfig_call(ALLOWED_SYSCALLS@[i]@),
{
    reveal_strlit("execve");
    reveal_strlit("exit");
    reveal_strlit("faccessat");
    reveal_strlit("fadvise64");
    reveal_strlit("fadvise64_64");
    reveal_strlit("fchdir");
    reveal_strlit("fcntl");
    reveal_strlit("fcntl64");
    reveal_strlit("fstat");
    reveal_strlit("fstatfs");
    reveal_strlit("fstatfs64");
    reveal_strlit("ftruncate");
    reveal_strlit("ftruncate64");
    reveal_strlit("futex");
    reveal_strlit("futex_time64");
    reveal_strlit("get_mempolicy");
    reveal_strlit("getcwd");
    reveal_strlit("getdents64");
    reveal_strlit("getegid");
    reveal_strlit("getegid32");
    reveal_strlit("geteuid");
    reveal_strlit("geteuid32");
}

proof fn lemma_third_calls(i: int)
    requires
        46 <= i < 69,
    ensures
        !begins_like_fontconfig_call(ALLOWED_SYSCALLS@[i]@),
{
    reveal_strlit("getgid");
    reveal_strlit("getgid32");
    reveal_strlit("getpid");
    reveal_strlit("getppid");
    reveal_strlit("getrandom");
    reveal_strlit("gettid");
    reveal_strlit("gettimeofday");
    reveal_strlit("getuid");
    reveal_strlit("getuid32");
    reveal_strlit("ioctl");
    reveal_strlit("madvise");
    reveal_strlit("membarrier");
    reveal_strlit("memfd_create");
    reveal_strlit("mmap");
    reveal_strlit("mmap2");
    reveal_strlit("mprotect");
    reveal_strlit("mremap");
    reveal_strlit("munmap");
    reveal_strlit("newfstatat");
    reveal_strlit("open");
    reveal_strlit("openat");
    reveal_strlit("pipe");
    reveal_strlit("pipe2");
}

proof fn lemma_fourth_calls(i: int)
    requires
        69 <= i < 92,
    ensures
        !begins_like_fontconfig_call(ALLOWED_SYSCALLS@[i]@),
{
    reveal_strlit("pivot_root");
    reveal_strlit("poll");
    reveal_strlit("ppoll");
    reveal_strlit("ppoll_time64");
    reveal_strlit("prctl");
    reveal_strlit("pread64");
    reveal_strlit("prlimit64");
    reveal_strlit("read");
    reveal_strlit("readlink");
    reveal_strlit("readlinkat");
    reveal_strlit("recvfrom");
    reveal_strlit("recvmsg");
    reveal_strlit("rseq");
    reveal_strlit("rt_sigaction");
    reveal_strlit("rt_sigprocmask");
    reveal_strlit("rt_sigreturn");
    reveal_strlit("sched_getaffinity");
    reveal_strlit("sched_yield");
    reveal_strlit("sendmsg");
    reveal_strlit("sendto");
    reveal_strlit("set_mempolicy");
    reveal_strlit("set_robust_list");
}

proof fn lemma_fifth_calls(i: int)
    requires
        92 <= i < 113,
    ensures
        !begins_like_fontconfig_call(ALLOWED_SYSCALLS@[i]@),
{
    reveal_strlit("set_thread_area");
    reveal_strlit("set_tid_address");
    reveal_strlit("set_tls");
    reveal_strlit("sigaltstack");
    reveal_strlit("signalfd4");
    reveal_strlit("socket");
    reveal_strlit("socketcall");
    reveal_strlit("stat");
    reveal_strlit("statfs");
    reveal_strlit("statfs64");
    reveal_strlit("statx");
    reveal_strlit("sysinfo");
    reveal_strlit("timerfd_create");
    reveal_strlit("timerfd_settime");
    reveal_strlit("timerfd_settime64");
    reveal_strlit("tgkill");
    reveal_strlit("ugetrlimit");
    reveal_strlit("unshare");
    reveal_strlit("wait4");
    reveal_strlit("write");
    reveal_strlit("writev");
}

proof fn lemma_fontconfig_calls(i: int)
    requires
        0 <= i < ALLOWED_SYSCALLS_FONTCONFIG@.len(),
    ensures
        begins_like_fontconfig_call(ALLOWED_SYSCALLS_FONTCONFIG@[i]@),
{
    reveal_strlit("chmod");
    reveal_strlit("link");
    reveal_strlit("linkat");
    reveal_strlit("unlink");
    reveal_strlit("unlinkat");
    reveal_strlit("rename");
    reveal_strlit("renameat");
    reveal_strlit("renameat2");
}

/// A program that uses fontconfig may make all system calls that another one
/// may make, and those for fontconfig, which another one may not make. Nothing
/// else of a sandbox matters for the rules.
pub proof fn fontconfig_adds_system_calls<D>(one: Sandbox<D>, other: Sandbox<D>, name: &'static str)
    requires
        !one.config_entry.uses_fontconfig(),
        other.config_entry.uses_fontconfig(),
    ensures
        ({
            let without = allowed_calls(one.config_entry.uses_fontconfig());
            let with = allowed_calls(other.config_entry.uses_fontconfig());
            let further = ALLOWED_SYSCALLS_FONTCONFIG@;
            &&& with.contains(name) <==> without.contains(name) || further.contains(name)
            &&& further.contains(name) ==> !without.contains(name)
        }),
{
    let without = ALLOWED_SYSCALLS@;
    let with = allowed_calls(true);
    let further = ALLOWED_SYSCALLS_FONTCONFIG@;
    if without.contains(name) {
        let i = without.index_of(name);
        assert(with[i] == name);
    }
    if further.contains(name) {
        let j = further.index_of(name);
        assert(with[without.len() + j] == name);
        lemma_fontconfig_calls(j);
        if without.contains(name) {
            let i = without.index_of(name);
            if i < 23 {
                lemma_first_calls(i);
            } else if i < 46 {
                lemma_second_calls(i);
            } else if i < 69 {
                lemma_third_calls(i);
            } else if i < 92 {
                lemma_fourth_calls(i);
            } else {
                lemma_fifth_calls(i);
            }
        }
    }
}

/// Option of Bubblewrap with its operands
pub enum BwrapOption {
    UnshareAll,
    DieWithParent,
    Chdir(Seq<u8>),
    /// Make a path available that cannot be written to
    RoBind(Seq<u8>),
    /// Make a path available that cannot be written to, if it exists
    RoBindTry(Seq<u8>),
    /// Make a path available that can be written to, if it exists
    BindTry(Seq<u8>),
    Dev(Seq<u8>),
    Tmpfs(Seq<u8>),
    Setenv(Seq<u8>, Seq<u8>),
    /// Create a link, of which the place comes first and what it leads to
    /// second
    Symlink(Seq<u8>, Seq<u8>),
}

impl BwrapOption {
    /// The option as arguments
    pub open spec fn args(self) -> Seq<Seq<u8>> {
        match self {
            BwrapOption::UnshareAll => seq![text::utf8("--unshare-all")],
            BwrapOption::DieWithParent => seq![text::utf8("--die-with-parent")],
            BwrapOption::Chdir(dir) => seq![text::utf8("--chdir"), dir],
            BwrapOption::RoBind(path) => seq![text::utf8("--ro-bind"), path, path],
            BwrapOption::RoBindTry(path) => seq![text::utf8("--ro-bind-try"), path, path],
            BwrapOption::BindTry(path) => seq![text::utf8("--bind-try"), path, path],
            BwrapOption::Dev(dir) => seq![text::utf8("--dev"), dir],
            BwrapOption::Tmpfs(dir) => seq![text::utf8("--tmpfs"), dir],
            BwrapOption::Setenv(name, value) => seq![text::utf8("--setenv"), name, value],
            BwrapOption::Symlink(place, target) => seq![text::utf8("--symlink"), target, place],
        }
    }

    /// The path of the surrounding system that the option makes available
    pub open spec fn available(self) -> Option<Seq<u8>> {
        match self {
            BwrapOption::RoBind(path) => Some(path),
            BwrapOption::RoBindTry(path) => Some(path),
            BwrapOption::BindTry(path) => Some(path),
            _ => None,
        }
    }
}

/// Several options as arguments
pub open spec fn written(options: Seq<BwrapOption>) -> Seq<Seq<u8>>
    decreases options.len(),
{
    if options.len() == 0 {
        seq![]
    } else {
        written(options.drop_last()) + options.last().args()
    }
}

/// Options that every sandbox of Bubblewrap gets
pub open spec fn base_options() -> Seq<BwrapOption> {
    seq![
        BwrapOption::UnshareAll,
        BwrapOption::DieWithParent,
        BwrapOption::Chdir(text::utf8("/")),
        BwrapOption::RoBind(text::utf8("/usr")),
        BwrapOption::Dev(text::utf8("/dev")),
        BwrapOption::RoBindTry(text::utf8("/etc/ld.so.cache")),
        BwrapOption::Tmpfs(text::utf8("/tmp-home")),
        BwrapOption::Setenv(text::utf8("HOME"), text::utf8("/tmp-home")),
        BwrapOption::Tmpfs(text::utf8("/tmp-run")),
        BwrapOption::Setenv(text::utf8("XDG_RUNTIME_DIR"), text::utf8("/tmp-run")),
    ]
}

impl<D> Sandbox<D> {
    /// Option that makes the program available, unless it is in `/usr`
    pub open spec fn executable_options(self) -> Seq<BwrapOption> {
        let program = self.config_entry.program();
        if path::is_within(program, text::utf8("/usr")) {
            seq![]
        } else {
            seq![BwrapOption::RoBind(program)]
        }
    }

    /// Options that make fonts available, if the program needs any
    pub open spec fn fontconfig_options(self, environment: FontconfigEnvironment) -> Seq<
        BwrapOption,
    > {
        let cache_dir = self.cache_dir(environment.user_cache_dir@);
        match environment.paths {
            Some(paths) if self.config_entry.uses_fontconfig() => text::contents(
                paths@,
            ).map_values(|path: Seq<u8>| BwrapOption::RoBindTry(path))
                + if environment.cache_dir_created {
                seq![
                    BwrapOption::BindTry(cache_dir),
                    BwrapOption::Setenv(text::utf8("XDG_CACHE_HOME"), cache_dir),
                ]
            } else {
                seq![]
            },
            _ => seq![],
        }
    }

    /// All options that describe a sandbox of Bubblewrap
    pub open spec fn bwrap_options(
        self,
        system: SystemSetup,
        environment: FontconfigEnvironment,
    ) -> Seq<BwrapOption> {
        let ro_bind = |path: Seq<u8>| BwrapOption::RoBind(path);
        base_options() + system.lib_symlinks@.map_values(
            |link: (PathBuf, PathBuf)| BwrapOption::Symlink(link.0@, link.1@),
        ) + text::contents(system.lib_dirs@).map_values(ro_bind) + text::contents(
            self.ro_bind_extra@,
        ).map_values(ro_bind) + self.executable_options() + self.fontconfig_options(environment)
    }
}

proof fn lemma_written_concatenation(one: Seq<BwrapOption>, other: Seq<BwrapOption>)
    ensures
        written(one + other) == written(one) + written(other),
    decreases other.len(),
{
    if other.len() == 0 {
        assert(one + other =~= one);
        assert(written(one) + written(other) =~= written(one));
    } else {
        lemma_written_concatenation(one, other.drop_last());
        assert((one + other).drop_last() =~= one + other.drop_last());
        assert((one + other).last() == other.last());
        assert(written(one + other) =~= written(one) + written(other));
    }
}

proof fn lemma_written_bindings(
    option: &str,
    binding: spec_fn(Seq<u8>) -> BwrapOption,
    dirs: Seq<Seq<u8>>,
)
    requires
        forall|dir: Seq<u8>| (#[trigger] binding(dir)).args() == seq![text::utf8(option), dir, dir],
    ensures
        written(dirs.map_values(binding)) == bind_each(option, dirs),
    decreases dirs.len(),
{
    if dirs.len() > 0 {
        lemma_written_bindings(option, binding, dirs.drop_last());
        assert(dirs.map_values(binding).drop_last() =~= dirs.drop_last().map_values(binding));
        assert(dirs.map_values(binding).last() == binding(dirs.last()));
    }
}

proof fn lemma_written_symlinks(
    symlink: spec_fn((PathBuf, PathBuf)) -> BwrapOption,
    links: Seq<(PathBuf, PathBuf)>,
)
    requires
        forall|link: (PathBuf, PathBuf)| #[trigger]
            symlink(link) == BwrapOption::Symlink(link.0@, link.1@),
    ensures
        written(links.map_values(symlink)) == symlink_each(links),
    decreases links.len(),
{
    if links.len() > 0 {
        lemma_written_symlinks(symlink, links.drop_last());
        assert(links.map_values(symlink).drop_last() =~= links.drop_last().map_values(symlink));
        assert(links.map_values(symlink).last() == symlink(links.last()));
    }
}

proof fn lemma_written_next(options: Seq<BwrapOption>, i: int)
    requires
        0 <= i < options.len(),
    ensures
        written(options.take(i + 1)) == written(options.take(i)) + options[i].args(),
{
    assert(options.take(i + 1).drop_last() =~= options.take(i));
}

proof fn lemma_written_first_base_options()
    ensures
        written(base_options().take(5)) == bytes_of_each(BWRAP_ARGS@).take(9),
{
    let base = base_options();
    let fixed = bytes_of_each(BWRAP_ARGS@);
    assert(written(base.take(0)) =~= fixed.take(0));
    assert(written(base.take(1)) =~= fixed.take(1)) by {
        lemma_written_next(base, 0);
    }
    assert(written(base.take(2)) =~= fixed.take(2)) by {
        lemma_written_next(base, 1);
    }
    assert(written(base.take(3)) =~= fixed.take(4)) by {
        lemma_written_next(base, 2);
    }
    assert(written(base.take(4)) =~= fixed.take(7)) by {
        lemma_written_next(base, 3);
    }
    assert(written(base.take(5)) =~= fixed.take(9)) by {
        lemma_written_next(base, 4);
    }
}

proof fn lemma_written_base_options()
    ensures
        written(base_options()) == bytes_of_each(BWRAP_ARGS@),
{
    let base = base_options();
    let fixed = bytes_of_each(BWRAP_ARGS@);
    lemma_written_first_base_options();
    assert(written(base.take(6)) =~= fixed.take(12)) by {
        lemma_written_next(base, 5);
    }
    assert(written(base.take(7)) =~= fixed.take(14)) by {
        lemma_written_next(base, 6);
    }
    assert(written(base.take(8)) =~= fixed.take(17)) by {
        lemma_written_next(base, 7);
    }
    assert(written(base.take(9)) =~= fixed.take(19)) by {
        lemma_written_next(base, 8);
    }
    assert(written(base.take(10)) =~= fixed.take(22)) by {
        lemma_written_next(base, 9);
    }
    assert(base.take(10) =~= base);
    assert(fixed.take(22) =~= fixed);
}

proof fn lemma_written_executable<D>(sandbox: Sandbox<D>)
    ensures
        written(sandbox.executable_options()) == sandbox.executable_args(),
{
    reveal_with_fuel(written, 2);
    assert(written(sandbox.executable_options()) =~= sandbox.executable_args());
}

proof fn lemma_written_fontconfig<D>(sandbox: Sandbox<D>, environment: FontconfigEnvironment)
    ensures
        written(sandbox.fontconfig_options(environment)) == sandbox.fontconfig_args(environment),
{
    let options = sandbox.fontconfig_options(environment);
    if environment.paths is Some && sandbox.config_entry.uses_fontconfig() {
        let ro_bind_try = |path: Seq<u8>| BwrapOption::RoBindTry(path);
        let paths = text::contents(environment.paths->0@);
        let bound = paths.map_values(ro_bind_try);
        let cache_dir = sandbox.cache_dir(environment.user_cache_dir@);
        let cache = if environment.cache_dir_created {
            seq![
                BwrapOption::BindTry(cache_dir),
                BwrapOption::Setenv(text::utf8("XDG_CACHE_HOME"), cache_dir),
            ]
        } else {
            seq![]
        };
        lemma_written_bindings("--ro-bind-try", ro_bind_try, paths);
        lemma_written_concatenation(bound, cache);
        assert(options =~= bound + cache);
        reveal_with_fuel(written, 3);
        assert(written(cache) =~= if environment.cache_dir_created {
            seq![
                text::utf8("--bind-try"),
                cache_dir,
                cache_dir,
                text::utf8("--setenv"),
                text::utf8("XDG_CACHE_HOME"),
                cache_dir,
            ]
        } else {
            seq![]
        });
    }
}

/// The arguments of a sandbox are its options one after the other.
pub proof fn args_are_written_options<D>(
    sandbox: Sandbox<D>,
    system: SystemSetup,
    environment: FontconfigEnvironment,
)
    ensures
        sandbox.all_bwrap_args(system, environment) == written(
            sandbox.bwrap_options(system, environment),
        ),
{
    let ro_bind = |path: Seq<u8>| BwrapOption::RoBind(path);
    let symlink = |link: (PathBuf, PathBuf)| BwrapOption::Symlink(link.0@, link.1@);
    let base = base_options();
    let links = system.lib_symlinks@.map_values(symlink);
    let dirs = text::contents(system.lib_dirs@).map_values(ro_bind);
    let extra = text::contents(sandbox.ro_bind_extra@).map_values(ro_bind);
    let executable = sandbox.executable_options();
    let fonts = sandbox.fontconfig_options(environment);

    lemma_written_base_options();
    lemma_written_symlinks(symlink, system.lib_symlinks@);
    lemma_written_bindings("--ro-bind", ro_bind, text::contents(system.lib_dirs@));
    lemma_written_bindings("--ro-bind", ro_bind, text::contents(sandbox.ro_bind_extra@));
    lemma_written_executable(sandbox);
    lemma_written_fontconfig(sandbox, environment);

    lemma_written_concatenation(base, links);
    lemma_written_concatenation(base + links, dirs);
    lemma_written_concatenation(base + links + dirs, extra);
    lemma_written_concatenation(base + links + dirs + extra, executable);
    lemma_written_concatenation(base + links + dirs + extra + executable, fonts);
}

/// Nothing of the surrounding system can be written to from within a sandbox
/// but the cache directory of the program, and that only if the program uses
/// fontconfig.
pub proof fn only_cache_is_writable<D>(
    sandbox: Sandbox<D>,
    system: SystemSetup,
    environment: FontconfigEnvironment,
    i: int,
)
    requires
        0 <= i < sandbox.bwrap_options(system, environment).len(),
        sandbox.bwrap_options(system, environment)[i] is BindTry,
    ensures
        sandbox.bwrap_options(system, environment)[i] == BwrapOption::BindTry(
            sandbox.cache_dir(environment.user_cache_dir@),
        ),
        sandbox.config_entry.uses_fontconfig(),
        environment.cache_dir_created,
{
}

/// A sandbox makes nothing of the surrounding system available but `/usr`, what
/// the dynamic linker has cached, the library directories, the paths that were
/// asked for, the program itself, and for programs that use fontconfig the
/// paths that it names and the cache directory.
pub proof fn only_known_paths_are_available<D>(
    sandbox: Sandbox<D>,
    system: SystemSetup,
    environment: FontconfigEnvironment,
    i: int,
)
    requires
        0 <= i < sandbox.bwrap_options(system, environment).len(),
        sandbox.bwrap_options(system, environment)[i].available() is Some,
    ensures
        ({
            let path = sandbox.bwrap_options(system, environment)[i].available()->0;
            ||| path == text::utf8("/usr")
            ||| path == text::utf8("/etc/ld.so.cache")
            ||| text::contents(system.lib_dirs@).contains(path)
            ||| text::contents(sandbox.ro_bind_extra@).contains(path)
            ||| path == sandbox.config_entry.program()
            ||| sandbox.config_entry.uses_fontconfig() && {
                ||| environment.paths matches Some(paths) && text::contents(paths@).contains(path)
                ||| path == sandbox.cache_dir(environment.user_cache_dir@)
            }
        }),
{
    let path = sandbox.bwrap_options(system, environment)[i].available()->0;
    let dirs = text::contents(system.lib_dirs@);
    let extra = text::contents(sandbox.ro_bind_extra@);
    let first = base_options().len() + system.lib_symlinks@.len();
    let second = first + dirs.len();
    let third = second + extra.len();
    let fourth = third + sandbox.executable_options().len();
    if first <= i < second {
        assert(dirs[i - first] == path);
    } else if second <= i < third {
        assert(extra[i - second] == path);
    } else if fourth <= i {
        let paths = text::contents(environment.paths->0@);
        if i - fourth < paths.len() {
            assert(paths[i - fourth] == path);
        }
    }
}

} // verus!
