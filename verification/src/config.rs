//! Configuration of loaders and editors

use crate::path::PathBuf;
use crate::sandbox::SandboxMechanism;
use crate::text;
use vstd::prelude::*;

verus! {

/// Configuration of the loader for a media type
pub struct ImageLoaderConfig {
    /// The program
    pub executable: PathBuf,
    /// Whether the program uses fontconfig
    pub fontconfig: bool,
}

/// Configuration of the editor for a media type
pub struct ImageEditorConfig {
    /// The program
    pub executable: PathBuf,
    /// Whether the program uses fontconfig
    pub fontconfig: bool,
}

/// Configuration of a program that is run in a sandbox
pub enum ConfigEntry {
    Loader(ImageLoaderConfig),
    Editor(ImageEditorConfig),
}

impl ConfigEntry {
    /// The program
    pub open spec fn program(self) -> Seq<u8> {
        match self {
            ConfigEntry::Loader(config) => config.executable@,
            ConfigEntry::Editor(config) => config.executable@,
        }
    }

    /// Whether the program uses fontconfig
    pub open spec fn uses_fontconfig(self) -> bool {
        match self {
            ConfigEntry::Loader(config) => config.fontconfig,
            ConfigEntry::Editor(config) => config.fontconfig,
        }
    }

    pub fn executable(&self) -> (r: PathBuf)
        ensures
            r@ == self.program(),
    {
        match self {
            ConfigEntry::Loader(config) => text::copy(&config.executable),
            ConfigEntry::Editor(config) => text::copy(&config.executable),
        }
    }

    pub fn fontconfig(&self) -> (r: bool)
        ensures
            r == self.uses_fontconfig(),
    {
        match self {
            ConfigEntry::Loader(config) => config.fontconfig,
            ConfigEntry::Editor(config) => config.fontconfig,
        }
    }
}

/// What has to be the same for two requests to share a process
pub struct ConfigEntryHash {
    pub executable: PathBuf,
    pub fontconfig: bool,
    pub base_dir: Option<PathBuf>,
    pub sandbox_mechanism: SandboxMechanism,
}

/// The contents of a [`ConfigEntryHash`]
pub struct ConfigKey {
    pub executable: Seq<u8>,
    pub fontconfig: bool,
    pub base_dir: Option<Seq<u8>>,
    pub sandbox_mechanism: SandboxMechanism,
}

/// The bytes of a path, if there is one
pub open spec fn path_bytes(path: Option<PathBuf>) -> Option<Seq<u8>> {
    match path {
        Some(path) => Some(path@),
        None => None,
    }
}

impl View for ConfigEntryHash {
    type V = ConfigKey;

    open spec fn view(&self) -> ConfigKey {
        ConfigKey {
            executable: self.executable@,
            fontconfig: self.fontconfig,
            base_dir: path_bytes(self.base_dir),
            sandbox_mechanism: self.sandbox_mechanism,
        }
    }
}

impl ConfigEntryHash {
    /// The program
    pub fn executable(&self) -> (r: PathBuf)
        ensures
            r@ == self@.executable,
            r@ == self.executable@,
    {
        text::copy(&self.executable)
    }

    /// Whether two requests can share a process
    pub fn is_same(&self, other: &ConfigEntryHash) -> (r: bool)
        ensures
            r == (self@ == other@),
    {
        let same_base_dir = match (&self.base_dir, &other.base_dir) {
            (Some(one), Some(two)) => text::is_same(one, two),
            (None, None) => true,
            _ => false,
        };
        same_base_dir && self.fontconfig == other.fontconfig && self.sandbox_mechanism
            == other.sandbox_mechanism && text::is_same(&self.executable, &other.executable)
    }
}

impl ConfigEntry {
    /// What a request has to share with another one to use the same process
    pub open spec fn key(
        self,
        base_dir: Option<Seq<u8>>,
        sandbox_mechanism: SandboxMechanism,
    ) -> ConfigKey {
        ConfigKey {
            executable: self.program(),
            fontconfig: self.uses_fontconfig(),
            base_dir,
            sandbox_mechanism,
        }
    }

    pub fn hash_value(
        &self,
        base_dir: Option<PathBuf>,
        sandbox_mechanism: SandboxMechanism,
    ) -> (r: ConfigEntryHash)
        ensures
            r@ == self.key(path_bytes(base_dir), sandbox_mechanism),
            r.base_dir == base_dir,
            r.sandbox_mechanism == sandbox_mechanism,
            r.executable@ == self.program(),
            r.fontconfig == self.uses_fontconfig(),
    {
        ConfigEntryHash {
            executable: self.executable(),
            fontconfig: self.fontconfig(),
            base_dir,
            sandbox_mechanism,
        }
    }
}

/// The program and whether it uses fontconfig are what the configuration says,
/// for loaders and editors alike.
pub proof fn configuration_is_kept(loader: ImageLoaderConfig, editor: ImageEditorConfig)
    ensures
        ConfigEntry::Loader(loader).program() == loader.executable@,
        ConfigEntry::Editor(editor).program() == editor.executable@,
        ConfigEntry::Loader(loader).uses_fontconfig() == loader.fontconfig,
        ConfigEntry::Editor(editor).uses_fontconfig() == editor.fontconfig,
{
}

/// Two requests share a process exactly if all four of program, use of fontconfig,
/// directory and mechanism are the same.
pub proof fn requests_share_if_all_is_same(one: ConfigEntryHash, other: ConfigEntryHash)
    ensures
        one@ == other@ <==> {
            &&& one.executable@ == other.executable@
            &&& one.fontconfig == other.fontconfig
            &&& one.sandbox_mechanism == other.sandbox_mechanism
            &&& match (one.base_dir, other.base_dir) {
                (Some(dir), Some(other_dir)) => dir@ == other_dir@,
                (None, None) => true,
                _ => false,
            }
        },
{
}

/// A process is for a request exactly if it is for its program and use of
/// fontconfig, with the same directory and in the same kind of sandbox.
pub proof fn request_is_for_process(
    entry: ConfigEntry,
    base_dir: Option<PathBuf>,
    sandbox_mechanism: SandboxMechanism,
    process: ConfigEntryHash,
)
    ensures
        entry.key(path_bytes(base_dir), sandbox_mechanism) == process@ <==> {
            &&& entry.program() == process.executable@
            &&& entry.uses_fontconfig() == process.fontconfig
            &&& sandbox_mechanism == process.sandbox_mechanism
            &&& match (base_dir, process.base_dir) {
                (Some(dir), Some(process_dir)) => dir@ == process_dir@,
                (None, None) => true,
                _ => false,
            }
        },
{
}

} // verus!
