//! Directories with libraries in the root directory of the system

use crate::path;
use crate::path::PathBuf;
use crate::text;
use vstd::prelude::*;

verus! {

/// Kind of a directory entry, which is not looked up behind a symlink
#[derive(Clone, Copy, Debug, PartialEq, Eq, Structural)]
pub enum FileKind {
    Directory,
    Symlink,
    Other,
}

/// Entry of a directory, with what looking it up gave
pub struct DirEntry<E> {
    pub path: PathBuf,
    /// What kind of entry it is
    pub metadata: Result<FileKind, E>,
    /// The path without any symlinks in it
    pub canonicalized: Result<PathBuf, E>,
}

/// Something that went wrong while the root directory was looked at, and that
/// is worth a warning
pub enum Warning<E> {
    /// An entry could not be accessed
    Entry(E),
    /// The entries could not be listed
    Root(E),
}

/// What a sandbox has to offer of the root directory
pub struct SystemSetup {
    /// Dirs that need to be symlinked (UsrMerge): where the link is and where
    /// it leads to
    pub lib_symlinks: Vec<(PathBuf, PathBuf)>,
    /// Dirs that need mounting (not UsrMerged)
    pub lib_dirs: Vec<PathBuf>,
}

/// The two lists of a [`SystemSetup`]
#[verifier::ext_equal]
pub struct Libraries {
    pub symlinks: Seq<(Seq<u8>, Seq<u8>)>,
    pub dirs: Seq<Seq<u8>>,
}

impl View for SystemSetup {
    type V = Libraries;

    open spec fn view(&self) -> Libraries {
        Libraries {
            symlinks: self.lib_symlinks@.map_values(|link: (PathBuf, PathBuf)| (link.0@, link.1@)),
            dirs: text::contents(self.lib_dirs@),
        }
    }
}

/// What a directory entry is good for
pub enum Use<E> {
    /// It is to be mounted
    Mount(Seq<u8>),
    /// It is to be symlinked to where it leads to
    Link(Seq<u8>, Seq<u8>),
    /// It is not needed
    Nothing,
    /// It might be needed, but could not be looked up
    Unknown(E),
}

/// Whether the name of an entry of the root directory begins with `lib`
pub open spec fn is_library(path: Seq<u8>) -> bool {
    path::last_name(path) matches Some(name) && text::utf8("lib").is_prefix_of(name)
}

/// Whether an entry of the root directory is named `nix`
pub open spec fn is_nix(path: Seq<u8>) -> bool {
    path::last_name(path) == Some(text::utf8("nix"))
}

/// What an entry of the root directory is good for
///
/// Directories with libraries are mounted. Symlinks to libraries are only used
/// if they lead into `/usr/`, which is in every sandbox. On systems with Nix
/// the whole store is mounted: it also holds other data, but everything there
/// is read-only and non-confidential anyway.
pub open spec fn use_of<E>(entry: Result<DirEntry<E>, E>) -> Use<E> {
    match entry {
        Err(error) => Use::Unknown(error),
        Ok(entry) => if is_library(entry.path@) {
            match (entry.metadata, entry.canonicalized) {
                (Err(error), _) => Use::Unknown(error),
                (Ok(FileKind::Directory), _) => Use::Mount(entry.path@),
                (Ok(FileKind::Symlink), Err(error)) => Use::Unknown(error),
                (Ok(FileKind::Symlink), Ok(target)) => if path::is_within(
                    target@,
                    text::utf8("/usr/"),
                ) {
                    Use::Link(entry.path@, target@)
                } else {
                    Use::Nothing
                },
                (Ok(FileKind::Other), _) => Use::Nothing,
            }
        } else if is_nix(entry.path@) {
            Use::Mount(path::joined(entry.path@, text::utf8("store")))
        } else {
            Use::Nothing
        },
    }
}

impl Libraries {
    /// The lists with one more directory entry
    pub open spec fn with<E>(self, entry: Result<DirEntry<E>, E>) -> Libraries {
        match use_of(entry) {
            Use::Mount(dir) => Libraries { dirs: self.dirs.push(dir), ..self },
            Use::Link(place, target) => Libraries {
                symlinks: self.symlinks.push((place, target)),
                ..self
            },
            _ => self,
        }
    }

    /// The lists with several more directory entries
    pub open spec fn with_all<E>(self, entries: Seq<Result<DirEntry<E>, E>>) -> Libraries
        decreases entries.len(),
    {
        if entries.len() == 0 {
            self
        } else {
            self.with_all(entries.drop_last()).with(entries.last())
        }
    }
}

/// Warnings about entries that could not be looked up
pub open spec fn entry_warnings<E>(entries: Seq<Result<DirEntry<E>, E>>) -> Seq<Warning<E>>
    decreases entries.len(),
{
    if entries.len() == 0 {
        seq![]
    } else {
        match use_of(entries.last()) {
            Use::Unknown(error) => entry_warnings(entries.drop_last()).push(Warning::Entry(error)),
            _ => entry_warnings(entries.drop_last()),
        }
    }
}

impl SystemSetup {
    /// Find out what a sandbox has to offer, given the entries of the root
    /// directory or why they could not be listed
    pub fn new<E>(dir_content: Result<Vec<Result<DirEntry<E>, E>>, E>) -> (r: (
        Self,
        Vec<Warning<E>>,
    ))
        ensures
            match dir_content {
                Ok(entries) => {
                    &&& r.0@ == (Libraries { symlinks: seq![], dirs: seq![] }).with_all(entries@)
                    &&& r.1@ == entry_warnings(entries@)
                },
                Err(error) => {
                    &&& r.0@ == (Libraries { symlinks: seq![], dirs: seq![] })
                    &&& r.1@ == seq![Warning::Root(error)]
                },
            },
    {
        let mut system = SystemSetup { lib_symlinks: Vec::new(), lib_dirs: Vec::new() };
        assert(system@ =~= (Libraries { symlinks: seq![], dirs: seq![] }));
        let warnings = system.load_lib_dirs(dir_content);
        (system, warnings)
    }

    /// Add what the entries of the root directory are good for
    pub fn load_lib_dirs<E>(&mut self, dir_content: Result<Vec<Result<DirEntry<E>, E>>, E>) -> (r:
        Vec<Warning<E>>)
        ensures
            match dir_content {
                Ok(entries) => {
                    &&& final(self)@ == old(self)@.with_all(entries@)
                    &&& r@ == entry_warnings(entries@)
                },
                Err(error) => {
                    &&& final(self)@ == old(self)@
                    &&& r@ == seq![Warning::Root(error)]
                },
            },
    {
        let mut warnings: Vec<Warning<E>> = Vec::new();
        match dir_content {
            Ok(entries) => {
                let ghost all = entries@;
                assert(all.take(0) =~= Seq::<Result<DirEntry<E>, E>>::empty());
                for entry in listed: entries
                    invariant
                        listed.seq() == all,
                        self@ == old(self)@.with_all(all.take(listed.index())),
                        warnings@ == entry_warnings(all.take(listed.index())),
                {
                    proof {
                        let next = all.take(listed.index() + 1);
                        assert(next.drop_last() =~= all.take(listed.index()));
                        assert(next.last() == entry);
                    }
                    if let Err(error) = self.add_dir(entry) {
                        warnings.push(Warning::Entry(error));
                    }
                }
                assert(all.take(all.len() as int) =~= all);
            },
            Err(error) => {
                warnings.push(Warning::Root(error));
                assert(warnings@ =~= seq![Warning::Root(error)]);
            },
        }
        warnings
    }

    /// Add what a directory entry is good for
    pub fn add_dir<E>(&mut self, entry: Result<DirEntry<E>, E>) -> (r: Result<(), E>)
        ensures
            final(self)@ == old(self)@.with(entry),
            r == match use_of(entry) {
                Use::Unknown(error) => Err::<(), E>(error),
                _ => Ok(()),
            },
    {
        let entry = match entry {
            Ok(entry) => entry,
            Err(error) => return Err(error),
        };

        if let Some(last_segment) = path::file_name(&entry.path) {
            if text::begins_with(&last_segment, "lib".as_bytes()) {
                let kind = match entry.metadata {
                    Ok(kind) => kind,
                    Err(error) => return Err(error),
                };
                match kind {
                    FileKind::Directory => {
                        // Lib dirs like /lib
                        self.lib_dirs.push(entry.path);
                    },
                    FileKind::Symlink => {
                        // Symlinks like /lib -> /usr/lib
                        let target = match entry.canonicalized {
                            Ok(target) => target,
                            Err(error) => return Err(error),
                        };
                        // Only use symlinks that link somewhere into /usr/
                        if path::starts_with(&target, "/usr/".as_bytes()) {
                            self.lib_symlinks.push((entry.path, target));
                        }
                    },
                    FileKind::Other => {},
                }
            } else if text::is_same(&last_segment, "nix".as_bytes()) {
                // Add /nix/store on systems with Nix
                self.lib_dirs.push(path::join(&entry.path, "store".as_bytes()));
            }
        }
        assert(self@ =~= old(self)@.with(Ok::<DirEntry<E>, E>(entry)));

        Ok(())
    }
}

/// Every symlink leads into `/usr/`, whatever is in the root directory.
pub proof fn symlinks_lead_into_usr<E>(entries: Seq<Result<DirEntry<E>, E>>, i: int)
    requires
        0 <= i < (Libraries { symlinks: seq![], dirs: seq![] }).with_all(entries).symlinks.len(),
    ensures
        path::is_within(
            (Libraries { symlinks: seq![], dirs: seq![] }).with_all(entries).symlinks[i].1,
            text::utf8("/usr/"),
        ),
        is_library(
            (Libraries { symlinks: seq![], dirs: seq![] }).with_all(entries).symlinks[i].0,
        ),
    decreases entries.len(),
{
    let none = Libraries { symlinks: seq![], dirs: seq![] };
    if entries.len() > 0 {
        let before = none.with_all(entries.drop_last());
        if i < before.symlinks.len() {
            symlinks_lead_into_usr(entries.drop_last(), i);
        }
    }
}

/// Every mounted directory has a name that begins with `lib`, or is the
/// directory `store` in an entry that is named `nix`.
pub proof fn only_libraries_and_nix_are_mounted<E>(entries: Seq<Result<DirEntry<E>, E>>, i: int)
    requires
        0 <= i < (Libraries { symlinks: seq![], dirs: seq![] }).with_all(entries).dirs.len(),
    ensures
        ({
            let dir = (Libraries { symlinks: seq![], dirs: seq![] }).with_all(entries).dirs[i];
            is_library(dir) || exists|nix: Seq<u8>| #[trigger]
                is_nix(nix) && dir == path::joined(nix, text::utf8("store"))
        }),
    decreases entries.len(),
{
    let none = Libraries { symlinks: seq![], dirs: seq![] };
    if entries.len() > 0 {
        let before = none.with_all(entries.drop_last());
        if i < before.dirs.len() {
            only_libraries_and_nix_are_mounted(entries.drop_last(), i);
        }
    }
}

/// The lists in a setup are those of its paths, in their order.
pub proof fn setup_lists_are_in_order(system: SystemSetup)
    ensures
        system@.symlinks.len() == system.lib_symlinks@.len(),
        system@.dirs.len() == system.lib_dirs@.len(),
        forall|i: int|
            0 <= i < system@.symlinks.len() ==> #[trigger] system@.symlinks[i] == (
                system.lib_symlinks@[i].0@,
                system.lib_symlinks@[i].1@,
            ),
        forall|i: int|
            0 <= i < system@.dirs.len() ==> #[trigger] system@.dirs[i] == system.lib_dirs@[i]@,
{
}

/// Entries are added one after the other, and none changes what was added for
/// those before it.
pub proof fn entries_are_added_in_order<E>(
    libraries: Libraries,
    entries: Seq<Result<DirEntry<E>, E>>,
    entry: Result<DirEntry<E>, E>,
)
    ensures
        libraries.with_all(Seq::<Result<DirEntry<E>, E>>::empty()) == libraries,
        libraries.with_all(entries.push(entry)) == libraries.with_all(entries).with(entry),
        libraries.dirs.is_prefix_of(libraries.with(entry).dirs),
        libraries.symlinks.is_prefix_of(libraries.with(entry).symlinks),
{
    assert(entries.push(entry).drop_last() =~= entries);
    let more = libraries.with(entry);
    assert(libraries.dirs =~= more.dirs.subrange(0, libraries.dirs.len() as int));
    assert(libraries.symlinks =~= more.symlinks.subrange(0, libraries.symlinks.len() as int));
}

/// A directory whose name begins with `lib` is mounted, a symlink of such a name
/// is made anew if it leads into `/usr/`, and anything else of such a name is left
/// out.
pub proof fn library_is_added<E>(libraries: Libraries, entry: DirEntry<E>, name: Seq<u8>)
    requires
        path::last_name(entry.path@) == Some(name),
        text::utf8("lib").is_prefix_of(name),
    ensures
        ({
            let more = libraries.with(Ok::<DirEntry<E>, E>(entry));
            match entry.metadata {
                Ok(FileKind::Directory) => {
                    &&& more.dirs == libraries.dirs.push(entry.path@)
                    &&& more.symlinks == libraries.symlinks
                },
                Ok(FileKind::Symlink) => {
                    &&& more.dirs == libraries.dirs
                    &&& more.symlinks == match entry.canonicalized {
                        Ok(target) => if path::is_within(target@, text::utf8("/usr/")) {
                            libraries.symlinks.push((entry.path@, target@))
                        } else {
                            libraries.symlinks
                        },
                        Err(_) => libraries.symlinks,
                    }
                },
                _ => more == libraries,
            }
        }),
{
}

/// Of an entry whose name does not begin with `lib` the directory `store` is
/// mounted if it is named `nix`, and nothing is added otherwise.
pub proof fn only_store_is_added_of_others<E>(libraries: Libraries, entry: DirEntry<E>)
    requires
        path::last_name(entry.path@) matches Some(name) ==> !text::utf8("lib").is_prefix_of(name),
    ensures
        ({
            let more = libraries.with(Ok::<DirEntry<E>, E>(entry));
            &&& more.symlinks == libraries.symlinks
            &&& more.dirs == if path::last_name(entry.path@) == Some(text::utf8("nix")) {
                libraries.dirs.push(path::joined(entry.path@, text::utf8("store")))
            } else {
                libraries.dirs
            }
        }),
{
}

/// There is a warning about each entry that could not be read, or that has a name
/// that begins with `lib` and a kind, or for a symlink a target, that could not be
/// looked up. There is none about other entries.
pub proof fn failed_entries_are_warned_about<E>(
    libraries: Libraries,
    entries: Seq<Result<DirEntry<E>, E>>,
    entry: Result<DirEntry<E>, E>,
)
    ensures
        entry_warnings(Seq::<Result<DirEntry<E>, E>>::empty()) == Seq::<Warning<E>>::empty(),
        entry is Err ==> libraries.with(entry) == libraries,
        ({
            let before = entry_warnings(entries);
            entry_warnings(entries.push(entry)) == match entry {
                Err(error) => before.push(Warning::Entry(error)),
                Ok(found) => match path::last_name(found.path@) {
                    Some(name) => if text::utf8("lib").is_prefix_of(name) {
                        match found.metadata {
                            Err(error) => before.push(Warning::Entry(error)),
                            Ok(FileKind::Symlink) => match found.canonicalized {
                                Err(error) => before.push(Warning::Entry(error)),
                                Ok(_) => before,
                            },
                            _ => before,
                        }
                    } else {
                        before
                    },
                    None => before,
                },
            }
        }),
{
    assert(entries.push(entry).drop_last() =~= entries);
}

/// Every directory of the root directory with a name that begins with `lib` is
/// mounted, wherever it is listed: at the returned place.
pub proof fn every_library_directory_is_mounted<E>(
    libraries: Libraries,
    entries: Seq<Result<DirEntry<E>, E>>,
    i: int,
) -> (j: int)
    requires
        0 <= i < entries.len(),
        entries[i] matches Ok(entry) && entry.metadata == Ok::<FileKind, E>(FileKind::Directory) && (
        path::last_name(entry.path@) matches Some(name) && text::utf8("lib").is_prefix_of(name)),
    ensures
        0 <= j < libraries.with_all(entries).dirs.len(),
        entries[i] matches Ok(entry) && libraries.with_all(entries).dirs[j] == entry.path@,
    decreases entries.len(),
{
    let before = entries.drop_last();
    if i == entries.len() - 1 {
        libraries.with_all(before).dirs.len() as int
    } else {
        assert(before[i] == entries[i]);
        every_library_directory_is_mounted(libraries, before, i)
    }
}

/// Every symlink in the root directory with a name that begins with `lib` and a
/// target in `/usr/` is made anew, wherever it is listed: at the returned place.
pub proof fn every_library_link_is_made<E>(
    libraries: Libraries,
    entries: Seq<Result<DirEntry<E>, E>>,
    i: int,
) -> (j: int)
    requires
        0 <= i < entries.len(),
        entries[i] matches Ok(entry) && entry.metadata == Ok::<FileKind, E>(FileKind::Symlink) && (
        entry.canonicalized matches Ok(target) && path::is_within(target@, text::utf8("/usr/"))) && (
        path::last_name(entry.path@) matches Some(name) && text::utf8("lib").is_prefix_of(name)),
    ensures
        0 <= j < libraries.with_all(entries).symlinks.len(),
        entries[i] matches Ok(entry) && entry.canonicalized matches Ok(target)
            && libraries.with_all(entries).symlinks[j] == (entry.path@, target@),
    decreases entries.len(),
{
    let before = entries.drop_last();
    if i == entries.len() - 1 {
        libraries.with_all(before).symlinks.len() as int
    } else {
        assert(before[i] == entries[i]);
        every_library_link_is_made(libraries, before, i)
    }
}

} // verus!
