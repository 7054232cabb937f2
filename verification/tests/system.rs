use glycin::system::{DirEntry, FileKind, SystemSetup, Warning};

fn entry(path: &str, kind: FileKind, target: &str) -> Result<DirEntry<u8>, u8> {
    Ok(DirEntry {
        path: path.as_bytes().to_vec(),
        metadata: Ok(kind),
        canonicalized: Ok(target.as_bytes().to_vec()),
    })
}

fn bytes(path: &str) -> Vec<u8> {
    path.as_bytes().to_vec()
}

#[test]
fn libraries_are_found() {
    let (system, warnings) = SystemSetup::new(Ok(vec![
        entry("/lib", FileKind::Symlink, "/usr/lib"),
        entry("/lib64", FileKind::Directory, "/lib64"),
        entry("/libx32", FileKind::Symlink, "/opt/libx32"),
        entry("/libfile", FileKind::Other, "/libfile"),
        entry("/home", FileKind::Directory, "/home"),
        entry("/nix", FileKind::Directory, "/nix"),
        entry("/usr", FileKind::Directory, "/usr"),
        entry("/mylib", FileKind::Directory, "/mylib"),
    ]));
    assert!(warnings.is_empty());
    assert_eq!(system.lib_symlinks, [(bytes("/lib"), bytes("/usr/lib"))]);
    assert_eq!(system.lib_dirs, [bytes("/lib64"), bytes("/nix/store")]);
}

#[test]
fn entries_that_cannot_be_accessed() {
    let (system, warnings) = SystemSetup::new(Ok(vec![
        Err(1),
        Ok(DirEntry {
            path: bytes("/lib"),
            metadata: Err(2),
            canonicalized: Err(3),
        }),
        Ok(DirEntry {
            path: bytes("/lib32"),
            metadata: Ok(FileKind::Symlink),
            canonicalized: Err(4),
        }),
        Ok(DirEntry {
            path: bytes("/home"),
            metadata: Err(5),
            canonicalized: Err(6),
        }),
        Ok(DirEntry {
            path: bytes("/lib64"),
            metadata: Ok(FileKind::Directory),
            canonicalized: Err(7),
        }),
    ]));
    assert!(matches!(
        warnings[..],
        [Warning::Entry(1), Warning::Entry(2), Warning::Entry(4)]
    ));
    assert!(system.lib_symlinks.is_empty());
    assert_eq!(system.lib_dirs, [bytes("/lib64")]);
}

#[test]
fn root_that_cannot_be_listed() {
    let (system, warnings) = SystemSetup::new(Err(8));
    assert!(matches!(warnings[..], [Warning::Root(8)]));
    assert!(system.lib_symlinks.is_empty());
    assert!(system.lib_dirs.is_empty());
}

#[test]
fn links_out_of_usr_are_not_used() {
    let mut system = SystemSetup::new::<u8>(Ok(vec![])).0;
    for target in ["/usrlib", "/", "/opt/usr", "/etc"] {
        assert_eq!(system.add_dir(entry("/lib", FileKind::Symlink, target)), Ok(()));
    }
    assert!(system.lib_symlinks.is_empty());
    assert_eq!(system.add_dir(Err(9)), Err(9));
}
