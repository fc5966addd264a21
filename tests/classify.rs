use std::collections::hash_map::DefaultHasher;
use std::hash::{Hash, Hasher};

use file_type_enum::{FileType, TypeFlags};

const NONE: TypeFlags = TypeFlags {
    is_file: false,
    is_dir: false,
    is_symlink: false,
    is_block_device: false,
    is_char_device: false,
    is_fifo: false,
    is_socket: false,
};

const ALL_TAGS: [FileType; 7] = [
    FileType::Regular,
    FileType::Directory,
    FileType::Symlink,
    FileType::BlockDevice,
    FileType::CharDevice,
    FileType::Fifo,
    FileType::Socket,
];

/// The descriptor a platform reports for an entry of type `t`.
fn flags_for(t: FileType) -> TypeFlags {
    TypeFlags {
        is_file: t == FileType::Regular,
        is_dir: t == FileType::Directory,
        is_symlink: t == FileType::Symlink,
        is_block_device: t == FileType::BlockDevice,
        is_char_device: t == FileType::CharDevice,
        is_fifo: t == FileType::Fifo,
        is_socket: t == FileType::Socket,
    }
}

fn hash_of(t: FileType) -> u64 {
    let mut h = DefaultHasher::new();
    t.hash(&mut h);
    h.finish()
}

fn predicates(t: FileType) -> [bool; 7] {
    [
        t.is_regular(),
        t.is_directory(),
        t.is_symlink(),
        t.is_block_device(),
        t.is_char_device(),
        t.is_fifo(),
        t.is_socket(),
    ]
}

// The descriptor that the platform reports for `src/lib.rs`, a plain file.
#[test]
fn test_with_this_repository_structured() {
    let this_file = FileType::from_flags(TypeFlags { is_file: true, ..NONE });
    assert!(this_file.is_regular());
}

// The descriptors that the platform reports for `src/` and `src/lib.rs`.
#[test]
fn test_mode_t_conversion() {
    let dir = FileType::from_flags(TypeFlags { is_dir: true, ..NONE });
    let file = FileType::from_flags(TypeFlags { is_file: true, ..NONE });
    assert_eq!(libc::S_IFDIR, dir.bits());
    assert_eq!(libc::S_IFREG, file.bits());
}

#[test]
fn every_exact_descriptor_gives_its_tag() {
    for t in ALL_TAGS {
        assert_eq!(FileType::from_flags(flags_for(t)), t);
    }
}

#[test]
fn followed_link_gives_target_type() {
    // A lookup that follows a link to a plain file reports the file.
    let followed = FileType::from_flags(flags_for(FileType::Regular));
    assert_eq!(followed, FileType::Regular);
    assert_ne!(followed, FileType::Symlink);
    // A lookup that preserves the link reports the link itself.
    let preserved = FileType::from_flags(flags_for(FileType::Symlink));
    assert_eq!(preserved, FileType::Symlink);
    assert_eq!(preserved.as_str(), "symbolic link");
    assert_eq!(followed.as_str(), "regular file");
}

#[test]
fn first_predicate_in_tag_order_wins() {
    let both = TypeFlags { is_dir: true, is_fifo: true, ..NONE };
    assert_eq!(FileType::from_flags(both), FileType::Directory);
    let link_and_socket = TypeFlags { is_symlink: true, is_socket: true, ..NONE };
    assert_eq!(FileType::from_flags(link_and_socket), FileType::Symlink);
    let devices = TypeFlags { is_block_device: true, is_char_device: true, ..NONE };
    assert_eq!(FileType::from_flags(devices), FileType::BlockDevice);
    let char_and_fifo = TypeFlags { is_char_device: true, is_fifo: true, ..NONE };
    assert_eq!(FileType::from_flags(char_and_fifo), FileType::CharDevice);
}

#[test]
fn same_descriptor_classifies_equal_and_hashes_equal() {
    for t in ALL_TAGS {
        let a = FileType::from_flags(flags_for(t));
        let b = FileType::from_flags(flags_for(t));
        assert_eq!(a, b);
        assert_eq!(a.cmp(&b), std::cmp::Ordering::Equal);
        assert_eq!(hash_of(a), hash_of(b));
    }
}

#[test]
fn plain_file_scenario() {
    let t = FileType::from_flags(TypeFlags { is_file: true, ..NONE });
    assert_eq!(t, FileType::Regular);
    assert_eq!(predicates(t), [true, false, false, false, false, false, false]);
    assert_eq!(t.as_str(), "regular file");
}

#[test]
fn directory_scenario() {
    let t = FileType::from_flags(TypeFlags { is_dir: true, ..NONE });
    assert_eq!(t, FileType::Directory);
    assert_eq!(predicates(t), [false, true, false, false, false, false, false]);
    assert_eq!(t.as_str(), "directory");
}

#[test]
fn fifo_scenario() {
    let t = FileType::from_flags(TypeFlags { is_fifo: true, ..NONE });
    assert_eq!(t, FileType::Fifo);
    assert_eq!(predicates(t), [false, false, false, false, false, true, false]);
    assert_eq!(t.as_str(), "FIFO");
    assert_eq!(t.bits(), libc::S_IFIFO);
    assert_eq!(FileType::from_bits(t.bits()), FileType::Fifo);
}

#[test]
fn each_predicate_matches_only_its_tag() {
    for (i, t) in ALL_TAGS.iter().enumerate() {
        let p = predicates(*t);
        for (j, v) in p.iter().enumerate() {
            assert_eq!(*v, i == j);
        }
    }
}

#[test]
fn rendering_is_fixed_and_non_empty() {
    let expected = [
        "regular file",
        "directory",
        "symbolic link",
        "block device",
        "char device",
        "FIFO",
        "socket",
    ];
    for (t, text) in ALL_TAGS.iter().zip(expected) {
        assert_eq!(t.as_str(), text);
        assert!(!t.as_str().is_empty());
        assert_eq!(t.as_str(), t.as_str());
    }
}

#[test]
fn mode_bits_match_platform_constants() {
    assert_eq!(FileType::Regular.bits(), libc::S_IFREG);
    assert_eq!(FileType::Directory.bits(), libc::S_IFDIR);
    assert_eq!(FileType::Symlink.bits(), libc::S_IFLNK);
    assert_eq!(FileType::BlockDevice.bits(), libc::S_IFBLK);
    assert_eq!(FileType::CharDevice.bits(), libc::S_IFCHR);
    assert_eq!(FileType::Fifo.bits(), libc::S_IFIFO);
    assert_eq!(FileType::Socket.bits(), libc::S_IFSOCK);
    assert_eq!(FileType::Symlink.bits(), 0o120000);
    assert_eq!(FileType::CharDevice.bits(), 0o020000);
}

#[test]
fn mode_bits_round_trip() {
    for t in ALL_TAGS {
        assert_eq!(FileType::from_bits(t.bits()), t);
    }
    let constants = [
        libc::S_IFREG,
        libc::S_IFDIR,
        libc::S_IFLNK,
        libc::S_IFBLK,
        libc::S_IFCHR,
        libc::S_IFIFO,
        libc::S_IFSOCK,
    ];
    for c in constants {
        assert_eq!(FileType::from_bits(c).bits(), c);
    }
    assert_eq!(FileType::from_bits(libc::S_IFLNK), FileType::Symlink);
    assert_eq!(FileType::from_bits(libc::S_IFCHR), FileType::CharDevice);
}

#[test]
fn mode_t_from_tag() {
    let m: libc::mode_t = FileType::Socket.into();
    assert_eq!(m, libc::S_IFSOCK);
    let m: libc::mode_t = libc::mode_t::from(FileType::Directory);
    assert_eq!(m, libc::S_IFDIR);
}

#[test]
fn order_follows_declaration() {
    for (i, a) in ALL_TAGS.iter().enumerate() {
        for (j, b) in ALL_TAGS.iter().enumerate() {
            assert_eq!(a.cmp(b), i.cmp(&j));
            assert_eq!(a.partial_cmp(b), Some(i.cmp(&j)));
        }
    }
    let mut v = vec![FileType::Socket, FileType::Regular, FileType::Fifo, FileType::Directory];
    v.sort();
    assert_eq!(
        v,
        vec![FileType::Regular, FileType::Directory, FileType::Fifo, FileType::Socket]
    );
}
