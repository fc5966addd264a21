use vstd::prelude::*;

use crate::file_type::FileType;

verus! {

/// The answers that a platform type descriptor gives to its type predicates,
/// one per recognized kind of entry, as read from filesystem metadata.
#[derive(Debug, Clone, Copy, PartialEq, Eq, Structural)]
pub struct TypeFlags {
    /// The entry is a regular file.
    pub is_file: bool,
    /// The entry is a directory.
    pub is_dir: bool,
    /// The entry is a symbolic link.
    pub is_symlink: bool,
    /// The entry is a block device.
    pub is_block_device: bool,
    /// The entry is a character device.
    pub is_char_device: bool,
    /// The entry is a named pipe.
    pub is_fifo: bool,
    /// The entry is a socket.
    pub is_socket: bool,
}

impl TypeFlags {
    /// Whether the predicate that belongs to tag `t` holds.
    pub open spec fn reports(self, t: FileType) -> bool {
        match t {
            FileType::Regular => self.is_file,
            FileType::Directory => self.is_dir,
            FileType::Symlink => self.is_symlink,
            FileType::BlockDevice => self.is_block_device,
            FileType::CharDevice => self.is_char_device,
            FileType::Fifo => self.is_fifo,
            FileType::Socket => self.is_socket,
        }
    }

    /// At least one predicate holds: the descriptor names a known kind.
    pub open spec fn recognized(self) -> bool {
        self.is_file || self.is_dir || self.is_symlink || self.is_block_device
            || self.is_char_device || self.is_fifo || self.is_socket
    }

    /// The predicate of `t` holds and no other does, as a platform reports an
    /// entry of type `t`.
    pub open spec fn describes(self, t: FileType) -> bool {
        forall|u: FileType| #[trigger] self.reports(u) <==> u == t
    }

    /// The tag chosen for the descriptor: the first predicate that holds, in
    /// declaration order of the tags.
    pub open spec fn classify(self) -> FileType
        recommends
            self.recognized(),
    {
        if self.is_file {
            FileType::Regular
        } else if self.is_dir {
            FileType::Directory
        } else if self.is_symlink {
            FileType::Symlink
        } else if self.is_block_device {
            FileType::BlockDevice
        } else if self.is_char_device {
            FileType::CharDevice
        } else if self.is_fifo {
            FileType::Fifo
        } else {
            FileType::Socket
        }
    }
}

impl FileType {
    /// Classifies a type descriptor that was already obtained from the
    /// filesystem: the first of its predicates that holds, in tag order.
    ///
    /// A descriptor on which no predicate holds breaks the platform's contract
    /// and is not accepted.
    pub fn from_flags(flags: TypeFlags) -> (r: FileType)
        requires
            flags.recognized(),
        ensures
            r == flags.classify(),
            flags.reports(r),
            forall|u: FileType| u.rank() < r.rank() ==> !#[trigger] flags.reports(u),
            !flags.is_symlink ==> r != FileType::Symlink,
    {
        if flags.is_file {
            FileType::Regular
        } else if flags.is_dir {
            FileType::Directory
        } else if flags.is_symlink {
            FileType::Symlink
        } else if flags.is_block_device {
            FileType::BlockDevice
        } else if flags.is_char_device {
            FileType::CharDevice
        } else if flags.is_fifo {
            FileType::Fifo
        } else {
            FileType::Socket
        }
    }
}

} // verus!
