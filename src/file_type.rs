use vstd::prelude::*;

verus! {

/// The type of a filesystem entry: exactly one tag per entry.
///
/// `BlockDevice`, `CharDevice`, `Fifo` and `Socket` exist where the platform's
/// filesystem has those kinds of entries; elsewhere they are never produced.
#[derive(Debug, Clone, Copy, PartialEq, Eq, Structural, Hash, Ord)]
pub enum FileType {
    /// A regular file.
    Regular,
    /// A directory, folder of files.
    Directory,
    /// A symbolic link, points to another path.
    Symlink,
    /// A block device.
    BlockDevice,
    /// A character device.
    CharDevice,
    /// A named pipe.
    Fifo,
    /// A socket.
    Socket,
}

impl FileType {
    /// Position of the tag in declaration order, which is the order of the type.
    pub open spec fn rank(self) -> nat {
        match self {
            FileType::Regular => 0,
            FileType::Directory => 1,
            FileType::Symlink => 2,
            FileType::BlockDevice => 3,
            FileType::CharDevice => 4,
            FileType::Fifo => 5,
            FileType::Socket => 6,
        }
    }

    /// The rank of the tag, computed.
    fn index(&self) -> (r: u8)
        ensures
            r as nat == self.rank(),
    {
        match self {
            FileType::Regular => 0,
            FileType::Directory => 1,
            FileType::Symlink => 2,
            FileType::BlockDevice => 3,
            FileType::CharDevice => 4,
            FileType::Fifo => 5,
            FileType::Socket => 6,
        }
    }

    /// Returns true if is a [`FileType::Regular`].
    pub fn is_regular(&self) -> (r: bool)
        ensures
            r == (*self == FileType::Regular),
    {
        matches!(self, FileType::Regular)
    }

    /// Returns true if is a [`FileType::Directory`].
    pub fn is_directory(&self) -> (r: bool)
        ensures
            r == (*self == FileType::Directory),
    {
        matches!(self, FileType::Directory)
    }

    /// Returns true if is a [`FileType::Symlink`].
    pub fn is_symlink(&self) -> (r: bool)
        ensures
            r == (*self == FileType::Symlink),
    {
        matches!(self, FileType::Symlink)
    }

    /// Returns true if is a [`FileType::BlockDevice`].
    pub fn is_block_device(&self) -> (r: bool)
        ensures
            r == (*self == FileType::BlockDevice),
    {
        matches!(self, FileType::BlockDevice)
    }

    /// Returns true if is a [`FileType::CharDevice`].
    pub fn is_char_device(&self) -> (r: bool)
        ensures
            r == (*self == FileType::CharDevice),
    {
        matches!(self, FileType::CharDevice)
    }

    /// Returns true if is a [`FileType::Fifo`].
    pub fn is_fifo(&self) -> (r: bool)
        ensures
            r == (*self == FileType::Fifo),
    {
        matches!(self, FileType::Fifo)
    }

    /// Returns true if is a [`FileType::Socket`].
    pub fn is_socket(&self) -> (r: bool)
        ensures
            r == (*self == FileType::Socket),
    {
        matches!(self, FileType::Socket)
    }

    /// The fixed human-readable phrase of the tag.
    pub open spec fn text(self) -> Seq<char> {
        match self {
            FileType::Regular => "regular file"@,
            FileType::Directory => "directory"@,
            FileType::Symlink => "symbolic link"@,
            FileType::BlockDevice => "block device"@,
            FileType::CharDevice => "char device"@,
            FileType::Fifo => "FIFO"@,
            FileType::Socket => "socket"@,
        }
    }

    /// Renders the tag as its fixed human-readable phrase, such as
    /// "regular file" or "FIFO".
    pub fn as_str(&self) -> (r: &'static str)
        ensures
            r@ == self.text(),
    {
        match self {
            FileType::Regular => "regular file",
            FileType::Directory => "directory",
            FileType::Symlink => "symbolic link",
            FileType::BlockDevice => "block device",
            FileType::CharDevice => "char device",
            FileType::Fifo => "FIFO",
            FileType::Socket => "socket",
        }
    }
}

/// Orders tags by declaration order, as the derived `Ord` does.
impl PartialOrd for FileType {
    fn partial_cmp(&self, other: &FileType) -> (r: Option<core::cmp::Ordering>) {
        let a = self.index();
        let b = other.index();
        if a < b {
            Some(core::cmp::Ordering::Less)
        } else if a == b {
            Some(core::cmp::Ordering::Equal)
        } else {
            Some(core::cmp::Ordering::Greater)
        }
    }
}

impl vstd::std_specs::cmp::PartialOrdSpecImpl for FileType {
    open spec fn obeys_partial_cmp_spec() -> bool {
        true
    }

    open spec fn partial_cmp_spec(&self, other: &FileType) -> Option<core::cmp::Ordering> {
        if self.rank() < other.rank() {
            Some(core::cmp::Ordering::Less)
        } else if self.rank() == other.rank() {
            Some(core::cmp::Ordering::Equal)
        } else {
            Some(core::cmp::Ordering::Greater)
        }
    }
}

} // verus!
