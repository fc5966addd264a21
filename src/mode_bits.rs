use vstd::prelude::*;

use libc::mode_t;

use crate::file_type::FileType;

verus! {

/// Relies on libc::S_IFREG: the file-type field of a regular file.
#[verifier::external_body]
fn s_ifreg() -> (r: mode_t)
    ensures
        r == 0o100000,
{
    libc::S_IFREG
}

/// Relies on libc::S_IFDIR: the file-type field of a directory.
#[verifier::external_body]
fn s_ifdir() -> (r: mode_t)
    ensures
        r == 0o040000,
{
    libc::S_IFDIR
}

/// Relies on libc::S_IFLNK: the file-type field of a symbolic link.
#[verifier::external_body]
fn s_iflnk() -> (r: mode_t)
    ensures
        r == 0o120000,
{
    libc::S_IFLNK
}

/// Relies on libc::S_IFBLK: the file-type field of a block device.
#[verifier::external_body]
fn s_ifblk() -> (r: mode_t)
    ensures
        r == 0o060000,
{
    libc::S_IFBLK
}

/// Relies on libc::S_IFCHR: the file-type field of a character device.
#[verifier::external_body]
fn s_ifchr() -> (r: mode_t)
    ensures
        r == 0o020000,
{
    libc::S_IFCHR
}

/// Relies on libc::S_IFIFO: the file-type field of a named pipe.
#[verifier::external_body]
fn s_ififo() -> (r: mode_t)
    ensures
        r == 0o010000,
{
    libc::S_IFIFO
}

/// Relies on libc::S_IFSOCK: the file-type field of a socket.
#[verifier::external_body]
fn s_ifsock() -> (r: mode_t)
    ensures
        r == 0o140000,
{
    libc::S_IFSOCK
}

/// Whether `bits` is one of the seven file-type constants of a mode value.
pub open spec fn is_type_bits(bits: mode_t) -> bool {
    ||| bits == FileType::Regular.mode_bits()
    ||| bits == FileType::Directory.mode_bits()
    ||| bits == FileType::Symlink.mode_bits()
    ||| bits == FileType::BlockDevice.mode_bits()
    ||| bits == FileType::CharDevice.mode_bits()
    ||| bits == FileType::Fifo.mode_bits()
    ||| bits == FileType::Socket.mode_bits()
}

impl FileType {
    /// The POSIX file-type constant of the tag, as `stat` reports it in the
    /// type field of a mode value.
    pub open spec fn mode_bits(self) -> mode_t {
        match self {
            FileType::Regular => 0o100000,
            FileType::Directory => 0o040000,
            FileType::Symlink => 0o120000,
            FileType::BlockDevice => 0o060000,
            FileType::CharDevice => 0o020000,
            FileType::Fifo => 0o010000,
            FileType::Socket => 0o140000,
        }
    }

    /// Converts the tag into its POSIX file-type constant.
    pub fn bits(&self) -> (r: mode_t)
        ensures
            r == self.mode_bits(),
    {
        match self {
            FileType::Regular => s_ifreg(),
            FileType::Directory => s_ifdir(),
            FileType::Symlink => s_iflnk(),
            FileType::BlockDevice => s_ifblk(),
            FileType::CharDevice => s_ifchr(),
            FileType::Fifo => s_ififo(),
            FileType::Socket => s_ifsock(),
        }
    }

    /// Converts a POSIX file-type constant into its tag.
    ///
    /// A value that is none of the seven constants names no tag and is not
    /// accepted.
    pub fn from_bits(bits: mode_t) -> (r: FileType)
        requires
            is_type_bits(bits),
        ensures
            r.mode_bits() == bits,
    {
        if bits == s_ifreg() {
            FileType::Regular
        } else if bits == s_ifdir() {
            FileType::Directory
        } else if bits == s_iflnk() {
            FileType::Symlink
        } else if bits == s_ifblk() {
            FileType::BlockDevice
        } else if bits == s_ifchr() {
            FileType::CharDevice
        } else if bits == s_ififo() {
            FileType::Fifo
        } else {
            FileType::Socket
        }
    }
}

impl From<FileType> for mode_t {
    fn from(ft: FileType) -> (r: mode_t) {
        ft.bits()
    }
}

impl vstd::std_specs::convert::FromSpecImpl<FileType> for mode_t {
    open spec fn obeys_from_spec() -> bool {
        true
    }

    open spec fn from_spec(ft: FileType) -> mode_t {
        ft.mode_bits()
    }
}

} // verus!
