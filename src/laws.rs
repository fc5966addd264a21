use vstd::prelude::*;

use core::cmp::Ordering;
use vstd::std_specs::cmp::PartialOrdSpec;
use libc::mode_t;

use crate::descriptor::TypeFlags;
use crate::file_type::FileType;
use crate::mode_bits::is_type_bits;

verus! {

/// A descriptor that reports an entry of type `t`, and only that type, is
/// classified as `t`. A lookup that follows links reports the type of the
/// final target; one that preserves links reports a link as a link.
pub proof fn lemma_classify_describes(flags: TypeFlags, t: FileType)
    requires
        flags.describes(t),
    ensures
        flags.recognized(),
        flags.classify() == t,
{
    assert(flags.reports(t));
    assert(flags.reports(flags.classify()) ==> flags.classify() == t);
}

/// A descriptor whose link predicate does not hold, as every descriptor from a
/// lookup that follows links, is never classified as a link.
pub proof fn lemma_followed_never_symlink(flags: TypeFlags)
    requires
        flags.recognized(),
        !flags.is_symlink,
    ensures
        flags.classify() != FileType::Symlink,
{
}

/// Classifying the same descriptor twice gives the same tag, and the two
/// results compare equal in the order of the type.
pub proof fn lemma_classify_consistent(a: TypeFlags, b: TypeFlags)
    requires
        a == b,
    ensures
        a.classify() == b.classify(),
        a.classify().partial_cmp_spec(&b.classify()) == Some(Ordering::Equal),
{
}

/// The order of the type is total and agrees with equality.
pub proof fn lemma_order_total(a: FileType, b: FileType)
    ensures
        a.partial_cmp_spec(&b) is Some,
        a.partial_cmp_spec(&b) == Some(Ordering::Equal) <==> a == b,
        a.partial_cmp_spec(&b) == Some(Ordering::Less) <==> b.partial_cmp_spec(&a) == Some(
            Ordering::Greater,
        ),
{
}

/// Every tag's mode constant is one of the recognized constants, and the only
/// tag with that constant is the tag itself: converting a tag to its constant
/// and back gives the tag.
pub proof fn lemma_tag_bits_round_trip(t: FileType, back: FileType)
    requires
        back.mode_bits() == t.mode_bits(),
    ensures
        is_type_bits(t.mode_bits()),
        back == t,
{
}

/// Every recognized mode constant belongs to exactly one tag, whose constant
/// is the value itself: converting a constant to its tag and back gives the
/// constant.
pub proof fn lemma_bits_tag_round_trip(bits: mode_t)
    requires
        is_type_bits(bits),
    ensures
        exists|t: FileType| #[trigger] t.mode_bits() == bits,
        forall|t: FileType, u: FileType|
            t.mode_bits() == bits && u.mode_bits() == bits ==> t == u,
{
}

/// Every tag renders as a non-empty phrase, and distinct tags render
/// differently.
pub proof fn lemma_text_nonempty(t: FileType, u: FileType)
    ensures
        t.text().len() > 0,
        t != u ==> t.text() != u.text(),
{
    reveal_strlit("regular file");
    reveal_strlit("directory");
    reveal_strlit("symbolic link");
    reveal_strlit("block device");
    reveal_strlit("char device");
    reveal_strlit("FIFO");
    reveal_strlit("socket");
    if t != u {
        assert(t.text().len() != u.text().len() || t.text()[0] != u.text()[0] || t.text()[1]
            != u.text()[1]);
    }
}

} // verus!
