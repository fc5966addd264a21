//! A closed enumeration of filesystem entry types, with the mapping from a
//! platform type descriptor to it and the POSIX mode-bit encoding of each tag.

mod descriptor;
mod file_type;
mod laws;
mod mode_bits;

pub use descriptor::TypeFlags;
pub use file_type::FileType;
pub use mode_bits::is_type_bits;
pub use laws::{
    lemma_bits_tag_round_trip, lemma_classify_consistent, lemma_classify_describes,
    lemma_followed_never_symlink, lemma_order_total, lemma_tag_bits_round_trip,
    lemma_text_nonempty,
};
