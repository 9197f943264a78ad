//! Identity words: type aliases, bit masks and the functions that read
//! and write the fields of a word.

pub mod type_alias;
pub mod util;
pub mod util_const;
