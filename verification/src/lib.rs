//! Zero-copy, contract-checked views of the on-disk superblock record of an
//! ext2-style filesystem image.
//!
//! The superblock is the fixed-layout metadata record at a known place in a
//! disk image; every higher layer of a filesystem driver needs a validated,
//! typed view of it before it can do anything else. This crate turns a raw
//! byte region into such a view without copying: [`parse::Superblock`] reads
//! the record's fields through a borrowed byte region, and the `set_`
//! functions of [`parse`] write them in place through an exclusive borrow of
//! the same region. The borrow checker enforces the exclusivity discipline
//! (any number of immutable views, or exactly one mutable view, never both),
//! and every accessor carries a contract that pins its result down to the
//! little-endian field layout given in [`schema`].

pub mod parse;
pub mod schema;
