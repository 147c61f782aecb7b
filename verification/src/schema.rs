//! On-disk layout of the superblock record: field offsets and widths, the
//! magic identity constant, and the little-endian encoding of the record's
//! integer fields.
//!
//! The superblock is a fixed-size, fixed-layout aggregate that sits at a known
//! place in an ext2-style filesystem image. This module pins down the byte
//! layout that the view types in [`crate::parse`] interpret: every multi-byte
//! field is a little-endian unsigned integer at a fixed offset.

use vstd::prelude::*;

verus! {

/// The magic identity constant: every genuine superblock holds this value in
/// its identity field.
pub const EXT2_MAGIC: u16 = 0xEF53;

/// Size in bytes of the superblock record as modelled here: the classic base
/// fields followed by the three feature-flag words.
pub const SUPERBLOCK_SIZE: usize = 104;

/// Offset of the total-inode count (`u32`).
pub const INODES_COUNT_OFFSET: usize = 0;

/// Offset of the total-block count (`u32`).
pub const BLOCKS_COUNT_OFFSET: usize = 4;

/// Offset of the reserved-block count (`u32`).
pub const R_BLOCKS_COUNT_OFFSET: usize = 8;

/// Offset of the free-block count (`u32`).
pub const FREE_BLOCKS_COUNT_OFFSET: usize = 12;

/// Offset of the free-inode count (`u32`).
pub const FREE_INODES_COUNT_OFFSET: usize = 16;

/// Offset of the first data block number (`u32`).
pub const FIRST_DATA_BLOCK_OFFSET: usize = 20;

/// Offset of the logarithmic block size (`u32`).
pub const LOG_BLOCK_SIZE_OFFSET: usize = 24;

/// Offset of the blocks-per-group count (`u32`).
pub const BLOCKS_PER_GROUP_OFFSET: usize = 32;

/// Offset of the inodes-per-group count (`u32`).
pub const INODES_PER_GROUP_OFFSET: usize = 40;

/// Offset of the mount count since the last check (`u16`).
pub const MNT_COUNT_OFFSET: usize = 52;

/// Offset of the maximal mount count before a check is due (`u16`).
pub const MAX_MNT_COUNT_OFFSET: usize = 54;

/// Offset of the magic identity field (`u16`).
pub const MAGIC_OFFSET: usize = 56;

/// Offset of the filesystem state word (`u16`).
pub const STATE_OFFSET: usize = 58;

/// Offset of the compatible-feature flags (`u32`).
pub const FEATURE_COMPAT_OFFSET: usize = 92;

/// Offset of the incompatible-feature flags (`u32`).
pub const FEATURE_INCOMPAT_OFFSET: usize = 96;

/// Offset of the read-only-compatible-feature flags (`u32`).
pub const FEATURE_RO_COMPAT_OFFSET: usize = 100;

/// The `u16` encoded little-endian at offset `off` of `b`.
pub open spec fn le16_at(b: Seq<u8>, off: int) -> u16
    recommends
        0 <= off,
        off + 2 <= b.len(),
{
    (b[off] as u16) | ((b[off + 1] as u16) << 8)
}

/// The `u32` encoded little-endian at offset `off` of `b`.
pub open spec fn le32_at(b: Seq<u8>, off: int) -> u32
    recommends
        0 <= off,
        off + 4 <= b.len(),
{
    (b[off] as u32) | ((b[off + 1] as u32) << 8) | ((b[off + 2] as u32) << 16) | ((b[off
        + 3] as u32) << 24)
}

/// `b` with the two bytes at offset `off` replaced by the little-endian
/// encoding of `v`.
pub open spec fn with_le16_at(b: Seq<u8>, off: int, v: u16) -> Seq<u8>
    recommends
        0 <= off,
        off + 2 <= b.len(),
{
    b.update(off, (v & 0xff) as u8).update(off + 1, ((v >> 8) & 0xff) as u8)
}

/// `b` with the four bytes at offset `off` replaced by the little-endian
/// encoding of `v`.
pub open spec fn with_le32_at(b: Seq<u8>, off: int, v: u32) -> Seq<u8>
    recommends
        0 <= off,
        off + 4 <= b.len(),
{
    b.update(off, (v & 0xff) as u8).update(off + 1, ((v >> 8) & 0xff) as u8).update(
        off + 2,
        ((v >> 16) & 0xff) as u8,
    ).update(off + 3, ((v >> 24) & 0xff) as u8)
}

/// The magic identity field of a byte region holding a superblock record.
pub open spec fn spec_magic(b: Seq<u8>) -> u16
    recommends
        b.len() >= SUPERBLOCK_SIZE,
{
    le16_at(b, MAGIC_OFFSET as int)
}

/// A byte region is a genuine superblock record when it is large enough to
/// hold one and its identity field equals the magic constant.
pub open spec fn is_superblock(b: Seq<u8>) -> bool {
    &&& b.len() >= SUPERBLOCK_SIZE
    &&& spec_magic(b) == EXT2_MAGIC
}

/// Reads the little-endian `u16` at offset `off` of `bytes`.
pub fn read_le_u16(bytes: &[u8], off: usize) -> (r: u16)
    requires
        off + 2 <= bytes@.len(),
    ensures
        r == le16_at(bytes@, off as int),
{
    let b0 = bytes[off];
    let b1 = bytes[off + 1];
    (b0 as u16) | ((b1 as u16) << 8)
}

/// Reads the little-endian `u32` at offset `off` of `bytes`.
pub fn read_le_u32(bytes: &[u8], off: usize) -> (r: u32)
    requires
        off + 4 <= bytes@.len(),
    ensures
        r == le32_at(bytes@, off as int),
{
    let b0 = bytes[off];
    let b1 = bytes[off + 1];
    let b2 = bytes[off + 2];
    let b3 = bytes[off + 3];
    (b0 as u32) | ((b1 as u32) << 8) | ((b2 as u32) << 16) | ((b3 as u32) << 24)
}

/// Writes `v` little-endian over the two bytes at offset `off` of `bytes`.
pub fn write_le_u16(bytes: &mut [u8], off: usize, v: u16)
    requires
        off + 2 <= old(bytes)@.len(),
    ensures
        final(bytes)@ == with_le16_at(old(bytes)@, off as int, v),
{
    proof {
        assert(v & 0xff < 256 && (v >> 8) & 0xff < 256) by (bit_vector);
    }
    bytes[off] = (v & 0xff) as u8;
    bytes[off + 1] = ((v >> 8) & 0xff) as u8;
}

/// Writes `v` little-endian over the four bytes at offset `off` of `bytes`.
pub fn write_le_u32(bytes: &mut [u8], off: usize, v: u32)
    requires
        off + 4 <= old(bytes)@.len(),
    ensures
        final(bytes)@ == with_le32_at(old(bytes)@, off as int, v),
{
    proof {
        assert(v & 0xff < 256 && (v >> 8) & 0xff < 256 && (v >> 16) & 0xff < 256 && (v >> 24)
            & 0xff < 256) by (bit_vector);
    }
    bytes[off] = (v & 0xff) as u8;
    bytes[off + 1] = ((v >> 8) & 0xff) as u8;
    bytes[off + 2] = ((v >> 16) & 0xff) as u8;
    bytes[off + 3] = ((v >> 24) & 0xff) as u8;
}

/// Decoding the two bytes that [`with_le16_at`] wrote yields the value
/// written, every other byte of the region is untouched, and its length is
/// kept.
pub proof fn lemma_le16_roundtrip(b: Seq<u8>, off: int, v: u16)
    requires
        0 <= off,
        off + 2 <= b.len(),
    ensures
        le16_at(with_le16_at(b, off, v), off) == v,
        with_le16_at(b, off, v).len() == b.len(),
        forall|i: int|
            0 <= i < b.len() && !(off <= i < off + 2) ==> with_le16_at(b, off, v)[i] == b[i],
{
    let w = with_le16_at(b, off, v);
    assert(w[off] == (v & 0xff) as u8);
    assert(w[off + 1] == ((v >> 8) & 0xff) as u8);
    assert(((v & 0xff) as u8 as u16) | (((v >> 8) & 0xff) as u8 as u16) << 8 == v)
        by (bit_vector);
}

/// Decoding the four bytes that [`with_le32_at`] wrote yields the value
/// written, every other byte of the region is untouched, and its length is
/// kept.
pub proof fn lemma_le32_roundtrip(b: Seq<u8>, off: int, v: u32)
    requires
        0 <= off,
        off + 4 <= b.len(),
    ensures
        le32_at(with_le32_at(b, off, v), off) == v,
        with_le32_at(b, off, v).len() == b.len(),
        forall|i: int|
            0 <= i < b.len() && !(off <= i < off + 4) ==> with_le32_at(b, off, v)[i] == b[i],
{
    let w = with_le32_at(b, off, v);
    assert(w[off] == (v & 0xff) as u8);
    assert(w[off + 1] == ((v >> 8) & 0xff) as u8);
    assert(w[off + 2] == ((v >> 16) & 0xff) as u8);
    assert(w[off + 3] == ((v >> 24) & 0xff) as u8);
    assert(((v & 0xff) as u8 as u32) | (((v >> 8) & 0xff) as u8 as u32) << 8 | (((v >> 16)
        & 0xff) as u8 as u32) << 16 | (((v >> 24) & 0xff) as u8 as u32) << 24 == v)
        by (bit_vector);
}

/// Two regions that agree on the two bytes at `off` decode to the same `u16`
/// there.
pub proof fn lemma_le16_congruent(b1: Seq<u8>, b2: Seq<u8>, off: int)
    requires
        0 <= off,
        off + 2 <= b1.len(),
        off + 2 <= b2.len(),
        b1[off] == b2[off],
        b1[off + 1] == b2[off + 1],
    ensures
        le16_at(b1, off) == le16_at(b2, off),
{
}

} // verus!
