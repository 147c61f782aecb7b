//! Views over a byte region holding a superblock record.
//!
//! A view never owns, allocates or copies the record: it borrows the caller's
//! byte region for a caller-chosen lifetime and interprets it through the
//! layout of [`crate::schema`]. [`Superblock`] is the immutable view; the
//! mutable view is the exclusively borrowed record region itself, handed out
//! by [`Superblock::from_bytes_mut`] and written through the `set_` functions
//! below, whose contracts say byte for byte what each write does. Borrowing
//! alone enforces the exclusivity discipline: any number of immutable views,
//! or exactly one mutable view, never both.

use vstd::prelude::*;

use crate::schema::BLOCKS_COUNT_OFFSET;
use crate::schema::BLOCKS_PER_GROUP_OFFSET;
use crate::schema::EXT2_MAGIC;
use crate::schema::FEATURE_COMPAT_OFFSET;
use crate::schema::FEATURE_INCOMPAT_OFFSET;
use crate::schema::FEATURE_RO_COMPAT_OFFSET;
use crate::schema::FIRST_DATA_BLOCK_OFFSET;
use crate::schema::FREE_BLOCKS_COUNT_OFFSET;
use crate::schema::FREE_INODES_COUNT_OFFSET;
use crate::schema::INODES_COUNT_OFFSET;
use crate::schema::INODES_PER_GROUP_OFFSET;
use crate::schema::LOG_BLOCK_SIZE_OFFSET;
use crate::schema::MAGIC_OFFSET;
use crate::schema::MAX_MNT_COUNT_OFFSET;
use crate::schema::MNT_COUNT_OFFSET;
use crate::schema::R_BLOCKS_COUNT_OFFSET;
use crate::schema::STATE_OFFSET;
use crate::schema::SUPERBLOCK_SIZE;
use crate::schema::is_superblock;
use crate::schema::le16_at;
use crate::schema::le32_at;
use crate::schema::lemma_le16_congruent;
use crate::schema::lemma_le16_roundtrip;
use crate::schema::lemma_le32_roundtrip;
use crate::schema::read_le_u16;
use crate::schema::read_le_u32;
use crate::schema::spec_magic;
use crate::schema::with_le16_at;
use crate::schema::with_le32_at;
use crate::schema::write_le_u16;
use crate::schema::write_le_u32;

verus! {

/// Why a checked view construction was refused.
#[derive(Clone, Copy, Debug, PartialEq, Eq, Structural)]
pub enum ViewError {
    /// The byte region is shorter than a superblock record.
    TooShort,
    /// The identity field does not hold the magic constant.
    BadMagic,
}

/// An immutable, zero-copy view of a superblock record: a borrow of the
/// caller's byte region, read through the fixed field layout.
#[derive(Clone, Copy, Debug)]
pub struct Superblock<'a> {
    bytes: &'a [u8],
}

impl<'a> View for Superblock<'a> {
    type V = Seq<u8>;

    /// The bytes the view interprets.
    closed spec fn view(&self) -> Seq<u8> {
        self.bytes@
    }
}

impl<'a> Superblock<'a> {
    /// The view's region is large enough to hold a whole record, so every
    /// field accessor stays in bounds.
    pub open spec fn wf(&self) -> bool {
        self@.len() >= SUPERBLOCK_SIZE
    }

    /// Views a genuine superblock record. The caller vouches for the bytes:
    /// the region must be large enough and its identity field must hold the
    /// magic constant, so a view of a corrupted record can never come from
    /// here.
    pub fn from_bytes(bytes: &'a [u8]) -> (r: Superblock<'a>)
        requires
            is_superblock(bytes@),
        ensures
            r@ == bytes@,
            r.wf(),
            spec_magic(r@) == EXT2_MAGIC,
    {
        Superblock { bytes }
    }

    /// Views the region without any identity check, as a trusted fast path:
    /// only the length is demanded, and a record whose identity field is
    /// corrupted is viewed as it stands.
    pub fn from_bytes_unchecked(bytes: &'a [u8]) -> (r: Superblock<'a>)
        requires
            bytes@.len() >= SUPERBLOCK_SIZE,
        ensures
            r@ == bytes@,
            r.wf(),
    {
        Superblock { bytes }
    }

    /// Checks the region at run time and views it only if it holds a genuine
    /// record: `Ok` exactly on the inputs [`from_bytes`](Self::from_bytes)
    /// admits, and an error naming what was wrong otherwise.
    pub fn try_from_bytes(bytes: &'a [u8]) -> (r: Result<Superblock<'a>, ViewError>)
        ensures
            match r {
                Ok(sb) => is_superblock(bytes@) && sb@ == bytes@ && sb.wf(),
                Err(ViewError::TooShort) => bytes@.len() < SUPERBLOCK_SIZE,
                Err(ViewError::BadMagic) => bytes@.len() >= SUPERBLOCK_SIZE && spec_magic(bytes@)
                    != EXT2_MAGIC,
            },
    {
        if bytes.len() < SUPERBLOCK_SIZE {
            Err(ViewError::TooShort)
        } else if read_le_u16(bytes, MAGIC_OFFSET) != EXT2_MAGIC {
            Err(ViewError::BadMagic)
        } else {
            Ok(Superblock { bytes })
        }
    }

    /// Views a genuine superblock record mutably. The record region is the
    /// caller's byte region itself, handed back under the same exclusive
    /// borrow: holding it excludes every other view of the bytes for `'a`,
    /// and the field writers below say byte for byte what a write does to it.
    /// As with [`from_bytes`](Self::from_bytes), the caller vouches that the
    /// bytes hold a genuine record.
    pub fn from_bytes_mut(bytes: &'a mut [u8]) -> (r: &'a mut [u8])
        requires
            is_superblock(old(bytes)@),
        ensures
            r@ == old(bytes)@,
            final(bytes)@ == final(r)@,
    {
        bytes
    }

    /// Checks the region at run time and hands it back as a mutable record
    /// region only if it holds a genuine record: `Ok` exactly on the inputs
    /// [`from_bytes_mut`](Self::from_bytes_mut) admits, and an error naming
    /// what was wrong otherwise, the bytes then untouched.
    pub fn try_from_bytes_mut(bytes: &'a mut [u8]) -> (r: Result<&'a mut [u8], ViewError>)
        ensures
            match r {
                Ok(sb) => is_superblock(old(bytes)@) && sb@ == old(bytes)@ && final(bytes)@
                    == final(sb)@,
                Err(ViewError::TooShort) => old(bytes)@.len() < SUPERBLOCK_SIZE && final(bytes)@
                    == old(bytes)@,
                Err(ViewError::BadMagic) => old(bytes)@.len() >= SUPERBLOCK_SIZE && spec_magic(
                    old(bytes)@,
                ) != EXT2_MAGIC && final(bytes)@ == old(bytes)@,
            },
    {
        if bytes.len() < SUPERBLOCK_SIZE {
            Err(ViewError::TooShort)
        } else if read_le_u16(bytes, MAGIC_OFFSET) != EXT2_MAGIC {
            Err(ViewError::BadMagic)
        } else {
            Ok(bytes)
        }
    }

    /// The magic identity field.
    pub fn magic(&self) -> (r: u16)
        requires
            self.wf(),
        ensures
            r == spec_magic(self@),
    {
        read_le_u16(self.bytes, MAGIC_OFFSET)
    }

    /// The total-inode count.
    pub fn inodes_count(&self) -> (r: u32)
        requires
            self.wf(),
        ensures
            r == le32_at(self@, INODES_COUNT_OFFSET as int),
    {
        read_le_u32(self.bytes, INODES_COUNT_OFFSET)
    }

    /// The total-block count.
    pub fn blocks_count(&self) -> (r: u32)
        requires
            self.wf(),
        ensures
            r == le32_at(self@, BLOCKS_COUNT_OFFSET as int),
    {
        read_le_u32(self.bytes, BLOCKS_COUNT_OFFSET)
    }

    /// The reserved-block count.
    pub fn r_blocks_count(&self) -> (r: u32)
        requires
            self.wf(),
        ensures
            r == le32_at(self@, R_BLOCKS_COUNT_OFFSET as int),
    {
        read_le_u32(self.bytes, R_BLOCKS_COUNT_OFFSET)
    }

    /// The free-block count.
    pub fn free_blocks_count(&self) -> (r: u32)
        requires
            self.wf(),
        ensures
            r == le32_at(self@, FREE_BLOCKS_COUNT_OFFSET as int),
    {
        read_le_u32(self.bytes, FREE_BLOCKS_COUNT_OFFSET)
    }

    /// The free-inode count.
    pub fn free_inodes_count(&self) -> (r: u32)
        requires
            self.wf(),
        ensures
            r == le32_at(self@, FREE_INODES_COUNT_OFFSET as int),
    {
        read_le_u32(self.bytes, FREE_INODES_COUNT_OFFSET)
    }

    /// The number of the first data block.
    pub fn first_data_block(&self) -> (r: u32)
        requires
            self.wf(),
        ensures
            r == le32_at(self@, FIRST_DATA_BLOCK_OFFSET as int),
    {
        read_le_u32(self.bytes, FIRST_DATA_BLOCK_OFFSET)
    }

    /// The logarithmic block size.
    pub fn log_block_size(&self) -> (r: u32)
        requires
            self.wf(),
        ensures
            r == le32_at(self@, LOG_BLOCK_SIZE_OFFSET as int),
    {
        read_le_u32(self.bytes, LOG_BLOCK_SIZE_OFFSET)
    }

    /// The blocks-per-group count.
    pub fn blocks_per_group(&self) -> (r: u32)
        requires
            self.wf(),
        ensures
            r == le32_at(self@, BLOCKS_PER_GROUP_OFFSET as int),
    {
        read_le_u32(self.bytes, BLOCKS_PER_GROUP_OFFSET)
    }

    /// The inodes-per-group count.
    pub fn inodes_per_group(&self) -> (r: u32)
        requires
            self.wf(),
        ensures
            r == le32_at(self@, INODES_PER_GROUP_OFFSET as int),
    {
        read_le_u32(self.bytes, INODES_PER_GROUP_OFFSET)
    }

    /// The mount count since the last check.
    pub fn mnt_count(&self) -> (r: u16)
        requires
            self.wf(),
        ensures
            r == le16_at(self@, MNT_COUNT_OFFSET as int),
    {
        read_le_u16(self.bytes, MNT_COUNT_OFFSET)
    }

    /// The maximal mount count before a check is due.
    pub fn max_mnt_count(&self) -> (r: u16)
        requires
            self.wf(),
        ensures
            r == le16_at(self@, MAX_MNT_COUNT_OFFSET as int),
    {
        read_le_u16(self.bytes, MAX_MNT_COUNT_OFFSET)
    }

    /// The filesystem state word.
    pub fn state(&self) -> (r: u16)
        requires
            self.wf(),
        ensures
            r == le16_at(self@, STATE_OFFSET as int),
    {
        read_le_u16(self.bytes, STATE_OFFSET)
    }

    /// The compatible-feature flags.
    pub fn feature_compat(&self) -> (r: u32)
        requires
            self.wf(),
        ensures
            r == le32_at(self@, FEATURE_COMPAT_OFFSET as int),
    {
        read_le_u32(self.bytes, FEATURE_COMPAT_OFFSET)
    }

    /// The incompatible-feature flags.
    pub fn feature_incompat(&self) -> (r: u32)
        requires
            self.wf(),
        ensures
            r == le32_at(self@, FEATURE_INCOMPAT_OFFSET as int),
    {
        read_le_u32(self.bytes, FEATURE_INCOMPAT_OFFSET)
    }

    /// The read-only-compatible-feature flags.
    pub fn feature_ro_compat(&self) -> (r: u32)
        requires
            self.wf(),
        ensures
            r == le32_at(self@, FEATURE_RO_COMPAT_OFFSET as int),
    {
        read_le_u32(self.bytes, FEATURE_RO_COMPAT_OFFSET)
    }
}

/// Whether a byte region holds a genuine superblock record: large enough, and
/// the identity field equals the magic constant. This check is always on,
/// independent of any build configuration.
pub fn validate(bytes: &[u8]) -> (r: bool)
    ensures
        r == is_superblock(bytes@),
{
    bytes.len() >= SUPERBLOCK_SIZE && read_le_u16(bytes, MAGIC_OFFSET) == EXT2_MAGIC
}

/// Writes the free-block count of the superblock record in `sb`.
pub fn set_free_blocks_count(sb: &mut [u8], v: u32)
    requires
        old(sb)@.len() >= SUPERBLOCK_SIZE,
    ensures
        final(sb)@ == with_le32_at(old(sb)@, FREE_BLOCKS_COUNT_OFFSET as int, v),
        le32_at(final(sb)@, FREE_BLOCKS_COUNT_OFFSET as int) == v,
        final(sb)@.len() == old(sb)@.len(),
        spec_magic(final(sb)@) == spec_magic(old(sb)@),
        is_superblock(final(sb)@) == is_superblock(old(sb)@),
{
    proof {
        lemma_u32_write_roundtrip_preserves_identity(
            old(sb)@,
            FREE_BLOCKS_COUNT_OFFSET as int,
            v,
        );
    }
    write_le_u32(sb, FREE_BLOCKS_COUNT_OFFSET, v);
}

/// Writes the free-inode count of the superblock record in `sb`.
pub fn set_free_inodes_count(sb: &mut [u8], v: u32)
    requires
        old(sb)@.len() >= SUPERBLOCK_SIZE,
    ensures
        final(sb)@ == with_le32_at(old(sb)@, FREE_INODES_COUNT_OFFSET as int, v),
        le32_at(final(sb)@, FREE_INODES_COUNT_OFFSET as int) == v,
        final(sb)@.len() == old(sb)@.len(),
        spec_magic(final(sb)@) == spec_magic(old(sb)@),
        is_superblock(final(sb)@) == is_superblock(old(sb)@),
{
    proof {
        lemma_u32_write_roundtrip_preserves_identity(
            old(sb)@,
            FREE_INODES_COUNT_OFFSET as int,
            v,
        );
    }
    write_le_u32(sb, FREE_INODES_COUNT_OFFSET, v);
}

/// Writes the mount count of the superblock record in `sb`.
pub fn set_mnt_count(sb: &mut [u8], v: u16)
    requires
        old(sb)@.len() >= SUPERBLOCK_SIZE,
    ensures
        final(sb)@ == with_le16_at(old(sb)@, MNT_COUNT_OFFSET as int, v),
        le16_at(final(sb)@, MNT_COUNT_OFFSET as int) == v,
        final(sb)@.len() == old(sb)@.len(),
        spec_magic(final(sb)@) == spec_magic(old(sb)@),
        is_superblock(final(sb)@) == is_superblock(old(sb)@),
{
    proof {
        lemma_u16_write_roundtrip_preserves_identity(old(sb)@, MNT_COUNT_OFFSET as int, v);
    }
    write_le_u16(sb, MNT_COUNT_OFFSET, v);
}

/// Writes the maximal mount count of the superblock record in `sb`.
pub fn set_max_mnt_count(sb: &mut [u8], v: u16)
    requires
        old(sb)@.len() >= SUPERBLOCK_SIZE,
    ensures
        final(sb)@ == with_le16_at(old(sb)@, MAX_MNT_COUNT_OFFSET as int, v),
        le16_at(final(sb)@, MAX_MNT_COUNT_OFFSET as int) == v,
        final(sb)@.len() == old(sb)@.len(),
        spec_magic(final(sb)@) == spec_magic(old(sb)@),
        is_superblock(final(sb)@) == is_superblock(old(sb)@),
{
    proof {
        lemma_u16_write_roundtrip_preserves_identity(old(sb)@, MAX_MNT_COUNT_OFFSET as int, v);
    }
    write_le_u16(sb, MAX_MNT_COUNT_OFFSET, v);
}

/// Writes the filesystem state word of the superblock record in `sb`.
pub fn set_state(sb: &mut [u8], v: u16)
    requires
        old(sb)@.len() >= SUPERBLOCK_SIZE,
    ensures
        final(sb)@ == with_le16_at(old(sb)@, STATE_OFFSET as int, v),
        le16_at(final(sb)@, STATE_OFFSET as int) == v,
        final(sb)@.len() == old(sb)@.len(),
        spec_magic(final(sb)@) == spec_magic(old(sb)@),
        is_superblock(final(sb)@) == is_superblock(old(sb)@),
{
    proof {
        lemma_u16_write_roundtrip_preserves_identity(old(sb)@, STATE_OFFSET as int, v);
    }
    write_le_u16(sb, STATE_OFFSET, v);
}

/// Law: a view's reading of any field is a function of the viewed bytes
/// alone, so views of the same bytes — however they were constructed — agree
/// on every field.
pub proof fn lemma_views_agree(v1: Superblock, v2: Superblock)
    requires
        v1@ == v2@,
    ensures
        spec_magic(v1@) == spec_magic(v2@),
        forall|off: int| le16_at(v1@, off) == le16_at(v2@, off),
        forall|off: int| le32_at(v1@, off) == le32_at(v2@, off),
{
}

/// Law: a `u16` write through the mutable record region is visible through
/// any immutable view constructed afterwards over the same bytes — the view
/// reads back exactly the written value, there being no copy in between — and
/// the identity field still reads as it did before the write.
pub proof fn lemma_u16_write_visible_through_view(b: Seq<u8>, off: int, v: u16, sb: Superblock)
    requires
        b.len() >= SUPERBLOCK_SIZE,
        0 <= off,
        off + 2 <= b.len(),
        off + 2 <= MAGIC_OFFSET || MAGIC_OFFSET + 2 <= off,
        sb@ == with_le16_at(b, off, v),
    ensures
        sb.wf(),
        le16_at(sb@, off) == v,
        spec_magic(sb@) == spec_magic(b),
        is_superblock(b) ==> is_superblock(sb@),
{
    lemma_u16_write_roundtrip_preserves_identity(b, off, v);
}

/// Law: a `u32` write through the mutable record region is visible through
/// any immutable view constructed afterwards over the same bytes — the view
/// reads back exactly the written value, there being no copy in between — and
/// the identity field still reads as it did before the write.
pub proof fn lemma_u32_write_visible_through_view(b: Seq<u8>, off: int, v: u32, sb: Superblock)
    requires
        b.len() >= SUPERBLOCK_SIZE,
        0 <= off,
        off + 4 <= b.len(),
        off + 4 <= MAGIC_OFFSET || MAGIC_OFFSET + 2 <= off,
        sb@ == with_le32_at(b, off, v),
    ensures
        sb.wf(),
        le32_at(sb@, off) == v,
        spec_magic(sb@) == spec_magic(b),
        is_superblock(b) ==> is_superblock(sb@),
{
    lemma_u32_write_roundtrip_preserves_identity(b, off, v);
}

/// Law: writing a `u16` field that does not overlap the identity field, then
/// re-viewing the same bytes, reads back the written value, and the identity
/// field — so also whether the record is genuine — is untouched.
pub proof fn lemma_u16_write_roundtrip_preserves_identity(b: Seq<u8>, off: int, v: u16)
    requires
        b.len() >= SUPERBLOCK_SIZE,
        0 <= off,
        off + 2 <= b.len(),
        off + 2 <= MAGIC_OFFSET || MAGIC_OFFSET + 2 <= off,
    ensures
        le16_at(with_le16_at(b, off, v), off) == v,
        with_le16_at(b, off, v).len() == b.len(),
        spec_magic(with_le16_at(b, off, v)) == spec_magic(b),
        is_superblock(with_le16_at(b, off, v)) == is_superblock(b),
{
    lemma_le16_roundtrip(b, off, v);
    lemma_le16_congruent(with_le16_at(b, off, v), b, MAGIC_OFFSET as int);
}

/// Law: writing a `u32` field that does not overlap the identity field, then
/// re-viewing the same bytes, reads back the written value, and the identity
/// field — so also whether the record is genuine — is untouched.
pub proof fn lemma_u32_write_roundtrip_preserves_identity(b: Seq<u8>, off: int, v: u32)
    requires
        b.len() >= SUPERBLOCK_SIZE,
        0 <= off,
        off + 4 <= b.len(),
        off + 4 <= MAGIC_OFFSET || MAGIC_OFFSET + 2 <= off,
    ensures
        le32_at(with_le32_at(b, off, v), off) == v,
        with_le32_at(b, off, v).len() == b.len(),
        spec_magic(with_le32_at(b, off, v)) == spec_magic(b),
        is_superblock(with_le32_at(b, off, v)) == is_superblock(b),
{
    lemma_le32_roundtrip(b, off, v);
    lemma_le16_congruent(with_le32_at(b, off, v), b, MAGIC_OFFSET as int);
}

} // verus!
