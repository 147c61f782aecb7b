use ext2view::parse::set_free_blocks_count;
use ext2view::parse::set_free_inodes_count;
use ext2view::parse::set_max_mnt_count;
use ext2view::parse::set_mnt_count;
use ext2view::parse::set_state;
use ext2view::parse::validate;
use ext2view::parse::Superblock;
use ext2view::parse::ViewError;
use ext2view::schema::EXT2_MAGIC;
use ext2view::schema::FREE_BLOCKS_COUNT_OFFSET;
use ext2view::schema::MAGIC_OFFSET;
use ext2view::schema::STATE_OFFSET;
use ext2view::schema::SUPERBLOCK_SIZE;

/// A known-good superblock fixture: a blank record of the right size whose
/// identity field holds the magic constant and whose counting fields hold
/// recognizable values.
fn fixture() -> Vec<u8> {
    let mut b = vec![0u8; SUPERBLOCK_SIZE];
    // inodes_count = 0x12345678, little-endian at offset 0
    b[0] = 0x78;
    b[1] = 0x56;
    b[2] = 0x34;
    b[3] = 0x12;
    // blocks_count = 2048 at offset 4
    b[4] = 0x00;
    b[5] = 0x08;
    // free_blocks_count = 500 at offset 12
    b[12] = 0xf4;
    b[13] = 0x01;
    // free_inodes_count = 100 at offset 16
    b[16] = 0x64;
    // first_data_block = 1 at offset 20
    b[20] = 0x01;
    // blocks_per_group = 8192 at offset 32
    b[33] = 0x20;
    // inodes_per_group = 1834 at offset 40
    b[40] = 0x2a;
    b[41] = 0x07;
    // mnt_count = 3, max_mnt_count = 20
    b[52] = 0x03;
    b[54] = 0x14;
    // magic = 0xEF53 at offset 56
    b[56] = 0x53;
    b[57] = 0xef;
    // state = 1 (clean) at offset 58
    b[58] = 0x01;
    // feature_compat = 0x38 at offset 92
    b[92] = 0x38;
    // feature_incompat = 0x02 at offset 96
    b[96] = 0x02;
    // feature_ro_compat = 0x03 at offset 100
    b[100] = 0x03;
    b
}

#[test]
fn superblock_from_bytes_works() {
    let bytes = fixture();
    let sb = Superblock::from_bytes(&bytes);

    assert_eq!(sb.magic(), EXT2_MAGIC);
}

#[test]
fn getters_read_exact_little_endian_values() {
    let bytes = fixture();
    let sb = Superblock::from_bytes(&bytes);
    assert_eq!(sb.inodes_count(), 0x12345678);
    assert_eq!(sb.blocks_count(), 2048);
    assert_eq!(sb.r_blocks_count(), 0);
    assert_eq!(sb.free_blocks_count(), 500);
    assert_eq!(sb.free_inodes_count(), 100);
    assert_eq!(sb.first_data_block(), 1);
    assert_eq!(sb.log_block_size(), 0);
    assert_eq!(sb.blocks_per_group(), 8192);
    assert_eq!(sb.inodes_per_group(), 1834);
    assert_eq!(sb.mnt_count(), 3);
    assert_eq!(sb.max_mnt_count(), 20);
    assert_eq!(sb.magic(), 0xef53);
    assert_eq!(sb.state(), 1);
    assert_eq!(sb.feature_compat(), 0x38);
    assert_eq!(sb.feature_incompat(), 0x02);
    assert_eq!(sb.feature_ro_compat(), 0x03);
}

#[test]
fn entry_points_agree_on_the_same_bytes() {
    let bytes = fixture();
    let a = Superblock::from_bytes(&bytes);
    let b = Superblock::try_from_bytes(&bytes).unwrap();
    let c = Superblock::from_bytes_unchecked(&bytes);
    assert_eq!(a.magic(), b.magic());
    assert_eq!(a.magic(), c.magic());
    assert_eq!(a.inodes_count(), b.inodes_count());
    assert_eq!(a.inodes_count(), c.inodes_count());
    assert_eq!(a.blocks_count(), b.blocks_count());
    assert_eq!(a.blocks_count(), c.blocks_count());
    assert_eq!(a.free_blocks_count(), b.free_blocks_count());
    assert_eq!(a.free_blocks_count(), c.free_blocks_count());
    assert_eq!(a.state(), b.state());
    assert_eq!(a.state(), c.state());
    assert_eq!(a.feature_incompat(), b.feature_incompat());
    assert_eq!(a.feature_incompat(), c.feature_incompat());
}

#[test]
fn mutation_is_visible_through_a_later_view() {
    let mut bytes = fixture();
    {
        let region = Superblock::from_bytes_mut(&mut bytes);
        set_free_blocks_count(region, 499);
    }
    let sb = Superblock::from_bytes(&bytes);
    assert_eq!(sb.free_blocks_count(), 499);
}

#[test]
fn mutation_round_trip_leaves_identity_untouched() {
    let mut bytes = fixture();
    let sb = Superblock::from_bytes(&bytes);
    assert_eq!(sb.free_inodes_count(), 100);
    assert_eq!(sb.magic(), EXT2_MAGIC);
    {
        let region = Superblock::from_bytes_mut(&mut bytes);
        set_free_inodes_count(region, 99);
        set_state(region, 2);
        set_mnt_count(region, 4);
        set_max_mnt_count(region, 25);
    }
    let sb = Superblock::from_bytes(&bytes);
    assert_eq!(sb.free_inodes_count(), 99);
    assert_eq!(sb.state(), 2);
    assert_eq!(sb.mnt_count(), 4);
    assert_eq!(sb.max_mnt_count(), 25);
    assert_eq!(sb.magic(), EXT2_MAGIC);
    assert!(validate(&bytes));
}

#[test]
fn setters_write_exact_little_endian_bytes() {
    let mut bytes = fixture();
    set_state(&mut bytes, 0xabcd);
    assert_eq!(bytes[STATE_OFFSET], 0xcd);
    assert_eq!(bytes[STATE_OFFSET + 1], 0xab);
    set_free_blocks_count(&mut bytes, 0x01020304);
    assert_eq!(bytes[FREE_BLOCKS_COUNT_OFFSET], 0x04);
    assert_eq!(bytes[FREE_BLOCKS_COUNT_OFFSET + 1], 0x03);
    assert_eq!(bytes[FREE_BLOCKS_COUNT_OFFSET + 2], 0x02);
    assert_eq!(bytes[FREE_BLOCKS_COUNT_OFFSET + 3], 0x01);
}

#[test]
fn corrupted_identity_is_refused_by_the_checked_entry() {
    let mut bytes = fixture();
    bytes[MAGIC_OFFSET] = 0x99;
    assert_eq!(
        Superblock::try_from_bytes(&bytes).unwrap_err(),
        ViewError::BadMagic
    );
    assert_eq!(
        Superblock::try_from_bytes_mut(&mut bytes).unwrap_err(),
        ViewError::BadMagic
    );
    assert!(!validate(&bytes));
}

#[test]
fn corrupted_identity_is_readable_through_the_unchecked_entry() {
    let mut bytes = fixture();
    bytes[MAGIC_OFFSET] = 0x99;
    bytes[MAGIC_OFFSET + 1] = 0x11;
    let sb = Superblock::from_bytes_unchecked(&bytes);
    assert_eq!(sb.magic(), 0x1199);
    assert_eq!(sb.inodes_count(), 0x12345678);
}

#[test]
fn short_region_is_refused_by_the_checked_entry() {
    let mut bytes = vec![0u8; SUPERBLOCK_SIZE - 1];
    assert_eq!(
        Superblock::try_from_bytes(&bytes).unwrap_err(),
        ViewError::TooShort
    );
    assert_eq!(
        Superblock::try_from_bytes_mut(&mut bytes).unwrap_err(),
        ViewError::TooShort
    );
    assert!(!validate(&bytes));
    let empty: Vec<u8> = Vec::new();
    assert_eq!(
        Superblock::try_from_bytes(&empty).unwrap_err(),
        ViewError::TooShort
    );
}

#[test]
fn checked_entry_accepts_exactly_the_genuine_records() {
    let bytes = fixture();
    assert!(validate(&bytes));
    let sb = Superblock::try_from_bytes(&bytes).unwrap();
    assert_eq!(sb.magic(), EXT2_MAGIC);
    // a longer region is accepted too: only the record's prefix is read
    let mut long = fixture();
    long.resize(4096, 0xff);
    assert!(validate(&long));
    let sb = Superblock::try_from_bytes(&long).unwrap();
    assert_eq!(sb.magic(), EXT2_MAGIC);
}

#[test]
fn canonical_image_prefix_holds_the_magic_constant() {
    // the first sizeof(superblock) bytes of a canonical fixture image
    let image = fixture();
    let record = &image[..SUPERBLOCK_SIZE];
    let sb = Superblock::from_bytes(record);
    assert_eq!(sb.magic(), 0xef53);
    assert_eq!(sb.magic(), EXT2_MAGIC);
}
