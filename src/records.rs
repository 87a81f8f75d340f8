//! The fixed-size little-endian records of an archive, decoded at a byte
//! offset of a buffer.
//!
//! Each record type has a spec function `*_at(b, off)` that says what its
//! fields hold when it is read at `off`, and a reader that returns it when the
//! record lies inside the buffer and `None` otherwise.
use vstd::prelude::*;
use crate::bytes::{le_u16, le_u24, le_u32, le_u40, le_u64, read_u16, read_u24, read_u32, read_u40, read_u64};

verus! {

/// The first eight bytes of every archive, little-endian.
pub const MAGIC: u64 = 0xabcd_ef98_7654_3210;

pub const MAGIC_SIZE: usize = 0x8;
pub const ARC_HEADER_SIZE: usize = 0x28;
pub const COMPRESSED_NODE_HEADER_SIZE: usize = 0x10;
pub const NODE_HEADER_SIZE: usize = 0x44;
pub const ENTRY_TRIPLET_SIZE: usize = 0xc;
pub const ENTRY_PAIR_SIZE: usize = 0x8;
pub const BIG_HASH_ENTRY_SIZE: usize = 0x34;
pub const TREE_ENTRY_SIZE: usize = 0x28;
pub const FILE_PAIR_SIZE: usize = 0x10;
pub const BIG_FILE_ENTRY_SIZE: usize = 0x1c;
pub const FILE_ENTRY_SIZE: usize = 0x10;
pub const HASH_BUCKET_SIZE: usize = 0x8;

/// A node section whose first word is below this value is compressed.
pub const COMPRESSED_NODE_LIMIT: u32 = 0x100;
/// Byte size of that first word, the `data_start` of a compressed node header.
pub const COMPRESSED_NODE_SENTINEL_SIZE: usize = 0x4;

/// Tree entry flag: the entry redirects to another entry.
pub const TREE_REDIRECT: u32 = 0x0000_0010;
/// Tree entry flag: `suboffset_index` names the file entry directly.
pub const TREE_SUBOFFSET_DIRECT: u32 = 0x0010_0000;
/// File entry flag: the entry redirects, by the index held in the bits above
/// the low byte, to another file entry of the same table.
pub const FILE_SUBOFFSET_REDIRECT: u32 = 0x0000_0004;
/// File entry flag bits that name the codec of the data.
pub const FILE_CODEC_MASK: u32 = 0x3;
/// Codec bits of data that is stored as it is.
pub const FILE_CODEC_STORED: u32 = 0x0;
/// Codec bits of data compressed with zstd.
pub const FILE_CODEC_ZSTD: u32 = 0x3;

/// Whether `size` bytes from `off` lie inside `b`.
pub fn fits(b: &[u8], off: usize, size: usize) -> (r: bool)
    ensures
        r == (off + size <= b@.len()),
        b@.len() <= usize::MAX,
{
    off <= b.len() && size <= b.len() - off
}

/// Top-level section map that follows the magic number.
#[derive(Clone, Copy, Debug, PartialEq, Eq, Structural)]
pub struct ArcHeader {
    pub music_file_section_offset: u64,
    pub file_section_offset: u64,
    pub music_section_offset: u64,
    pub node_section_offset: u64,
    pub unk_section_offset: u64,
}

pub open spec fn arc_header_at(b: Seq<u8>, off: int) -> ArcHeader {
    ArcHeader {
        music_file_section_offset: le_u64(b, off) as u64,
        file_section_offset: le_u64(b, off + 0x8) as u64,
        music_section_offset: le_u64(b, off + 0x10) as u64,
        node_section_offset: le_u64(b, off + 0x18) as u64,
        unk_section_offset: le_u64(b, off + 0x20) as u64,
    }
}

pub fn read_arc_header(b: &[u8], off: usize) -> (r: Option<ArcHeader>)
    ensures
        r == (if off + ARC_HEADER_SIZE <= b@.len() {
            Some(arc_header_at(b@, off as int))
        } else {
            None
        }),
{
    if fits(b, off, ARC_HEADER_SIZE) {
        Some(
            ArcHeader {
                music_file_section_offset: read_u64(b, off),
                file_section_offset: read_u64(b, off + 0x8),
                music_section_offset: read_u64(b, off + 0x10),
                node_section_offset: read_u64(b, off + 0x18),
                unk_section_offset: read_u64(b, off + 0x20),
            },
        )
    } else {
        None
    }
}

/// Header of a compressed node section.
#[derive(Clone, Copy, Debug, PartialEq, Eq, Structural)]
pub struct CompressedNodeHeader {
    pub data_start: u32,
    pub decomp_size: u32,
    pub comp_size: u32,
    pub zstd_comp_size: u32,
}

pub open spec fn compressed_node_header_at(b: Seq<u8>, off: int) -> CompressedNodeHeader {
    CompressedNodeHeader {
        data_start: le_u32(b, off) as u32,
        decomp_size: le_u32(b, off + 0x4) as u32,
        comp_size: le_u32(b, off + 0x8) as u32,
        zstd_comp_size: le_u32(b, off + 0xc) as u32,
    }
}

pub fn read_compressed_node_header(b: &[u8], off: usize) -> (r: Option<CompressedNodeHeader>)
    ensures
        r == (if off + COMPRESSED_NODE_HEADER_SIZE <= b@.len() {
            Some(compressed_node_header_at(b@, off as int))
        } else {
            None
        }),
{
    if fits(b, off, COMPRESSED_NODE_HEADER_SIZE) {
        Some(
            CompressedNodeHeader {
                data_start: read_u32(b, off),
                decomp_size: read_u32(b, off + 0x4),
                comp_size: read_u32(b, off + 0x8),
                zstd_comp_size: read_u32(b, off + 0xc),
            },
        )
    } else {
        None
    }
}

/// The counts that size each table of the node section.
#[derive(Clone, Copy, Debug, PartialEq, Eq, Structural)]
pub struct NodeHeader {
    pub file_size: u32,
    pub folder_count: u32,
    pub file_count1: u32,
    pub tree_count: u32,
    pub sub_files1_count: u32,
    pub file_lookup_count: u32,
    pub hash_folder_count: u32,
    pub file_information_count: u32,
    pub file_count2: u32,
    pub sub_files2_count: u32,
    pub unk1: u32,
    pub unk2: u32,
    pub another_hash_table_size: u8,
    pub unk3: u8,
    pub unk4: u16,
    pub movie_count: u32,
    pub part1_count: u32,
    pub part2_count: u32,
    pub music_file_count: u32,
}

pub open spec fn node_header_at(b: Seq<u8>, off: int) -> NodeHeader {
    NodeHeader {
        file_size: le_u32(b, off) as u32,
        folder_count: le_u32(b, off + 0x4) as u32,
        file_count1: le_u32(b, off + 0x8) as u32,
        tree_count: le_u32(b, off + 0xc) as u32,
        sub_files1_count: le_u32(b, off + 0x10) as u32,
        file_lookup_count: le_u32(b, off + 0x14) as u32,
        hash_folder_count: le_u32(b, off + 0x18) as u32,
        file_information_count: le_u32(b, off + 0x1c) as u32,
        file_count2: le_u32(b, off + 0x20) as u32,
        sub_files2_count: le_u32(b, off + 0x24) as u32,
        unk1: le_u32(b, off + 0x28) as u32,
        unk2: le_u32(b, off + 0x2c) as u32,
        another_hash_table_size: b[off + 0x30],
        unk3: b[off + 0x31],
        unk4: le_u16(b, off + 0x32) as u16,
        movie_count: le_u32(b, off + 0x34) as u32,
        part1_count: le_u32(b, off + 0x38) as u32,
        part2_count: le_u32(b, off + 0x3c) as u32,
        music_file_count: le_u32(b, off + 0x40) as u32,
    }
}

pub fn read_node_header(b: &[u8], off: usize) -> (r: Option<NodeHeader>)
    ensures
        r == (if off + NODE_HEADER_SIZE <= b@.len() {
            Some(node_header_at(b@, off as int))
        } else {
            None
        }),
{
    if fits(b, off, NODE_HEADER_SIZE) {
        Some(
            NodeHeader {
                file_size: read_u32(b, off),
                folder_count: read_u32(b, off + 0x4),
                file_count1: read_u32(b, off + 0x8),
                tree_count: read_u32(b, off + 0xc),
                sub_files1_count: read_u32(b, off + 0x10),
                file_lookup_count: read_u32(b, off + 0x14),
                hash_folder_count: read_u32(b, off + 0x18),
                file_information_count: read_u32(b, off + 0x1c),
                file_count2: read_u32(b, off + 0x20),
                sub_files2_count: read_u32(b, off + 0x24),
                unk1: read_u32(b, off + 0x28),
                unk2: read_u32(b, off + 0x2c),
                another_hash_table_size: b[off + 0x30],
                unk3: b[off + 0x31],
                unk4: read_u16(b, off + 0x32),
                movie_count: read_u32(b, off + 0x34),
                part1_count: read_u32(b, off + 0x38),
                part2_count: read_u32(b, off + 0x3c),
                music_file_count: read_u32(b, off + 0x40),
            },
        )
    } else {
        None
    }
}

/// A 40-bit hash packed with a 24-bit `meta` value.
#[derive(Clone, Copy, Debug, PartialEq, Eq, Structural)]
pub struct EntryPair {
    pub hash: u64,
    pub meta: u32,
}

pub open spec fn pair_at(b: Seq<u8>, off: int) -> EntryPair {
    EntryPair { hash: le_u40(b, off) as u64, meta: le_u24(b, off + 5) as u32 }
}

fn decode_pair(b: &[u8], off: usize) -> (r: EntryPair)
    requires
        off + ENTRY_PAIR_SIZE <= b.len(),
    ensures
        r == pair_at(b@, off as int),
{
    EntryPair { hash: read_u40(b, off), meta: read_u24(b, off + 5) }
}

pub fn read_pair(b: &[u8], off: usize) -> (r: Option<EntryPair>)
    ensures
        r == (if off + ENTRY_PAIR_SIZE <= b@.len() {
            Some(pair_at(b@, off as int))
        } else {
            None
        }),
{
    if fits(b, off, ENTRY_PAIR_SIZE) {
        Some(decode_pair(b, off))
    } else {
        None
    }
}

/// A 40-bit hash packed with a 24-bit `meta` value, and a second word.
#[derive(Clone, Copy, Debug, PartialEq, Eq, Structural)]
pub struct EntryTriplet {
    pub hash: u64,
    pub meta: u32,
    pub meta2: u32,
}

pub open spec fn triplet_at(b: Seq<u8>, off: int) -> EntryTriplet {
    EntryTriplet {
        hash: le_u40(b, off) as u64,
        meta: le_u24(b, off + 5) as u32,
        meta2: le_u32(b, off + 8) as u32,
    }
}

pub fn read_triplet(b: &[u8], off: usize) -> (r: Option<EntryTriplet>)
    ensures
        r == (if off + ENTRY_TRIPLET_SIZE <= b@.len() {
            Some(triplet_at(b@, off as int))
        } else {
            None
        }),
{
    if fits(b, off, ENTRY_TRIPLET_SIZE) {
        Some(
            EntryTriplet {
                hash: read_u40(b, off),
                meta: read_u24(b, off + 5),
                meta2: read_u32(b, off + 8),
            },
        )
    } else {
        None
    }
}

/// Hash and location record of one folder.
#[derive(Clone, Copy, Debug, PartialEq, Eq, Structural)]
pub struct BigHashEntry {
    pub path: EntryPair,
    pub folder: EntryPair,
    pub parent: EntryPair,
    pub hash4: EntryPair,
    pub suboffset_start: u32,
    pub num_files: u32,
    pub unk3: u32,
    pub unk4: u16,
    pub unk5: u16,
    pub unk6: u8,
    pub unk7: u8,
    pub unk8: u8,
    pub unk9: u8,
}

pub open spec fn big_hash_entry_at(b: Seq<u8>, off: int) -> BigHashEntry {
    BigHashEntry {
        path: pair_at(b, off),
        folder: pair_at(b, off + 0x8),
        parent: pair_at(b, off + 0x10),
        hash4: pair_at(b, off + 0x18),
        suboffset_start: le_u32(b, off + 0x20) as u32,
        num_files: le_u32(b, off + 0x24) as u32,
        unk3: le_u32(b, off + 0x28) as u32,
        unk4: le_u16(b, off + 0x2c) as u16,
        unk5: le_u16(b, off + 0x2e) as u16,
        unk6: b[off + 0x30],
        unk7: b[off + 0x31],
        unk8: b[off + 0x32],
        unk9: b[off + 0x33],
    }
}

pub fn read_big_hash_entry(b: &[u8], off: usize) -> (r: Option<BigHashEntry>)
    ensures
        r == (if off + BIG_HASH_ENTRY_SIZE <= b@.len() {
            Some(big_hash_entry_at(b@, off as int))
        } else {
            None
        }),
{
    if fits(b, off, BIG_HASH_ENTRY_SIZE) {
        Some(
            BigHashEntry {
                path: decode_pair(b, off),
                folder: decode_pair(b, off + 0x8),
                parent: decode_pair(b, off + 0x10),
                hash4: decode_pair(b, off + 0x18),
                suboffset_start: read_u32(b, off + 0x20),
                num_files: read_u32(b, off + 0x24),
                unk3: read_u32(b, off + 0x28),
                unk4: read_u16(b, off + 0x2c),
                unk5: read_u16(b, off + 0x2e),
                unk6: b[off + 0x30],
                unk7: b[off + 0x31],
                unk8: b[off + 0x32],
                unk9: b[off + 0x33],
            },
        )
    } else {
        None
    }
}

/// Physical location of the data of one folder.
#[derive(Clone, Copy, Debug, PartialEq, Eq, Structural)]
pub struct BigFileEntry {
    pub offset: u64,
    pub decomp_size: u32,
    pub comp_size: u32,
    pub suboffset_index: u32,
    pub files: u32,
    pub unk3: u32,
}

pub open spec fn big_file_entry_at(b: Seq<u8>, off: int) -> BigFileEntry {
    BigFileEntry {
        offset: le_u64(b, off) as u64,
        decomp_size: le_u32(b, off + 0x8) as u32,
        comp_size: le_u32(b, off + 0xc) as u32,
        suboffset_index: le_u32(b, off + 0x10) as u32,
        files: le_u32(b, off + 0x14) as u32,
        unk3: le_u32(b, off + 0x18) as u32,
    }
}

pub fn read_big_file_entry(b: &[u8], off: usize) -> (r: Option<BigFileEntry>)
    ensures
        r == (if off + BIG_FILE_ENTRY_SIZE <= b@.len() {
            Some(big_file_entry_at(b@, off as int))
        } else {
            None
        }),
{
    if fits(b, off, BIG_FILE_ENTRY_SIZE) {
        Some(
            BigFileEntry {
                offset: read_u64(b, off),
                decomp_size: read_u32(b, off + 0x8),
                comp_size: read_u32(b, off + 0xc),
                suboffset_index: read_u32(b, off + 0x10),
                files: read_u32(b, off + 0x14),
                unk3: read_u32(b, off + 0x18),
            },
        )
    } else {
        None
    }
}

/// How a tree entry reaches its file entry, as its flags say.
#[derive(Clone, Copy, Debug, PartialEq, Eq, Structural)]
pub enum TreeLink {
    /// The entry stands for another tree entry.
    Redirect,
    /// `suboffset_index` is the index of the file entry.
    Direct,
    /// The file entry at `ext.meta` decides.
    ViaExtension,
}

pub open spec fn tree_link_of(flags: u32) -> TreeLink {
    if flags & TREE_REDIRECT != 0 {
        TreeLink::Redirect
    } else if flags & TREE_SUBOFFSET_DIRECT != 0 {
        TreeLink::Direct
    } else {
        TreeLink::ViaExtension
    }
}

/// Directory-tree node of one file.
#[derive(Clone, Copy, Debug, PartialEq, Eq, Structural)]
pub struct TreeEntry {
    pub path: EntryPair,
    pub ext: EntryPair,
    pub folder: EntryPair,
    pub file: EntryPair,
    pub suboffset_index: u32,
    pub flags: u32,
}

impl TreeEntry {
    pub fn link(&self) -> (r: TreeLink)
        ensures
            r == tree_link_of(self.flags),
    {
        if self.flags & TREE_REDIRECT != 0 {
            TreeLink::Redirect
        } else if self.flags & TREE_SUBOFFSET_DIRECT != 0 {
            TreeLink::Direct
        } else {
            TreeLink::ViaExtension
        }
    }
}

pub open spec fn tree_entry_at(b: Seq<u8>, off: int) -> TreeEntry {
    TreeEntry {
        path: pair_at(b, off),
        ext: pair_at(b, off + 0x8),
        folder: pair_at(b, off + 0x10),
        file: pair_at(b, off + 0x18),
        suboffset_index: le_u32(b, off + 0x20) as u32,
        flags: le_u32(b, off + 0x24) as u32,
    }
}

pub fn read_tree_entry(b: &[u8], off: usize) -> (r: Option<TreeEntry>)
    ensures
        r == (if off + TREE_ENTRY_SIZE <= b@.len() {
            Some(tree_entry_at(b@, off as int))
        } else {
            None
        }),
{
    if fits(b, off, TREE_ENTRY_SIZE) {
        Some(
            TreeEntry {
                path: decode_pair(b, off),
                ext: decode_pair(b, off + 0x8),
                folder: decode_pair(b, off + 0x10),
                file: decode_pair(b, off + 0x18),
                suboffset_index: read_u32(b, off + 0x20),
                flags: read_u32(b, off + 0x24),
            },
        )
    } else {
        None
    }
}

/// The codec of a file's data, as the flags of its file entry say.
#[derive(Clone, Copy, Debug, PartialEq, Eq, Structural)]
pub enum Codec {
    Stored,
    Zstd,
    Unknown,
}

pub open spec fn codec_of(flags: u32) -> Codec {
    if flags & FILE_CODEC_MASK == FILE_CODEC_STORED {
        Codec::Stored
    } else if flags & FILE_CODEC_MASK == FILE_CODEC_ZSTD {
        Codec::Zstd
    } else {
        Codec::Unknown
    }
}

/// The index step of a redirecting file entry: the flag bits above the low byte.
pub open spec fn redirect_step_of(flags: u32) -> u32 {
    flags >> 8u32
}

/// Sub-offset and sizes of the data of one file.
#[derive(Clone, Copy, Debug, PartialEq, Eq, Structural)]
pub struct FileEntry {
    pub offset: u32,
    pub comp_size: u32,
    pub decomp_size: u32,
    pub flags: u32,
}

impl FileEntry {
    pub fn codec(&self) -> (r: Codec)
        ensures
            r == codec_of(self.flags),
    {
        if self.flags & FILE_CODEC_MASK == FILE_CODEC_STORED {
            Codec::Stored
        } else if self.flags & FILE_CODEC_MASK == FILE_CODEC_ZSTD {
            Codec::Zstd
        } else {
            Codec::Unknown
        }
    }

    /// The index step to the entry that this one redirects to, if it does.
    pub fn redirect_step(&self) -> (r: Option<u32>)
        ensures
            r == (if self.flags & FILE_SUBOFFSET_REDIRECT != 0 {
                Some(redirect_step_of(self.flags))
            } else {
                None
            }),
    {
        if self.flags & FILE_SUBOFFSET_REDIRECT != 0 {
            Some(self.flags >> 8u32)
        } else {
            None
        }
    }
}

pub open spec fn file_entry_at(b: Seq<u8>, off: int) -> FileEntry {
    FileEntry {
        offset: le_u32(b, off) as u32,
        comp_size: le_u32(b, off + 0x4) as u32,
        decomp_size: le_u32(b, off + 0x8) as u32,
        flags: le_u32(b, off + 0xc) as u32,
    }
}

pub fn read_file_entry(b: &[u8], off: usize) -> (r: Option<FileEntry>)
    ensures
        r == (if off + FILE_ENTRY_SIZE <= b@.len() {
            Some(file_entry_at(b@, off as int))
        } else {
            None
        }),
{
    if fits(b, off, FILE_ENTRY_SIZE) {
        Some(
            FileEntry {
                offset: read_u32(b, off),
                comp_size: read_u32(b, off + 0x4),
                decomp_size: read_u32(b, off + 0x8),
                flags: read_u32(b, off + 0xc),
            },
        )
    } else {
        None
    }
}

/// A size and an offset, 64 bits each.
#[derive(Clone, Copy, Debug, PartialEq, Eq, Structural)]
pub struct FilePair {
    pub size: u64,
    pub offset: u64,
}

pub open spec fn file_pair_at(b: Seq<u8>, off: int) -> FilePair {
    FilePair { size: le_u64(b, off) as u64, offset: le_u64(b, off + 0x8) as u64 }
}

pub fn read_file_pair(b: &[u8], off: usize) -> (r: Option<FilePair>)
    ensures
        r == (if off + FILE_PAIR_SIZE <= b@.len() {
            Some(file_pair_at(b@, off as int))
        } else {
            None
        }),
{
    if fits(b, off, FILE_PAIR_SIZE) {
        Some(FilePair { size: read_u64(b, off), offset: read_u64(b, off + 0x8) })
    } else {
        None
    }
}

/// A bucket of the file lookup table: where its pairs start, and how many.
/// The first bucket record of the table holds the number of buckets instead.
#[derive(Clone, Copy, Debug, PartialEq, Eq, Structural)]
pub struct HashBucket {
    pub index: u32,
    pub num_entries: u32,
}

pub open spec fn hash_bucket_at(b: Seq<u8>, off: int) -> HashBucket {
    HashBucket { index: le_u32(b, off) as u32, num_entries: le_u32(b, off + 0x4) as u32 }
}

pub fn read_hash_bucket(b: &[u8], off: usize) -> (r: Option<HashBucket>)
    ensures
        r == (if off + HASH_BUCKET_SIZE <= b@.len() {
            Some(hash_bucket_at(b@, off as int))
        } else {
            None
        }),
{
    if fits(b, off, HASH_BUCKET_SIZE) {
        Some(HashBucket { index: read_u32(b, off), num_entries: read_u32(b, off + 0x4) })
    } else {
        None
    }
}

} // verus!
