//! Where each table of the node section starts.
//!
//! The tables follow one another without gaps in a fixed order; each one is
//! `record size × count` bytes long, the counts coming from the node header,
//! except the file lookup buckets, whose number the table's own first record
//! gives.
use vstd::prelude::*;
use crate::records::{
    HashBucket, NodeHeader, BIG_FILE_ENTRY_SIZE, BIG_HASH_ENTRY_SIZE, ENTRY_PAIR_SIZE,
    ENTRY_TRIPLET_SIZE, FILE_ENTRY_SIZE, FILE_PAIR_SIZE, HASH_BUCKET_SIZE, TREE_ENTRY_SIZE,
    hash_bucket_at, read_hash_bucket,
};

verus! {

/// Byte size of one record of the bulk file to file index table.
pub const FILE_INDEX_SIZE: usize = 0x4;

pub open spec fn bulkfile_hash_lookup_at(h: NodeHeader) -> int {
    ENTRY_TRIPLET_SIZE * h.movie_count
}

pub open spec fn bulkfiles_by_name_at(h: NodeHeader) -> int {
    bulkfile_hash_lookup_at(h) + ENTRY_PAIR_SIZE * h.part1_count
}

pub open spec fn bulkfile_lookup_to_fileidx_at(h: NodeHeader) -> int {
    bulkfiles_by_name_at(h) + ENTRY_TRIPLET_SIZE * h.part1_count
}

pub open spec fn file_pairs_at(h: NodeHeader) -> int {
    bulkfile_lookup_to_fileidx_at(h) + FILE_INDEX_SIZE * h.part2_count
}

pub open spec fn another_hash_table_at(h: NodeHeader) -> int {
    file_pairs_at(h) + FILE_PAIR_SIZE * h.music_file_count
}

pub open spec fn big_hashes_at(h: NodeHeader) -> int {
    another_hash_table_at(h) + ENTRY_TRIPLET_SIZE * h.another_hash_table_size
}

pub open spec fn big_files_at(h: NodeHeader) -> int {
    big_hashes_at(h) + BIG_HASH_ENTRY_SIZE * h.folder_count
}

pub open spec fn folder_hash_lookup_at(h: NodeHeader) -> int {
    big_files_at(h) + BIG_FILE_ENTRY_SIZE * (h.file_count1 + h.file_count2)
}

pub open spec fn trees_at(h: NodeHeader) -> int {
    folder_hash_lookup_at(h) + ENTRY_PAIR_SIZE * h.hash_folder_count
}

pub open spec fn sub_files1_at(h: NodeHeader) -> int {
    trees_at(h) + TREE_ENTRY_SIZE * h.tree_count
}

pub open spec fn sub_files2_at(h: NodeHeader) -> int {
    sub_files1_at(h) + FILE_ENTRY_SIZE * h.sub_files1_count
}

pub open spec fn folder_to_big_hash_at(h: NodeHeader) -> int {
    sub_files2_at(h) + FILE_ENTRY_SIZE * h.sub_files2_count
}

pub open spec fn file_lookup_buckets_at(h: NodeHeader) -> int {
    folder_to_big_hash_at(h) + ENTRY_PAIR_SIZE * h.folder_count
}

/// The bucket table holds `num_entries + 1` records: the leading one, which
/// gives the number of buckets, and the buckets.
pub open spec fn file_lookup_at(h: NodeHeader, first: HashBucket) -> int {
    file_lookup_buckets_at(h) + HASH_BUCKET_SIZE * (first.num_entries + 1)
}

pub open spec fn numbers_at(h: NodeHeader, first: HashBucket) -> int {
    file_lookup_at(h, first) + ENTRY_PAIR_SIZE * h.file_lookup_count
}

/// The byte offset of each table inside the node section's payload.
#[derive(Clone, Copy, Debug, PartialEq, Eq, Structural)]
pub struct SectionOffsets {
    pub bulkfile_hash_lookup: usize,
    pub bulkfiles_by_name: usize,
    pub bulkfile_lookup_to_fileidx: usize,
    pub file_pairs: usize,
    pub another_hash_table: usize,
    pub big_hashes: usize,
    pub big_files: usize,
    pub folder_hash_lookup: usize,
    pub trees: usize,
    pub sub_files1: usize,
    pub sub_files2: usize,
    pub folder_to_big_hash: usize,
    pub file_lookup_buckets: usize,
    pub file_lookup: usize,
    pub numbers: usize,
}

/// The offsets of a node section with header `h` whose first bucket record is
/// `first`.
pub open spec fn section_offsets(h: NodeHeader, first: HashBucket) -> SectionOffsets {
    SectionOffsets {
        bulkfile_hash_lookup: bulkfile_hash_lookup_at(h) as usize,
        bulkfiles_by_name: bulkfiles_by_name_at(h) as usize,
        bulkfile_lookup_to_fileidx: bulkfile_lookup_to_fileidx_at(h) as usize,
        file_pairs: file_pairs_at(h) as usize,
        another_hash_table: another_hash_table_at(h) as usize,
        big_hashes: big_hashes_at(h) as usize,
        big_files: big_files_at(h) as usize,
        folder_hash_lookup: folder_hash_lookup_at(h) as usize,
        trees: trees_at(h) as usize,
        sub_files1: sub_files1_at(h) as usize,
        sub_files2: sub_files2_at(h) as usize,
        folder_to_big_hash: folder_to_big_hash_at(h) as usize,
        file_lookup_buckets: file_lookup_buckets_at(h) as usize,
        file_lookup: file_lookup_at(h, first) as usize,
        numbers: numbers_at(h, first) as usize,
    }
}

/// The first bucket record of a payload `b` laid out by `h`.
pub open spec fn first_bucket_of(h: NodeHeader, b: Seq<u8>) -> HashBucket {
    hash_bucket_at(b, file_lookup_buckets_at(h))
}

/// Whether every table that `h` and the payload's first bucket record size
/// lies inside the payload `b`.
pub open spec fn layout_fits(h: NodeHeader, b: Seq<u8>) -> bool {
    &&& file_lookup_buckets_at(h) + HASH_BUCKET_SIZE <= b.len()
    &&& numbers_at(h, first_bucket_of(h, b)) <= b.len()
}

/// The byte size of each table, in the order in which the tables follow one
/// another from the start of the payload up to the numbers table.
pub open spec fn table_sizes(h: NodeHeader, first: HashBucket) -> Seq<int> {
    seq![
        ENTRY_TRIPLET_SIZE * h.movie_count,
        ENTRY_PAIR_SIZE * h.part1_count,
        ENTRY_TRIPLET_SIZE * h.part1_count,
        FILE_INDEX_SIZE * h.part2_count,
        FILE_PAIR_SIZE * h.music_file_count,
        ENTRY_TRIPLET_SIZE * h.another_hash_table_size,
        BIG_HASH_ENTRY_SIZE * h.folder_count,
        BIG_FILE_ENTRY_SIZE * (h.file_count1 + h.file_count2),
        ENTRY_PAIR_SIZE * h.hash_folder_count,
        TREE_ENTRY_SIZE * h.tree_count,
        FILE_ENTRY_SIZE * h.sub_files1_count,
        FILE_ENTRY_SIZE * h.sub_files2_count,
        ENTRY_PAIR_SIZE * h.folder_count,
        HASH_BUCKET_SIZE * (first.num_entries + 1),
        ENTRY_PAIR_SIZE * h.file_lookup_count,
    ]
}

/// Where each table starts, in the same order; the last is the start of
/// the numbers table, which runs to the end of the payload.
pub open spec fn table_starts(h: NodeHeader, first: HashBucket) -> Seq<int> {
    seq![
        0,
        bulkfile_hash_lookup_at(h),
        bulkfiles_by_name_at(h),
        bulkfile_lookup_to_fileidx_at(h),
        file_pairs_at(h),
        another_hash_table_at(h),
        big_hashes_at(h),
        big_files_at(h),
        folder_hash_lookup_at(h),
        trees_at(h),
        sub_files1_at(h),
        sub_files2_at(h),
        folder_to_big_hash_at(h),
        file_lookup_buckets_at(h),
        file_lookup_at(h, first),
        numbers_at(h, first),
    ]
}

/// The sum of the first `n` sizes of `sizes`.
pub open spec fn sum_first(sizes: Seq<int>, n: int) -> int
    decreases n,
{
    if n <= 0 {
        0
    } else {
        sum_first(sizes, n - 1) + sizes[n - 1]
    }
}

/// The tables of a payload that an opened archive accepted partition it
/// without gaps: each starts where the one before it ends, so that each start
/// is the sum of the sizes of the tables before it; the numbers table starts
/// at the sum of all of them, inside the payload, and takes the rest of it.
pub proof fn lemma_sections_partition(h: NodeHeader, b: Seq<u8>)
    requires
        layout_fits(h, b),
    ensures
        ({
            let first = first_bucket_of(h, b);
            let starts = table_starts(h, first);
            let sizes = table_sizes(h, first);
            &&& starts.len() == sizes.len() + 1
            &&& forall|i: int| 0 <= i < sizes.len() ==> starts[i + 1] == starts[i] + sizes[i]
            &&& forall|i: int| 0 <= i < starts.len() ==> starts[i] == sum_first(sizes, i)
            &&& starts[sizes.len() as int] <= b.len()
        }),
{
    let first = first_bucket_of(h, b);
    let starts = table_starts(h, first);
    let sizes = table_sizes(h, first);
    assert forall|i: int| 0 <= i < starts.len() implies starts[i] == sum_first(sizes, i) by {
        reveal_with_fuel(sum_first, 16);
    }
}

/// Computes the offset of every table of the payload `b` laid out by `h`, or
/// `None` where a table would lie outside it.
pub fn build_offsets(h: &NodeHeader, b: &[u8]) -> (r: Option<(SectionOffsets, HashBucket)>)
    ensures
        r is Some <==> layout_fits(*h, b@),
        r matches Some((o, first)) ==> first == first_bucket_of(*h, b@) && o == section_offsets(
            *h,
            first,
        ),
{
    // The record sizes are written out: each product is then linear.
    let bulkfile_hash_lookup: u64 = 0xc * h.movie_count as u64;
    let bulkfiles_by_name: u64 = bulkfile_hash_lookup + 0x8 * h.part1_count as u64;
    let bulkfile_lookup_to_fileidx: u64 = bulkfiles_by_name + 0xc * h.part1_count as u64;
    let file_pairs: u64 = bulkfile_lookup_to_fileidx + 0x4 * h.part2_count as u64;
    let another_hash_table: u64 = file_pairs + 0x10 * h.music_file_count as u64;
    let big_hashes: u64 = another_hash_table + 0xc * h.another_hash_table_size as u64;
    let big_files: u64 = big_hashes + 0x34 * h.folder_count as u64;
    let folder_hash_lookup: u64 = big_files + 0x1c * (h.file_count1 as u64 + h.file_count2 as u64);
    let trees: u64 = folder_hash_lookup + 0x8 * h.hash_folder_count as u64;
    let sub_files1: u64 = trees + 0x28 * h.tree_count as u64;
    let sub_files2: u64 = sub_files1 + 0x10 * h.sub_files1_count as u64;
    let folder_to_big_hash: u64 = sub_files2 + 0x10 * h.sub_files2_count as u64;
    let file_lookup_buckets: u64 = folder_to_big_hash + 0x8 * h.folder_count as u64;
    let len = b.len() as u64;
    if file_lookup_buckets > len {
        return None;
    }
    let first = match read_hash_bucket(b, file_lookup_buckets as usize) {
        Some(first) => first,
        None => {
            return None;
        },
    };
    let file_lookup: u64 = file_lookup_buckets + 0x8 * (first.num_entries as u64 + 1);
    let numbers: u64 = file_lookup + 0x8 * h.file_lookup_count as u64;
    if numbers > len {
        return None;
    }
    let offsets = SectionOffsets {
        bulkfile_hash_lookup: bulkfile_hash_lookup as usize,
        bulkfiles_by_name: bulkfiles_by_name as usize,
        bulkfile_lookup_to_fileidx: bulkfile_lookup_to_fileidx as usize,
        file_pairs: file_pairs as usize,
        another_hash_table: another_hash_table as usize,
        big_hashes: big_hashes as usize,
        big_files: big_files as usize,
        folder_hash_lookup: folder_hash_lookup as usize,
        trees: trees as usize,
        sub_files1: sub_files1 as usize,
        sub_files2: sub_files2 as usize,
        folder_to_big_hash: folder_to_big_hash as usize,
        file_lookup_buckets: file_lookup_buckets as usize,
        file_lookup: file_lookup as usize,
        numbers: numbers as usize,
    };
    Some((offsets, first))
}

} // verus!
