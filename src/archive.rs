//! An opened archive: its header and its node section, held in memory, with
//! the offset of every table of that section.
use vstd::prelude::*;
use vstd::string::StringSliceAdditionalSpecFns;
use crate::bytes::{le_u64, read_u32, read_u64};
use crate::error::{report, reports, ArcError, Fault, GetFileError, ParseError};
use crate::hash::{hash40, hash40_of};
use crate::layout::{
    big_files_at, big_hashes_at, build_offsets, file_lookup_at, file_lookup_buckets_at,
    first_bucket_of, layout_fits, section_offsets, sub_files1_at, trees_at, SectionOffsets,
};
use crate::records::{
    arc_header_at, big_file_entry_at, big_hash_entry_at, codec_of, compressed_node_header_at,
    file_entry_at, hash_bucket_at, node_header_at, pair_at, read_arc_header, read_big_file_entry,
    read_big_hash_entry, read_file_entry, read_hash_bucket,
    fits, read_node_header, read_pair, read_tree_entry, redirect_step_of, tree_entry_at, tree_link_of,
    ArcHeader, Codec, EntryPair, HashBucket, NodeHeader, TreeEntry, TreeLink, ARC_HEADER_SIZE,
    BIG_FILE_ENTRY_SIZE, BIG_HASH_ENTRY_SIZE, COMPRESSED_NODE_LIMIT, COMPRESSED_NODE_SENTINEL_SIZE,
    ENTRY_PAIR_SIZE, FILE_ENTRY_SIZE, FILE_SUBOFFSET_REDIRECT, HASH_BUCKET_SIZE, MAGIC, MAGIC_SIZE,
    NODE_HEADER_SIZE, TREE_ENTRY_SIZE,
};

verus! {

/// Whether the bytes start with the magic number of an archive.
pub open spec fn has_magic(start: Seq<u8>) -> bool {
    start.len() >= MAGIC_SIZE && le_u64(start, 0) == MAGIC
}

/// What is wrong with a node section `ns`, if anything can be told from its
/// headers alone.
pub open spec fn node_section_error(ns: Seq<u8>) -> Option<ArcError> {
    if ns.len() < COMPRESSED_NODE_SENTINEL_SIZE {
        Some(ArcError::NodeSectionSize)
    } else if compressed_node_header_at(ns, 0).data_start < COMPRESSED_NODE_LIMIT {
        Some(ArcError::CompressedNodeSection)
    } else if ns.len() < NODE_HEADER_SIZE || node_header_at(ns, 0).file_size < NODE_HEADER_SIZE {
        Some(ArcError::NodeSectionSize)
    } else {
        None
    }
}

/// A node section whose first word, the `data_start` of a compressed node
/// header, is below `COMPRESSED_NODE_LIMIT` is refused as the compressed
/// variant of the format, whatever follows that word: the archive that holds
/// it is not opened, and the error names that variant.
pub proof fn lemma_compressed_node_section_refused(header: ArcHeader, ns: Seq<u8>)
    requires
        ns.len() >= COMPRESSED_NODE_SENTINEL_SIZE,
        compressed_node_header_at(ns, 0).data_start < COMPRESSED_NODE_LIMIT,
    ensures
        node_section_error(ns) == Some(ArcError::CompressedNodeSection),
        opened(header, ns) == Err::<ArcView, ArcError>(ArcError::CompressedNodeSection),
{
}

/// The archive that a node section `ns` describes, with the header `header`,
/// or the fault that keeps it from being opened.
pub open spec fn opened(header: ArcHeader, ns: Seq<u8>) -> Result<ArcView, ArcError> {
    match node_section_error(ns) {
        Some(e) => Err(e),
        None => {
            let node = node_header_at(ns, 0);
            let payload = ns.subrange(NODE_HEADER_SIZE as int, ns.len() as int);
            if ns.len() != node.file_size {
                Err(ArcError::NodeSectionSize)
            } else if !layout_fits(node, payload) {
                Err(ArcError::OutOfBounds)
            } else {
                Ok(ArcView { header, node, buffer: payload })
            }
        },
    }
}

/// The number of buckets of the file lookup table.
pub open spec fn num_buckets(v: ArcView) -> int {
    first_bucket_of(v.node, v.buffer).num_entries as int
}

/// Where the bucket record for `hash` starts: the leading record of the table
/// is skipped.
pub open spec fn bucket_offset(v: ArcView, hash: u64) -> int {
    file_lookup_buckets_at(v.node) + HASH_BUCKET_SIZE * (hash % (num_buckets(v) as u64) + 1)
}

/// Where the `j`-th pair of `bucket` starts.
pub open spec fn pair_offset(v: ArcView, bucket: HashBucket, j: int) -> int {
    file_lookup_at(v.node, first_bucket_of(v.node, v.buffer)) + ENTRY_PAIR_SIZE * (bucket.index
        + j)
}

/// The first pair of `bucket`, from its `j`-th on, whose hash is `hash`.
pub open spec fn scan(v: ArcView, bucket: HashBucket, hash: u64, j: int) -> Result<
    EntryPair,
    Fault,
>
    decreases bucket.num_entries - j,
{
    if j >= bucket.num_entries {
        Err(Fault::NotFound)
    } else if pair_offset(v, bucket, j) + ENTRY_PAIR_SIZE > v.buffer.len() {
        Err(Fault::OutOfBounds)
    } else if pair_at(v.buffer, pair_offset(v, bucket, j)).hash == hash {
        Ok(pair_at(v.buffer, pair_offset(v, bucket, j)))
    } else {
        scan(v, bucket, hash, j + 1)
    }
}

/// The bucket record for `hash`.
pub open spec fn bucket_of(v: ArcView, hash: u64) -> HashBucket {
    hash_bucket_at(v.buffer, bucket_offset(v, hash))
}

/// The pair of the file lookup table that the index gives for `hash`.
pub open spec fn lookup(v: ArcView, hash: u64) -> Result<EntryPair, Fault> {
    if num_buckets(v) == 0 {
        Err(Fault::NotFound)
    } else if bucket_offset(v, hash) + HASH_BUCKET_SIZE > v.buffer.len() {
        Err(Fault::OutOfBounds)
    } else {
        scan(v, bucket_of(v, hash), hash, 0)
    }
}

/// Whether all pairs of `bucket` lie inside the node section.
pub open spec fn bucket_fits(v: ArcView, bucket: HashBucket) -> bool {
    forall|k: int|
        0 <= k < bucket.num_entries ==> #[trigger] pair_offset(v, bucket, k) + ENTRY_PAIR_SIZE
            <= v.buffer.len()
}

/// Whether the `k`-th pair of `bucket` carries `hash`.
pub open spec fn carries(v: ArcView, bucket: HashBucket, k: int, hash: u64) -> bool {
    pair_at(v.buffer, pair_offset(v, bucket, k)).hash == hash
}

proof fn lemma_scan(v: ArcView, bucket: HashBucket, hash: u64, j: int)
    requires
        0 <= j <= bucket.num_entries,
    ensures
        scan(v, bucket, hash, j) matches Ok(p) ==> p.hash == hash && exists|k: int|
            j <= k < bucket.num_entries && p == pair_at(v.buffer, #[trigger] pair_offset(v, bucket, k)),
        bucket_fits(v, bucket) ==> (scan(v, bucket, hash, j) is Ok <==> exists|k: int|
            j <= k < bucket.num_entries && #[trigger] carries(v, bucket, k, hash)),
        bucket_fits(v, bucket) ==> (scan(v, bucket, hash, j) is Ok || scan(v, bucket, hash, j)
            == Err::<EntryPair, Fault>(Fault::NotFound)),
    decreases bucket.num_entries - j,
{
    if j < bucket.num_entries {
        lemma_scan(v, bucket, hash, j + 1);
        if bucket_fits(v, bucket) {
            assert(pair_offset(v, bucket, j) + ENTRY_PAIR_SIZE <= v.buffer.len());
            if carries(v, bucket, j, hash) {
            } else {
                assert forall|k: int| j <= k < bucket.num_entries && #[trigger] carries(
                    v,
                    bucket,
                    k,
                    hash,
                ) implies j + 1 <= k by {}
            }
        }
    }
}

/// Scanning a bucket returns only one of its pairs, and one that carries the
/// hash asked for. Where all its pairs lie inside the node section, the scan
/// succeeds exactly when one of them carries the hash, and otherwise reports
/// that nothing was found, never a pair beyond the bucket.
pub proof fn lemma_bucket_search(v: ArcView, bucket: HashBucket, hash: u64)
    ensures
        scan(v, bucket, hash, 0) matches Ok(p) ==> p.hash == hash && exists|k: int|
            0 <= k < bucket.num_entries && p == pair_at(v.buffer, #[trigger] pair_offset(v, bucket, k)),
        bucket_fits(v, bucket) ==> (scan(v, bucket, hash, 0) is Ok <==> exists|k: int|
            0 <= k < bucket.num_entries && #[trigger] carries(v, bucket, k, hash)),
        bucket_fits(v, bucket) && scan(v, bucket, hash, 0) is Err ==> scan(v, bucket, hash, 0)
            == Err::<EntryPair, Fault>(Fault::NotFound),
{
    lemma_scan(v, bucket, hash, 0);
}

/// A lookup returns only a pair that carries the hash asked for, and one of
/// the pairs of that hash's bucket.
pub proof fn lemma_lookup_sound(v: ArcView, hash: u64)
    ensures
        lookup(v, hash) matches Ok(p) ==> p.hash == hash && exists|k: int|
            0 <= k < bucket_of(v, hash).num_entries && p == pair_at(
                v.buffer,
                #[trigger] pair_offset(v, bucket_of(v, hash), k),
            ),
{
    if num_buckets(v) != 0 && bucket_offset(v, hash) + HASH_BUCKET_SIZE <= v.buffer.len() {
        lemma_scan(v, bucket_of(v, hash), hash, 0);
    }
}

/// Where the bucket of a hash and all its pairs lie inside the node section,
/// the lookup succeeds exactly when one of those pairs carries the hash, and
/// otherwise reports that nothing was found, never another pair.
pub proof fn lemma_lookup_complete(v: ArcView, hash: u64)
    requires
        num_buckets(v) > 0,
        bucket_offset(v, hash) + HASH_BUCKET_SIZE <= v.buffer.len(),
        bucket_fits(v, bucket_of(v, hash)),
    ensures
        lookup(v, hash) is Ok <==> exists|k: int|
            0 <= k < bucket_of(v, hash).num_entries && #[trigger] carries(
                v,
                bucket_of(v, hash),
                k,
                hash,
            ),
        lookup(v, hash) is Err ==> lookup(v, hash) == Err::<EntryPair, Fault>(Fault::NotFound),
{
    lemma_scan(v, bucket_of(v, hash), hash, 0);
}

/// Where a file's compressed data lies in the archive, and its sizes.
#[derive(Clone, Copy, Debug, PartialEq, Eq, Structural)]
pub struct FileLocation {
    /// Byte offset from the start of the archive.
    pub offset: u64,
    pub comp_size: u32,
    pub decomp_size: u32,
}

/// The index, in the first sub-file table, of the file entry of `tree`.
pub open spec fn file_entry_index(v: ArcView, tree: TreeEntry) -> Result<int, Fault> {
    match tree_link_of(tree.flags) {
        TreeLink::Redirect => Err(Fault::RedirectEntry),
        TreeLink::Direct => Ok(tree.suboffset_index as int),
        TreeLink::ViaExtension => {
            let off = sub_files1_at(v.node) + FILE_ENTRY_SIZE * tree.ext.meta;
            if off + FILE_ENTRY_SIZE > v.buffer.len() {
                Err(Fault::OutOfBounds)
            } else if file_entry_at(v.buffer, off).flags & FILE_SUBOFFSET_REDIRECT != 0 {
                Ok(tree.ext.meta + redirect_step_of(file_entry_at(v.buffer, off).flags))
            } else {
                Ok(tree.ext.meta as int)
            }
        },
    }
}

/// Where the file that the lookup pair `entry` names lies: its tree entry
/// leads to its file entry, which gives its sizes and its sub-offset, and to
/// its folder's hash entry, which leads to the folder's base offset.
pub open spec fn resolve(v: ArcView, entry: EntryPair) -> Result<FileLocation, Fault> {
    let len = v.buffer.len();
    let tree_off = trees_at(v.node) + TREE_ENTRY_SIZE * entry.meta;
    if tree_off + TREE_ENTRY_SIZE > len {
        Err(Fault::OutOfBounds)
    } else {
        let tree = tree_entry_at(v.buffer, tree_off);
        match file_entry_index(v, tree) {
            Err(f) => Err(f),
            Ok(index) => {
                let sub_off = sub_files1_at(v.node) + FILE_ENTRY_SIZE * index;
                let hash_off = big_hashes_at(v.node) + BIG_HASH_ENTRY_SIZE * tree.path.meta;
                if sub_off + FILE_ENTRY_SIZE > len || hash_off + BIG_HASH_ENTRY_SIZE > len {
                    Err(Fault::OutOfBounds)
                } else {
                    let sub = file_entry_at(v.buffer, sub_off);
                    let big_hash = big_hash_entry_at(v.buffer, hash_off);
                    let big_off = big_files_at(v.node) + BIG_FILE_ENTRY_SIZE * big_hash.path.meta;
                    if big_off + BIG_FILE_ENTRY_SIZE > len {
                        Err(Fault::OutOfBounds)
                    } else {
                        let big_file = big_file_entry_at(v.buffer, big_off);
                        let offset = v.header.file_section_offset + big_file.offset + 4
                            * sub.offset;
                        match codec_of(sub.flags) {
                            Codec::Stored => Err(Fault::StoredSubFile),
                            Codec::Unknown => Err(Fault::UnknownCompression),
                            Codec::Zstd => if offset > u64::MAX {
                                Err(Fault::OffsetOverflow)
                            } else {
                                Ok(
                                    FileLocation {
                                        offset: offset as u64,
                                        comp_size: sub.comp_size,
                                        decomp_size: sub.decomp_size,
                                    },
                                )
                            },
                        }
                    }
                }
            },
        }
    }
}

/// Where the file whose path hashes to `hash` lies.
pub open spec fn location(v: ArcView, hash: u64) -> Result<FileLocation, Fault> {
    match lookup(v, hash) {
        Ok(entry) => resolve(v, entry),
        Err(f) => Err(f),
    }
}

/// The parts of an archive that its lookups read.
pub struct ArcView {
    pub header: ArcHeader,
    pub node: NodeHeader,
    /// The node section's tables, without the node header.
    pub buffer: Seq<u8>,
}

/// An opened archive.
pub struct DataArc {
    header: ArcHeader,
    node_header: NodeHeader,
    buffer: Vec<u8>,
    first_hash_bucket: HashBucket,
    offsets: SectionOffsets,
}

impl View for DataArc {
    type V = ArcView;

    closed spec fn view(&self) -> ArcView {
        ArcView { header: self.header, node: self.node_header, buffer: self.buffer@ }
    }
}

/// The offset of record `index` of a table at `base` with records of `size`
/// bytes, where that record lies inside a buffer of `len` bytes.
fn slot(len: usize, base: usize, size: usize, index: u64) -> (r: Option<usize>)
    requires
        base <= len,
        1 <= size <= 0x40,
        index <= 0x2_0000_0000,
    ensures
        r == (if base + size * index + size <= len {
            Some((base + size * index) as usize)
        } else {
            None
        }),
{
    assert(size as u64 * index <= 0x40 * 0x2_0000_0000) by (nonlinear_arith)
        requires
            size <= 0x40,
            index <= 0x2_0000_0000,
    ;
    let start = match (base as u64).checked_add(size as u64 * index) {
        Some(start) => start,
        None => {
            return None;
        },
    };
    if start <= len as u64 && size as u64 <= len as u64 - start {
        Some(start as usize)
    } else {
        None
    }
}

impl DataArc {
    #[verifier::type_invariant]
    spec fn inv(&self) -> bool {
        &&& layout_fits(self.node_header, self.buffer@)
        &&& self.first_hash_bucket == first_bucket_of(self.node_header, self.buffer@)
        &&& self.offsets == section_offsets(self.node_header, self.first_hash_bucket)
    }

    /// Reads the archive header from the first bytes of an archive (up to
    /// `0x30` of them; fewer where the data is shorter).
    pub fn read_header(start: &[u8]) -> (r: Result<ArcHeader, ParseError>)
        ensures
            !has_magic(start@) <==> r matches Err(ParseError::NotDataArc),
            has_magic(start@) && start@.len() < MAGIC_SIZE + ARC_HEADER_SIZE ==> r matches Err(
                ParseError::InternalError(ArcError::TruncatedHeader),
            ),
            has_magic(start@) && start@.len() >= MAGIC_SIZE + ARC_HEADER_SIZE ==> r == Ok::<
                ArcHeader,
                ParseError,
            >(arc_header_at(start@, MAGIC_SIZE as int)),
    {
        if start.len() < MAGIC_SIZE || read_u64(start, 0) != MAGIC {
            return Err(ParseError::NotDataArc);
        }
        match read_arc_header(start, MAGIC_SIZE) {
            Some(header) => Ok(header),
            None => Err(ParseError::InternalError(ArcError::TruncatedHeader)),
        }
    }

    /// The length of the node section, read from its first bytes (up to
    /// `NODE_HEADER_SIZE` of them).
    pub fn node_section_len(node_start: &[u8]) -> (r: Result<usize, ArcError>)
        ensures
            node_section_error(node_start@) matches Some(e) ==> r == Err::<usize, ArcError>(e),
            node_section_error(node_start@) is None ==> r == Ok::<usize, ArcError>(
                node_header_at(node_start@, 0).file_size as usize,
            ),
    {
        match DataArc::read_node_start(node_start) {
            Ok(node) => Ok(node.file_size as usize),
            Err(e) => Err(e),
        }
    }

    /// The node header at the start of a node section, once the section is
    /// known to be neither compressed nor too short.
    fn read_node_start(b: &[u8]) -> (r: Result<NodeHeader, ArcError>)
        ensures
            node_section_error(b@) matches Some(e) ==> r == Err::<NodeHeader, ArcError>(e),
            node_section_error(b@) is None ==> r == Ok::<NodeHeader, ArcError>(
                node_header_at(b@, 0),
            ),
    {
        if !fits(b, 0, COMPRESSED_NODE_SENTINEL_SIZE) {
            return Err(ArcError::NodeSectionSize);
        }
        if read_u32(b, 0) < COMPRESSED_NODE_LIMIT {
            return Err(ArcError::CompressedNodeSection);
        }
        match read_node_header(b, 0) {
            Some(node) => {
                if (node.file_size as usize) < NODE_HEADER_SIZE {
                    Err(ArcError::NodeSectionSize)
                } else {
                    Ok(node)
                }
            },
            None => Err(ArcError::NodeSectionSize),
        }
    }

    /// Opens an archive whose magic number has been checked, from its header
    /// and its whole node section (node header included).
    pub fn internal_new(header: ArcHeader, node_section: Vec<u8>) -> (r: Result<
        DataArc,
        ArcError,
    >)
        ensures
            match opened(header, node_section@) {
                Ok(v) => r is Ok && r->Ok_0@ == v,
                Err(e) => r == Err::<DataArc, ArcError>(e),
            },
            r is Ok ==> layout_fits(r->Ok_0@.node, r->Ok_0@.buffer),
    {
        let node_header = match DataArc::read_node_start(node_section.as_slice()) {
            Ok(node) => node,
            Err(e) => {
                return Err(e);
            },
        };
        if node_section.len() != node_header.file_size as usize {
            return Err(ArcError::NodeSectionSize);
        }
        let mut node_section = node_section;
        let buffer = node_section.split_off(NODE_HEADER_SIZE);
        match build_offsets(&node_header, buffer.as_slice()) {
            None => Err(ArcError::OutOfBounds),
            Some((offsets, first_hash_bucket)) => Ok(
                DataArc { header, node_header, buffer, first_hash_bucket, offsets },
            ),
        }
    }

    /// Opens an archive from its first bytes (as `read_header` takes them)
    /// and its whole node section.
    pub fn new(start: &[u8], node_section: Vec<u8>) -> (r: Result<DataArc, ParseError>)
        ensures
            !has_magic(start@) ==> r matches Err(ParseError::NotDataArc),
            has_magic(start@) && start@.len() < MAGIC_SIZE + ARC_HEADER_SIZE ==> r matches Err(
                ParseError::InternalError(ArcError::TruncatedHeader),
            ),
            has_magic(start@) && start@.len() >= MAGIC_SIZE + ARC_HEADER_SIZE ==> match opened(
                arc_header_at(start@, MAGIC_SIZE as int),
                node_section@,
            ) {
                Ok(v) => r is Ok && r->Ok_0@ == v,
                Err(e) => r == Err::<DataArc, ParseError>(ParseError::InternalError(e)),
            },
            r is Ok ==> layout_fits(r->Ok_0@.node, r->Ok_0@.buffer),
    {
        let header = match DataArc::read_header(start) {
            Ok(header) => header,
            Err(e) => {
                return Err(e);
            },
        };
        match DataArc::internal_new(header, node_section) {
            Ok(arc) => Ok(arc),
            Err(e) => Err(ParseError::InternalError(e)),
        }
    }

    pub fn header(&self) -> (r: ArcHeader)
        ensures
            r == self@.header,
    {
        self.header
    }

    pub fn node_header(&self) -> (r: NodeHeader)
        ensures
            r == self@.node,
    {
        self.node_header
    }

    /// The node section's tables, without the node header.
    pub fn buffer(&self) -> (r: &[u8])
        ensures
            r@ == self@.buffer,
    {
        self.buffer.as_slice()
    }

    /// Where each table starts in `buffer()`.
    pub fn offsets(&self) -> (r: SectionOffsets)
        ensures
            r == section_offsets(self@.node, first_bucket_of(self@.node, self@.buffer)),
            layout_fits(self@.node, self@.buffer),
    {
        proof {
            use_type_invariant(self);
        }
        self.offsets
    }

    /// Finds, among the pairs of `bucket`, the first whose hash is `hash`.
    pub fn bucket_search(&self, hash: u64, bucket: &HashBucket) -> (r: Result<EntryPair, Fault>)
        ensures
            r == scan(self@, *bucket, hash, 0),
    {
        proof {
            use_type_invariant(self);
        }
        let len = self.buffer.len();
        let mut j: u32 = 0;
        while j < bucket.num_entries
            invariant
                j <= bucket.num_entries,
                len == self.buffer@.len(),
                self.offsets.file_lookup as int == file_lookup_at(
                    self.node_header,
                    self.first_hash_bucket,
                ),
                self.first_hash_bucket == first_bucket_of(self.node_header, self.buffer@),
                layout_fits(self.node_header, self.buffer@),
                scan(self@, *bucket, hash, 0) == scan(self@, *bucket, hash, j as int),
            decreases bucket.num_entries - j,
        {
            let off = match slot(
                len,
                self.offsets.file_lookup,
                ENTRY_PAIR_SIZE,
                bucket.index as u64 + j as u64,
            ) {
                Some(off) => off,
                None => {
                    return Err(Fault::OutOfBounds);
                },
            };
            let pair = match read_pair(self.buffer.as_slice(), off) {
                Some(pair) => pair,
                None => {
                    return Err(Fault::OutOfBounds);
                },
            };
            if pair.hash == hash {
                return Ok(pair);
            }
            j = j + 1;
        }
        Err(Fault::NotFound)
    }

    /// The index, in the first sub-file table, of the file entry of `tree`.
    fn file_entry_index(&self, tree: &TreeEntry) -> (r: Result<u64, Fault>)
        ensures
            match file_entry_index(self@, *tree) {
                Ok(i) => r == Ok::<u64, Fault>(i as u64) && i <= 0x2_0000_0000,
                Err(f) => r == Err::<u64, Fault>(f),
            },
    {
        proof {
            use_type_invariant(self);
        }
        match tree.link() {
            TreeLink::Redirect => Err(Fault::RedirectEntry),
            TreeLink::Direct => Ok(tree.suboffset_index as u64),
            TreeLink::ViaExtension => {
                let off = match slot(
                    self.buffer.len(),
                    self.offsets.sub_files1,
                    FILE_ENTRY_SIZE,
                    tree.ext.meta as u64,
                ) {
                    Some(off) => off,
                    None => {
                        return Err(Fault::OutOfBounds);
                    },
                };
                match read_file_entry(self.buffer.as_slice(), off) {
                    None => Err(Fault::OutOfBounds),
                    Some(entry) => match entry.redirect_step() {
                        Some(step) => Ok(tree.ext.meta as u64 + step as u64),
                        None => Ok(tree.ext.meta as u64),
                    },
                }
            },
        }
    }

    /// Follows the lookup pair `entry` to where its file lies.
    pub fn resolve(&self, entry: &EntryPair) -> (r: Result<FileLocation, Fault>)
        ensures
            r == resolve(self@, *entry),
    {
        proof {
            use_type_invariant(self);
        }
        let len = self.buffer.len();
        let buffer = self.buffer.as_slice();
        let tree = match slot(len, self.offsets.trees, TREE_ENTRY_SIZE, entry.meta as u64) {
            Some(off) => match read_tree_entry(buffer, off) {
                Some(tree) => tree,
                None => {
                    return Err(Fault::OutOfBounds);
                },
            },
            None => {
                return Err(Fault::OutOfBounds);
            },
        };
        let index = match self.file_entry_index(&tree) {
            Ok(index) => index,
            Err(f) => {
                return Err(f);
            },
        };
        let sub = match slot(len, self.offsets.sub_files1, FILE_ENTRY_SIZE, index) {
            Some(off) => read_file_entry(buffer, off),
            None => None,
        };
        let big_hash = match slot(
            len,
            self.offsets.big_hashes,
            BIG_HASH_ENTRY_SIZE,
            tree.path.meta as u64,
        ) {
            Some(off) => read_big_hash_entry(buffer, off),
            None => None,
        };
        let (sub, big_hash) = match (sub, big_hash) {
            (Some(sub), Some(big_hash)) => (sub, big_hash),
            _ => {
                return Err(Fault::OutOfBounds);
            },
        };
        let big_file = match slot(
            len,
            self.offsets.big_files,
            BIG_FILE_ENTRY_SIZE,
            big_hash.path.meta as u64,
        ) {
            Some(off) => match read_big_file_entry(buffer, off) {
                Some(big_file) => big_file,
                None => {
                    return Err(Fault::OutOfBounds);
                },
            },
            None => {
                return Err(Fault::OutOfBounds);
            },
        };
        match sub.codec() {
            Codec::Stored => Err(Fault::StoredSubFile),
            Codec::Unknown => Err(Fault::UnknownCompression),
            Codec::Zstd => {
                let base = match self.header.file_section_offset.checked_add(big_file.offset) {
                    Some(base) => base,
                    None => {
                        return Err(Fault::OffsetOverflow);
                    },
                };
                match base.checked_add(4 * sub.offset as u64) {
                    Some(offset) => Ok(
                        FileLocation {
                            offset,
                            comp_size: sub.comp_size,
                            decomp_size: sub.decomp_size,
                        },
                    ),
                    None => Err(Fault::OffsetOverflow),
                }
            },
        }
    }

    /// Where the file with path `file_name` lies in the archive.
    pub fn locate(&self, file_name: &str) -> (r: Result<FileLocation, GetFileError>)
        ensures
            match location(self@, hash40_of(file_name.spec_bytes())) {
                Ok(loc) => r is Ok && r->Ok_0 == loc,
                Err(f) => r is Err && reports(r->Err_0, f, file_name@),
            },
    {
        let hash = hash40(file_name);
        let found = match self.lookup(hash) {
            Ok(entry) => self.resolve(&entry),
            Err(f) => Err(f),
        };
        match found {
            Ok(loc) => Ok(loc),
            Err(f) => Err(report(f, file_name)),
        }
    }

    /// Finds the pair of the file lookup table that the index gives for `hash`.
    pub fn lookup(&self, hash: u64) -> (r: Result<EntryPair, Fault>)
        ensures
            r == lookup(self@, hash),
    {
        proof {
            use_type_invariant(self);
        }
        let num_buckets = self.first_hash_bucket.num_entries;
        if num_buckets == 0 {
            return Err(Fault::NotFound);
        }
        let bucket_id = hash % (num_buckets as u64) + 1;
        let off = match slot(
            self.buffer.len(),
            self.offsets.file_lookup_buckets,
            HASH_BUCKET_SIZE,
            bucket_id,
        ) {
            Some(off) => off,
            None => {
                return Err(Fault::OutOfBounds);
            },
        };
        match read_hash_bucket(self.buffer.as_slice(), off) {
            Some(bucket) => self.bucket_search(hash, &bucket),
            None => Err(Fault::OutOfBounds),
        }
    }
}

} // verus!
