use ultimate_data_arc::records::{
    FILE_SUBOFFSET_REDIRECT, MAGIC, NODE_HEADER_SIZE, TREE_REDIRECT, TREE_SUBOFFSET_DIRECT,
};
use ultimate_data_arc::{extract, hash40, ArcError, DataArc, GetFileError, ParseError};

const ZSTD: u32 = 0x3;

fn put_u16(out: &mut Vec<u8>, v: u16) {
    out.extend_from_slice(&v.to_le_bytes());
}

fn put_u32(out: &mut Vec<u8>, v: u32) {
    out.extend_from_slice(&v.to_le_bytes());
}

fn put_u64(out: &mut Vec<u8>, v: u64) {
    out.extend_from_slice(&v.to_le_bytes());
}

fn put_pair(out: &mut Vec<u8>, hash: u64, meta: u32) {
    out.extend_from_slice(&hash.to_le_bytes()[..5]);
    out.extend_from_slice(&meta.to_le_bytes()[..3]);
}

fn tree(path_meta: u32, ext_meta: u32, suboffset_index: u32, flags: u32) -> Vec<u8> {
    let mut t = Vec::new();
    put_pair(&mut t, 0x11, path_meta);
    put_pair(&mut t, 0x22, ext_meta);
    put_pair(&mut t, 0x33, 0);
    put_pair(&mut t, 0x44, 0);
    put_u32(&mut t, suboffset_index);
    put_u32(&mut t, flags);
    assert_eq!(t.len(), 0x28);
    t
}

fn file_entry(offset: u32, comp_size: u32, decomp_size: u32, flags: u32) -> Vec<u8> {
    let mut f = Vec::new();
    put_u32(&mut f, offset);
    put_u32(&mut f, comp_size);
    put_u32(&mut f, decomp_size);
    put_u32(&mut f, flags);
    f
}

/// What goes into a test archive.
struct Layout {
    trees: Vec<Vec<u8>>,
    subs: Vec<Vec<u8>>,
    /// (hash, tree index) pairs of the file lookup table.
    lookup: Vec<(u64, u32)>,
    num_buckets: u32,
    /// The file section; the folder's data starts at byte 16 of it.
    data: Vec<u8>,
    file_section_offset: Option<u64>,
}

const FOLDER_BASE: u64 = 16;

fn node_section(l: &Layout) -> Vec<u8> {
    let mut payload = Vec::new();
    // big hashes: one folder whose path meta names big file 0
    put_pair(&mut payload, 0x55, 0);
    put_pair(&mut payload, 0x66, 0);
    put_pair(&mut payload, 0x77, 0);
    put_pair(&mut payload, 0x88, 0);
    for _ in 0..5 {
        put_u32(&mut payload, 0);
    }
    assert_eq!(payload.len(), 0x34);
    // big files: one entry
    put_u64(&mut payload, FOLDER_BASE);
    for _ in 0..5 {
        put_u32(&mut payload, 0);
    }
    assert_eq!(payload.len(), 0x50);
    for t in &l.trees {
        payload.extend_from_slice(t);
    }
    for s in &l.subs {
        payload.extend_from_slice(s);
    }
    // folder to big hash: one pair per folder
    put_pair(&mut payload, 0x99, 0);
    // buckets, grouped by hash % num_buckets
    let mut sorted: Vec<(u64, u32)> = l.lookup.clone();
    if l.num_buckets > 0 {
        sorted.sort_by_key(|&(h, _)| (h % l.num_buckets as u64, h));
    }
    put_u32(&mut payload, 0);
    put_u32(&mut payload, l.num_buckets);
    for b in 0..l.num_buckets as u64 {
        let start = sorted.iter().position(|&(h, _)| h % l.num_buckets as u64 == b);
        let count = sorted.iter().filter(|&&(h, _)| h % l.num_buckets as u64 == b).count();
        put_u32(&mut payload, start.unwrap_or(0) as u32);
        put_u32(&mut payload, count as u32);
    }
    for &(h, meta) in &sorted {
        put_pair(&mut payload, h, meta);
    }

    let mut node = Vec::new();
    put_u32(&mut node, (NODE_HEADER_SIZE + payload.len()) as u32); // file_size
    put_u32(&mut node, 1); // folder_count
    put_u32(&mut node, 1); // file_count1
    put_u32(&mut node, l.trees.len() as u32); // tree_count
    put_u32(&mut node, l.subs.len() as u32); // sub_files1_count
    put_u32(&mut node, sorted.len() as u32); // file_lookup_count
    put_u32(&mut node, 0); // hash_folder_count
    put_u32(&mut node, 0); // file_information_count
    put_u32(&mut node, 0); // file_count2
    put_u32(&mut node, 0); // sub_files2_count
    put_u32(&mut node, 0); // unk1
    put_u32(&mut node, 0); // unk2
    node.push(0); // another_hash_table_size
    node.push(0); // unk3
    put_u16(&mut node, 0); // unk4
    for _ in 0..4 {
        put_u32(&mut node, 0); // movie, part1, part2, music_file counts
    }
    assert_eq!(node.len(), NODE_HEADER_SIZE);
    node.extend_from_slice(&payload);
    node
}

fn assemble(l: &Layout) -> Vec<u8> {
    let node = node_section(l);
    let file_section = 0x30 + node.len() as u64;
    let mut out = Vec::new();
    put_u64(&mut out, MAGIC);
    put_u64(&mut out, 0);
    put_u64(&mut out, l.file_section_offset.unwrap_or(file_section));
    put_u64(&mut out, 0);
    put_u64(&mut out, 0x30);
    put_u64(&mut out, 0);
    out.extend_from_slice(&node);
    out.extend_from_slice(&l.data);
    out
}

fn content(seed: u8, len: usize) -> Vec<u8> {
    (0..len).map(|i| (i as u8).wrapping_mul(seed).wrapping_add(i as u8 / 7)).collect()
}

const PATHS: [&str; 3] = [
    "fighter/mario/model/body/c00/model.numdlb",
    "prebuilt:/nro/release/lua2cpp_mewtwo.nro",
    "sound/bank/fighter/se_mario.nus3audio",
];

/// Three zstd files: the first two reach their file entry through the
/// extension index, the third through `suboffset_index`.
fn standard_layout() -> (Layout, Vec<Vec<u8>>) {
    let contents = vec![content(3, 1000), content(7, 20), content(11, 4096)];
    let mut data = vec![0u8; FOLDER_BASE as usize];
    let mut subs = Vec::new();
    for c in &contents {
        while data.len() % 4 != 0 {
            data.push(0xee);
        }
        let compressed = zstd::block::compress(c, 0).unwrap();
        let rel = (data.len() as u64 - FOLDER_BASE) / 4;
        subs.push(file_entry(rel as u32, compressed.len() as u32, c.len() as u32, ZSTD));
        data.extend_from_slice(&compressed);
    }
    let trees = vec![
        tree(0, 0, 0, 0),
        tree(0, 1, 0, 0),
        tree(0, 9, 2, TREE_SUBOFFSET_DIRECT),
    ];
    let lookup = PATHS.iter().enumerate().map(|(i, p)| (hash40(p), i as u32)).collect();
    let layout = Layout { trees, subs, lookup, num_buckets: 2, data, file_section_offset: None };
    (layout, contents)
}

fn open(bytes: &[u8]) -> Result<DataArc, ParseError> {
    let start = &bytes[..bytes.len().min(0x30)];
    let header = DataArc::read_header(start)?;
    let node_off = header.node_section_offset as usize;
    let node_start = &bytes[node_off..(node_off + NODE_HEADER_SIZE).min(bytes.len())];
    let len = DataArc::node_section_len(node_start).map_err(ParseError::InternalError)?;
    DataArc::new(start, bytes[node_off..node_off + len].to_vec())
}

fn get_file(bytes: &[u8], arc: &DataArc, path: &str) -> Result<Vec<u8>, GetFileError> {
    let loc = arc.locate(path)?;
    let start = loc.offset as usize;
    extract(path, &loc, &bytes[start..start + loc.comp_size as usize])
}

#[test]
fn hash40_of_empty_path_is_zero() {
    assert_eq!(hash40(""), 0);
}

#[test]
fn hash40_known_value() {
    // CRC-32 of "123456789" is 0xcbf43926; the length tag is 9.
    assert_eq!(hash40("123456789"), 0x09_cbf4_3926);
    assert_eq!(hash40("a"), 0x01_e8b7_be43);
}

#[test]
fn hash40_is_deterministic_and_40_bits() {
    let long = "x".repeat(300);
    assert_eq!(hash40(&long), hash40(&long.clone()));
    assert!(hash40(&long) < 1 << 40);
    assert_eq!(hash40(&long) >> 32, 300 & 0xff);
}

#[test]
fn wrong_magic_is_not_data_arc() {
    let mut bytes = assemble(&standard_layout().0);
    bytes[0] ^= 1;
    assert!(matches!(open(&bytes), Err(ParseError::NotDataArc)));
    let zeros = vec![0u8; 0x200];
    assert!(matches!(DataArc::read_header(&zeros), Err(ParseError::NotDataArc)));
}

#[test]
fn truncated_file_is_not_data_arc() {
    let bytes = assemble(&standard_layout().0);
    for n in 0..8 {
        assert!(matches!(DataArc::read_header(&bytes[..n]), Err(ParseError::NotDataArc)));
        assert!(matches!(DataArc::new(&bytes[..n], Vec::new()), Err(ParseError::NotDataArc)));
    }
}

#[test]
fn magic_with_short_header_is_internal_error() {
    let bytes = assemble(&standard_layout().0);
    assert!(matches!(
        DataArc::read_header(&bytes[..0x20]),
        Err(ParseError::InternalError(ArcError::TruncatedHeader))
    ));
}

#[test]
fn header_fields_are_read() {
    let bytes = assemble(&standard_layout().0);
    let header = DataArc::read_header(&bytes[..0x30]).unwrap();
    assert_eq!(header.node_section_offset, 0x30);
    assert_eq!(header.music_file_section_offset, 0);
}

#[test]
fn compressed_node_section_is_unsupported() {
    let mut bytes = assemble(&standard_layout().0);
    // data_start of the compressed node header is the node section's first word
    bytes[0x30..0x34].copy_from_slice(&0x10u32.to_le_bytes());
    assert!(matches!(
        DataArc::node_section_len(&bytes[0x30..0x30 + 0x44]),
        Err(ArcError::CompressedNodeSection)
    ));
    assert!(matches!(
        open(&bytes),
        Err(ParseError::InternalError(ArcError::CompressedNodeSection))
    ));
    assert!(matches!(
        DataArc::new(&bytes[..0x30], bytes[0x30..0x200].to_vec()),
        Err(ParseError::InternalError(ArcError::CompressedNodeSection))
    ));
}

#[test]
fn node_section_length_is_file_size() {
    let (layout, _) = standard_layout();
    let node = node_section(&layout);
    assert_eq!(DataArc::node_section_len(&node[..0x44]).unwrap(), node.len());
    assert!(matches!(DataArc::node_section_len(&node[..8]), Err(ArcError::NodeSectionSize)));
}

#[test]
fn node_section_of_wrong_length_is_refused() {
    let bytes = assemble(&standard_layout().0);
    let (layout, _) = standard_layout();
    let node = node_section(&layout);
    let mut longer = node.clone();
    longer.push(0);
    assert!(matches!(
        DataArc::new(&bytes[..0x30], longer),
        Err(ParseError::InternalError(ArcError::NodeSectionSize))
    ));
    let mut shorter = node.clone();
    shorter.pop();
    assert!(matches!(
        DataArc::new(&bytes[..0x30], shorter),
        Err(ParseError::InternalError(ArcError::NodeSectionSize))
    ));
}

#[test]
fn tables_past_the_end_are_out_of_bounds() {
    let bytes = assemble(&standard_layout().0);
    let (layout, _) = standard_layout();
    let mut node = node_section(&layout);
    // tree_count far larger than the section holds
    node[0xc..0x10].copy_from_slice(&0x10_0000u32.to_le_bytes());
    assert!(matches!(
        DataArc::new(&bytes[..0x30], node),
        Err(ParseError::InternalError(ArcError::OutOfBounds))
    ));
}

#[test]
fn section_offsets_partition_the_payload() {
    let (layout, _) = standard_layout();
    let bytes = assemble(&layout);
    let arc = open(&bytes).unwrap();
    let o = arc.offsets();
    assert_eq!(o.bulkfile_hash_lookup, 0);
    assert_eq!(o.big_hashes, 0);
    assert_eq!(o.big_files, 0x34);
    assert_eq!(o.folder_hash_lookup, 0x50);
    assert_eq!(o.trees, 0x50);
    assert_eq!(o.sub_files1, 0x50 + 3 * 0x28);
    assert_eq!(o.sub_files2, o.sub_files1 + 3 * 0x10);
    assert_eq!(o.folder_to_big_hash, o.sub_files2);
    assert_eq!(o.file_lookup_buckets, o.folder_to_big_hash + 8);
    assert_eq!(o.file_lookup, o.file_lookup_buckets + 3 * 8);
    assert_eq!(o.numbers, o.file_lookup + 3 * 8);
    // the numbers table is empty here, so the tables fill the payload exactly
    assert_eq!(o.numbers, arc.buffer().len());
    assert_eq!(arc.buffer().len() + NODE_HEADER_SIZE, arc.node_header().file_size as usize);
}

#[test]
fn get_file_round_trip() {
    let (layout, contents) = standard_layout();
    let bytes = assemble(&layout);
    let arc = open(&bytes).unwrap();
    for (path, expected) in PATHS.iter().zip(&contents) {
        let loc = arc.locate(path).unwrap();
        assert_eq!(loc.decomp_size as usize, expected.len());
        let data = get_file(&bytes, &arc, path).unwrap();
        assert_eq!(&data, expected);
        assert_eq!(get_file(&bytes, &arc, path).unwrap(), data);
    }
}

#[test]
fn location_adds_section_folder_and_sub_offset() {
    let (layout, _) = standard_layout();
    let bytes = assemble(&layout);
    let arc = open(&bytes).unwrap();
    let file_section = arc.header().file_section_offset;
    let loc = arc.locate(PATHS[0]).unwrap();
    assert_eq!(loc.offset, file_section + FOLDER_BASE);
    let loc2 = arc.locate(PATHS[1]).unwrap();
    assert_eq!((loc2.offset - file_section - FOLDER_BASE) % 4, 0);
    assert!(loc2.offset >= loc.offset + loc.comp_size as u64);
}

#[test]
fn lookup_returns_pair_with_the_queried_hash() {
    let (layout, _) = standard_layout();
    let bytes = assemble(&layout);
    let arc = open(&bytes).unwrap();
    for (i, path) in PATHS.iter().enumerate() {
        let pair = arc.lookup(hash40(path)).unwrap();
        assert_eq!(pair.hash, hash40(path));
        assert_eq!(pair.meta, i as u32);
    }
}

#[test]
fn absent_hash_is_not_found() {
    let (layout, _) = standard_layout();
    let bytes = assemble(&layout);
    let arc = open(&bytes).unwrap();
    let known: Vec<u64> = PATHS.iter().map(|p| hash40(p)).collect();
    // same buckets as the known hashes, but no pair carries them
    for h in [known[0] ^ 0x2, known[1] ^ 0x4_0000_0000, 0x12_3456_789a] {
        assert!(!known.contains(&h));
        assert!(arc.lookup(h).is_err());
    }
    assert!(matches!(arc.locate("no/such/file"), Err(GetFileError::FileNotFound)));
}

#[test]
fn archive_without_buckets_finds_nothing() {
    let (mut layout, _) = standard_layout();
    layout.num_buckets = 0;
    let bytes = assemble(&layout);
    let arc = open(&bytes).unwrap();
    assert!(matches!(arc.locate(PATHS[0]), Err(GetFileError::FileNotFound)));
}

#[test]
fn redirecting_tree_entry_is_unsupported() {
    let (mut layout, _) = standard_layout();
    layout.trees[0] = tree(0, 0, 0, TREE_REDIRECT);
    let bytes = assemble(&layout);
    let arc = open(&bytes).unwrap();
    assert!(matches!(
        arc.locate(PATHS[0]),
        Err(GetFileError::InternalError(ArcError::RedirectEntry))
    ));
}

#[test]
fn redirecting_file_entry_adds_its_step() {
    let (mut layout, contents) = standard_layout();
    // file entry 0 sends the first path on to file entry 0 + 1
    layout.subs[0] = file_entry(0, 0, 0, FILE_SUBOFFSET_REDIRECT | (1 << 8));
    let bytes = assemble(&layout);
    let arc = open(&bytes).unwrap();
    assert_eq!(arc.locate(PATHS[0]).unwrap(), arc.locate(PATHS[1]).unwrap());
    assert_eq!(get_file(&bytes, &arc, PATHS[0]).unwrap(), contents[1]);
}

#[test]
fn stored_sub_file_is_unsupported() {
    let (mut layout, _) = standard_layout();
    layout.subs[1] = file_entry(0, 4, 4, 0);
    let bytes = assemble(&layout);
    let arc = open(&bytes).unwrap();
    assert!(matches!(
        arc.locate(PATHS[1]),
        Err(GetFileError::InternalError(ArcError::StoredSubFile))
    ));
}

#[test]
fn unknown_codec_names_the_path() {
    let (mut layout, _) = standard_layout();
    layout.subs[1] = file_entry(0, 4, 4, 0x1);
    let bytes = assemble(&layout);
    let arc = open(&bytes).unwrap();
    match arc.locate(PATHS[1]) {
        Err(GetFileError::InternalError(ArcError::UnknownCompression(p))) => assert_eq!(p, PATHS[1]),
        other => panic!("unexpected {:?}", other),
    }
}

#[test]
fn entry_past_the_table_is_out_of_bounds() {
    let (mut layout, _) = standard_layout();
    layout.trees[2] = tree(0, 0, 0x00ff_ffff, TREE_SUBOFFSET_DIRECT);
    let bytes = assemble(&layout);
    let arc = open(&bytes).unwrap();
    assert!(matches!(
        arc.locate(PATHS[2]),
        Err(GetFileError::InternalError(ArcError::OutOfBounds))
    ));
}

#[test]
fn physical_offset_overflow_is_reported() {
    let (mut layout, _) = standard_layout();
    layout.file_section_offset = Some(u64::MAX - 4);
    let bytes = assemble(&layout);
    let arc = open(&bytes).unwrap();
    assert!(matches!(
        arc.locate(PATHS[0]),
        Err(GetFileError::InternalError(ArcError::OffsetOverflow))
    ));
}

#[test]
fn decompressed_size_mismatch_is_reported() {
    let (mut layout, contents) = standard_layout();
    let bytes = assemble(&layout);
    let good = open(&bytes).unwrap().locate(PATHS[0]).unwrap();
    // the entry claims more bytes than the data decompresses to
    layout.subs[0] = file_entry(0, good.comp_size, good.decomp_size + 10, ZSTD);
    let bytes = assemble(&layout);
    let arc = open(&bytes).unwrap();
    match get_file(&bytes, &arc, PATHS[0]) {
        Err(GetFileError::InternalError(ArcError::SizeMismatch { path, expected, actual })) => {
            assert_eq!(path, PATHS[0]);
            assert_eq!(expected as usize, contents[0].len() + 10);
            assert_eq!(actual, contents[0].len());
        }
        other => panic!("unexpected {:?}", other),
    }
}

#[test]
fn undecodable_data_is_a_decompression_error() {
    let loc = ultimate_data_arc::FileLocation { offset: 0, comp_size: 4, decomp_size: 16 };
    match extract("x", &loc, &[1, 2, 3, 4]) {
        Err(GetFileError::InternalError(ArcError::Decompress { path, .. })) => assert_eq!(path, "x"),
        other => panic!("unexpected {:?}", other),
    }
}

#[test]
fn bucket_of_hash_skips_the_leading_record() {
    let (layout, _) = standard_layout();
    let bytes = assemble(&layout);
    let arc = open(&bytes).unwrap();
    let o = arc.offsets();
    let buf = arc.buffer();
    let h = hash40(PATHS[1]);
    let at = o.file_lookup_buckets + 8 * (h % 2 + 1) as usize;
    let index = u32::from_le_bytes(buf[at..at + 4].try_into().unwrap());
    let count = u32::from_le_bytes(buf[at + 4..at + 8].try_into().unwrap());
    assert!(count >= 1);
    let pairs: Vec<u64> = (0..count as usize)
        .map(|k| {
            let p = o.file_lookup + 8 * (index as usize + k);
            let mut b = [0u8; 8];
            b[..5].copy_from_slice(&buf[p..p + 5]);
            u64::from_le_bytes(b)
        })
        .collect();
    assert!(pairs.contains(&h));
}

#[test]
fn compressed_sentinel_alone_is_enough() {
    let bytes = assemble(&standard_layout().0);
    for n in 4..0x44 {
        let mut node = vec![0xffu8; n];
        node[0..4].copy_from_slice(&0xffu32.to_le_bytes());
        assert!(matches!(DataArc::node_section_len(&node), Err(ArcError::CompressedNodeSection)));
        assert!(matches!(
            DataArc::new(&bytes[..0x30], node),
            Err(ParseError::InternalError(ArcError::CompressedNodeSection))
        ));
    }
    assert!(matches!(DataArc::node_section_len(&[0, 0, 0]), Err(ArcError::NodeSectionSize)));
}

#[test]
fn bucket_search_scans_only_its_bucket() {
    let (layout, _) = standard_layout();
    let bytes = assemble(&layout);
    let arc = open(&bytes).unwrap();
    let h = hash40(PATHS[0]);
    let empty = ultimate_data_arc::records::HashBucket { index: 0, num_entries: 0 };
    assert!(matches!(arc.bucket_search(h, &empty), Err(ultimate_data_arc::error::Fault::NotFound)));
    let all = ultimate_data_arc::records::HashBucket { index: 0, num_entries: 3 };
    assert_eq!(arc.bucket_search(h, &all).unwrap().hash, h);
    let beyond = ultimate_data_arc::records::HashBucket { index: 2, num_entries: 5 };
    assert!(matches!(
        arc.bucket_search(0x12_3456_789a, &beyond),
        Err(ultimate_data_arc::error::Fault::OutOfBounds)
    ));
}

#[test]
fn extract_decodes_exact_size() {
    let data = content(5, 300);
    let compressed = zstd::block::compress(&data, 0).unwrap();
    let loc = ultimate_data_arc::FileLocation {
        offset: 0,
        comp_size: compressed.len() as u32,
        decomp_size: 300,
    };
    assert_eq!(extract("f", &loc, &compressed).unwrap(), data);
    assert_eq!(extract("f", &loc, &compressed).unwrap(), data);
}

#[test]
fn data_larger_than_recorded_is_a_decompression_error() {
    let data = content(5, 300);
    let compressed = zstd::block::compress(&data, 0).unwrap();
    let loc = ultimate_data_arc::FileLocation {
        offset: 0,
        comp_size: compressed.len() as u32,
        decomp_size: 100,
    };
    match extract("f", &loc, &compressed) {
        Err(GetFileError::InternalError(ArcError::Decompress { path, .. })) => assert_eq!(path, "f"),
        other => panic!("unexpected {:?}", other),
    }
}
