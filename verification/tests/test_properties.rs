use tsk::errors::{ErrorType, TskError};
use tsk::stream::SeekFrom;
use tsk::tsk_fs::{DirEntry, FileEntry, FsLayout};
use tsk::tsk_fs_attr::{AttrRecord, ATTR_FLAG_INUSE, ATTR_FLAG_RES};
use tsk::tsk_fs_dir::TskFsDir;
use tsk::tsk_fs_file_handle::{READ_FLAG_NOID, READ_FLAG_NONE};
use tsk::tsk_fs_meta::{TskFsMeta, TskFsMetaFlag, META_FLAG_ALLOC, META_FLAG_UNALLOC, META_FLAG_USED};
use tsk::tsk_fs_name::{TskFsName, NAME_TYPE_DIR, NAME_TYPE_REG};
use tsk::tsk_img::{Catalog, TskImg};
use tsk::tsk_vs::VsLayout;
use tsk::tsk_vs_part::PartEntry;

fn prop_name(n: &str, inode: u64, ty: u32) -> TskFsName {
    TskFsName { name: Some(n.to_string()), shrt_name: None, meta_addr: inode, name_type: ty, flags: 1 }
}

fn prop_meta(addr: u64, size: i64, flags: u32) -> TskFsMeta {
    TskFsMeta { size, crtime: 10, mtime: 20, atime: 30, addr, meta_type: 1, flags }
}

fn prop_attr(id: u16, ty: u32, data: Vec<u8>) -> AttrRecord {
    AttrRecord::new(id, None, ty, ATTR_FLAG_INUSE | ATTR_FLAG_RES, data, None).expect("attr")
}

fn prop_layout() -> FsLayout {
    FsLayout {
        block_count: 100,
        block_pre_size: 0,
        block_post_size: 0,
        block_size: 512,
        dev_bsize: 512,
        first_block: 0,
        first_inum: 0,
        inum_count: 64,
        journ_inum: 8,
        last_block: 99,
        last_block_act: 99,
        last_inum: 63,
        root_inum: 2,
        dirs: vec![
            DirEntry {
                inode: 2,
                path: "/".to_string(),
                names: vec![
                    prop_name(".", 2, NAME_TYPE_DIR),
                    prop_name("..", 2, NAME_TYPE_DIR),
                    prop_name("a.txt", 10, NAME_TYPE_REG),
                    prop_name("sub", 3, NAME_TYPE_DIR),
                    prop_name("gone", 40, NAME_TYPE_DIR),
                    prop_name("z.txt", 11, NAME_TYPE_REG),
                ],
            },
            DirEntry {
                inode: 3,
                path: "/sub".to_string(),
                names: vec![
                    prop_name(".", 3, NAME_TYPE_DIR),
                    prop_name("..", 2, NAME_TYPE_DIR),
                    prop_name("inner.txt", 12, NAME_TYPE_REG),
                ],
            },
        ],
        files: vec![
            FileEntry {
                inode: 10,
                path: "/a.txt".to_string(),
                meta: Some(prop_meta(10, 6, META_FLAG_ALLOC | META_FLAG_USED)),
                default_attr: 0,
                attrs: vec![prop_attr(0, 128, b"abcdef".to_vec()), prop_attr(7, 128, b"ALTSTREAM".to_vec())],
            },
            FileEntry {
                inode: 11,
                path: "/z.txt".to_string(),
                meta: Some(prop_meta(11, 4, META_FLAG_UNALLOC)),
                default_attr: 0,
                attrs: vec![prop_attr(0, 128, b"wxyz".to_vec())],
            },
            FileEntry {
                inode: 12,
                path: "/sub/inner.txt".to_string(),
                meta: None,
                default_attr: 9,
                attrs: vec![prop_attr(0, 128, b"inner".to_vec())],
            },
        ],
    }
}

fn prop_image() -> TskImg {
    let parts = vec![
        PartEntry { addr: 0, start: 0, len: 2, desc: "part-a".to_string(), flags: 0 },
        PartEntry { addr: 1, start: 2, len: 3, desc: "part-b".to_string(), flags: 0 },
        PartEntry { addr: 2, start: 5, len: 1, desc: "part-c".to_string(), flags: 0 },
    ];
    let mut data = vec![0u8; 6 * 512];
    for (i, b) in data.iter_mut().enumerate() {
        *b = (i % 256) as u8;
    }
    TskImg::from_parts(
        data,
        Catalog {
            volume_systems: vec![(0u64, VsLayout { block_size: 512, parts })],
            file_systems: vec![(0u64, prop_layout())],
        },
    )
}

#[test]
fn partition_iteration_is_complete_and_in_order() {
    let img = prop_image();
    let vs = img.get_vs_from_offset(0).expect("vs");
    let mut it = vs.get_partition_iter().expect("iter");
    let mut descs = Vec::new();
    while let Some(p) = it.next() {
        descs.push(p.desc());
    }
    assert_eq!(descs, vec!["part-a", "part-b", "part-c"], "every entry before the end, start first");
    assert!(it.next().is_none(), "the chain stays ended");
}

#[test]
fn attr_stream_full_read_then_zero() {
    let img = prop_image();
    let fs = img.get_fs_from_offset(0).expect("fs");
    let file = fs.file_open("/a.txt").expect("file");
    let mut attr = file.get_attr().expect("attr");
    let size = attr.size() as usize;
    // From the start, reads of a full-size buffer accumulate exactly `size`
    // bytes.
    attr.seek(SeekFrom::Start(0)).expect("seek to start");
    let mut buf = vec![0u8; size];
    let mut total = 0;
    loop {
        let n = attr.read(&mut buf).expect("read");
        if n == 0 {
            break;
        }
        total += n;
    }
    assert_eq!(total, size, "cumulatively exactly `size` bytes");
    attr.seek(SeekFrom::Start(0)).expect("seek to start");
    let n = attr.read(&mut buf).expect("read");
    assert_eq!(n, size);
    assert_eq!(&buf[..], b"abcdef");
    let n2 = attr.read(&mut buf).expect("read at end");
    assert_eq!(n2, 0, "a read after reaching `size` hands back 0 bytes, not an error");
}

#[test]
fn seek_past_size_fails_in_every_mode() {
    let img = prop_image();
    let fs = img.get_fs_from_offset(0).expect("fs");
    let file = fs.file_open("/a.txt").expect("file");
    let mut attr = file.get_attr().expect("attr");
    // size is 6
    let cases = vec![
        SeekFrom::Start(7),
        SeekFrom::Current(7),
        SeekFrom::Current(-1),
        SeekFrom::End(1),
        SeekFrom::End(-7),
    ];
    for pos in cases {
        let r = attr.seek(pos);
        assert!(r.is_err(), "{:?} must fail", pos);
        assert_eq!(r.unwrap_err().kind, ErrorType::SeekRange, "{:?} is a seek-range error", pos);
    }
    // The failed seeks never clamped the cursor: an in-range read still
    // starts at the beginning.
    let mut buf = vec![0u8; 2];
    let n = attr.read(&mut buf).expect("read");
    assert_eq!(n, 2);
    assert_eq!(&buf[..], b"ab");
    assert_eq!(attr.seek(SeekFrom::End(0)).expect("end"), 6);
    assert_eq!(attr.seek(SeekFrom::Current(-6)).expect("back"), 0);
}

#[test]
fn names_count_matches_and_name_at_agrees() {
    let img = prop_image();
    let fs = img.get_fs_from_offset(0).expect("fs");
    let dir = TskFsDir::from_meta(&fs, 2).expect("root dir");
    let mut it = dir.get_name_iter();
    let mut collected = Vec::new();
    while let Some(n) = it.next() {
        collected.push(n);
    }
    assert_eq!(collected.len(), 6, "the count equals the names used figure");
    for (i, n) in collected.iter().enumerate() {
        let direct = dir.get_name(i as u64).expect("in range");
        assert_eq!(direct.name(), n.name());
        assert_eq!(direct.get_inode(), n.get_inode());
        assert_eq!(direct.is_dir(), n.is_dir());
    }
    let oob = dir.get_name(6);
    assert!(oob.is_err(), "index at the count is an error, not an empty result");
    assert_eq!(oob.unwrap_err().kind, ErrorType::TskFsName);
}

#[test]
fn walk_skips_only_the_failing_subtree() {
    let img = prop_image();
    let fs = img.get_fs_from_offset(0).expect("fs");
    let mut walk = fs.iter_file_names().expect("walk");
    let mut seen = Vec::new();
    while let Some((path, n)) = walk.next() {
        seen.push(format!("{}/{}", path, n.name().unwrap()));
    }
    // `gone` points at inode 40, which opens as no directory: its subtree is
    // skipped, the siblings before and after it all appear.
    assert_eq!(seen, vec!["/a.txt", "/sub", "sub/inner.txt", "/z.txt"]);
    assert_eq!(walk.skipped_count(), 1);
}

#[test]
fn walk_from_inode_and_path_agree() {
    let img = prop_image();
    let fs = img.get_fs_from_offset(0).expect("fs");
    let mut from_inode = fs.iter_file_names_from_inode(3).expect("walk by inode");
    let mut from_path = fs.iter_file_names_from_path("/sub").expect("walk by path");
    let mut a = Vec::new();
    while let Some((p, n)) = from_inode.next() {
        a.push((p, n.name()));
    }
    let mut b = Vec::new();
    while let Some((p, n)) = from_path.next() {
        b.push((p, n.name()));
    }
    assert_eq!(a, b);
    assert_eq!(a.len(), 1);
}

#[test]
fn error_kinds_name_their_site() {
    let img = prop_image();

    let no_fs = img.get_fs_from_offset(1234);
    assert_eq!(no_fs.unwrap_err().kind, ErrorType::LibTskError);

    let fs = img.get_fs_from_offset(0).expect("fs");

    let nul_path = fs.file_open("/a\0.txt");
    assert_eq!(nul_path.unwrap_err().kind, ErrorType::Generic);

    let missing = fs.file_open("/missing.txt");
    assert_eq!(missing.unwrap_err().kind, ErrorType::LibTskError);

    let missing_dir = fs.dir_open("/missing");
    assert_eq!(missing_dir.unwrap_err().kind, ErrorType::LibTskError);

    let no_dir = TskFsDir::from_meta(&fs, 40);
    assert_eq!(no_dir.unwrap_err().kind, ErrorType::LibTskError);

    let file = fs.file_open("/a.txt").expect("file");
    let bad_attr = file.get_attr_at_index(9);
    assert_eq!(bad_attr.unwrap_err().kind, ErrorType::TskFsAttr);

    let inner = fs.file_open("/sub/inner.txt").expect("inner");
    let no_default = inner.get_attr();
    assert_eq!(no_default.unwrap_err().kind, ErrorType::TskFsAttr, "a bad default marker");
    let no_meta = inner.get_meta();
    assert_eq!(no_meta.unwrap_err().kind, ErrorType::TskFsMeta);

    let made = TskError::generic("local validation".to_string());
    assert_eq!(made.kind, ErrorType::Generic);
    assert_eq!(made.message, "local validation");
}

#[test]
fn meta_flags_decode_first_named_bit() {
    let m = prop_meta(1, 0, META_FLAG_ALLOC | META_FLAG_USED);
    assert_eq!(m.flags(), vec![TskFsMetaFlag::Alloc]);
    assert!(!m.is_unallocated());
    let u = prop_meta(1, 0, META_FLAG_UNALLOC);
    assert_eq!(u.flags(), vec![TskFsMetaFlag::Unalloc]);
    assert!(u.is_unallocated());
    let both = prop_meta(1, 0, META_FLAG_ALLOC | META_FLAG_UNALLOC);
    assert!(!both.is_unallocated(), "the allocated bit is checked first");
    let none = prop_meta(1, 0, 0);
    assert_eq!(none.flags(), Vec::<TskFsMetaFlag>::new());
}

#[test]
fn read_range_and_copy_to_roundtrip() {
    let img = prop_image();
    let fs = img.get_fs_from_offset(0).expect("fs");
    let file = fs.file_open("/a.txt").expect("file");

    let mid = file.read_range(2, 3).expect("read_range");
    assert_eq!(mid, b"cde");
    let tail = file.read_range(4, 100).expect("clamped");
    assert_eq!(tail, b"ef");
    let at_end = file.read_range(6, 4).expect("at end");
    assert_eq!(at_end, Vec::<u8>::new());
    let past = file.read_range(7, 1);
    assert_eq!(past.unwrap_err().kind, ErrorType::TskFsFile);
    let neg = file.read_range(-1, 1);
    assert_eq!(neg.unwrap_err().kind, ErrorType::TskFsFile);

    let mut out = Vec::new();
    let n = file.copy_to(&mut out).expect("copy_to");
    assert_eq!(n, 6);
    assert_eq!(out, b"abcdef", "copy_to reproduces the content and exact length");

    let inner = fs.file_open("/sub/inner.txt").expect("inner");
    let mut out2 = Vec::new();
    assert_eq!(inner.copy_to(&mut out2).unwrap_err().kind, ErrorType::TskFsMeta);
    assert_eq!(out2, Vec::<u8>::new());
}

#[test]
fn file_handle_noid_flag_widens_the_lookup() {
    let img = prop_image();
    let fs = img.get_fs_from_offset(0).expect("fs");
    let file = fs.file_open("/a.txt").expect("file");

    // The second attribute has the same type but another id.
    let alt = file.get_attr_at_index(1).expect("alt attr");
    assert_eq!(alt.id(), 7);

    // With the exact lookup the handle reads the alternate stream itself.
    let mut h = file.get_file_handle(alt, READ_FLAG_NONE).expect("handle");
    let mut buf = vec![0u8; 9];
    let n = h.read(&mut buf).expect("read");
    assert_eq!(n, 9);
    assert_eq!(&buf[..], b"ALTSTREAM");

    // With the no-id flag the lookup settles on the first attribute of the
    // type, the default stream.
    let alt = file.get_attr_at_index(1).expect("alt attr");
    let mut h = file.get_file_handle(alt, READ_FLAG_NOID).expect("handle");
    let mut buf = vec![0u8; 6];
    let n = h.read(&mut buf).expect("read");
    assert_eq!(n, 6);
    assert_eq!(&buf[..], b"abcdef");
}

#[test]
fn partition_handle_seek_modes_are_bounded() {
    let img = prop_image();
    let vs = img.get_vs_from_offset(0).expect("vs");
    let part = vs.get_partition_at_index(1).expect("part-b");
    assert_eq!(part.size(), 3 * 512);
    let mut h = part.get_handle();
    assert_eq!(h.seek(SeekFrom::End(0)).expect("end"), 1536);
    assert_eq!(h.seek(SeekFrom::Current(-36)).expect("back"), 1500);
    assert_eq!(h.seek(SeekFrom::Start(512)).expect("start"), 512);
    assert_eq!(h.seek(SeekFrom::Start(1537)).unwrap_err().kind, ErrorType::SeekRange);
    assert_eq!(h.seek(SeekFrom::Current(1025)).unwrap_err().kind, ErrorType::SeekRange);
    assert_eq!(h.seek(SeekFrom::End(-1537)).unwrap_err().kind, ErrorType::SeekRange);
    // The partition's bytes are the image's bytes at start * block_size.
    let mut buf = vec![0u8; 2];
    h.seek(SeekFrom::Start(0)).expect("rewind");
    let n = h.read(&mut buf).expect("read");
    assert_eq!(n, 2);
    assert_eq!(buf[0], ((2 * 512) % 256) as u8);
    assert_eq!(buf[1], ((2 * 512 + 1) % 256) as u8);
}

#[test]
fn volume_system_rejects_overflowing_entries() {
    let parts = vec![PartEntry {
        addr: 0,
        start: u64::MAX / 2,
        len: u64::MAX / 2 + 2,
        desc: "wrap".to_string(),
        flags: 0,
    }];
    let img = TskImg::from_parts(
        vec![0u8; 16],
        Catalog {
            volume_systems: vec![(0u64, VsLayout { block_size: 512, parts })],
            file_systems: vec![],
        },
    );
    let r = img.get_vs_from_offset(0);
    assert_eq!(r.unwrap_err().kind, ErrorType::Generic);
}

#[test]
fn attr_getsize_counts_the_attribute_list() {
    let img = prop_image();
    let fs = img.get_fs_from_offset(0).expect("fs");
    let file = fs.file_open("/a.txt").expect("file");
    assert_eq!(file.attr_getsize().expect("count"), 2);
}

#[test]
fn fs_geometry_is_the_engine_report() {
    let img = prop_image();
    let fs = img.get_fs_from_offset(0).expect("fs");
    assert_eq!(fs.block_count(), 100);
    assert_eq!(fs.block_size(), 512);
    assert_eq!(fs.dev_bsize(), 512);
    assert_eq!(fs.first_block(), 0);
    assert_eq!(fs.first_inum(), 0);
    assert_eq!(fs.inum_count(), 64);
    assert_eq!(fs.journ_inum(), 8);
    assert_eq!(fs.last_block(), 99);
    assert_eq!(fs.last_block_act(), 99);
    assert_eq!(fs.last_inum(), 63);
    assert_eq!(fs.root_inum(), 2);
    assert_eq!(fs.block_pre_size(), 0);
    assert_eq!(fs.block_post_size(), 0);
}

#[test]
fn meta_type_directory_check() {
    let dir_meta = TskFsMeta {
        size: 0,
        crtime: 0,
        mtime: 0,
        atime: 0,
        addr: 5,
        meta_type: tsk::tsk_fs_meta::META_TYPE_DIR,
        flags: META_FLAG_ALLOC,
    };
    assert!(dir_meta.is_directory());
    let reg_meta = TskFsMeta { meta_type: tsk::tsk_fs_meta::META_TYPE_REG, ..dir_meta };
    assert!(!reg_meta.is_directory());
}

#[test]
fn lookups_settle_on_the_first_of_equal_keys() {
    let mut layout = prop_layout();
    // A second file under an already-used path and inode: opens keep
    // resolving to the first.
    layout.files.push(FileEntry {
        inode: 10,
        path: "/a.txt".to_string(),
        meta: None,
        default_attr: 0,
        attrs: vec![prop_attr(0, 128, b"SHADOW".to_vec())],
    });
    let img = TskImg::from_parts(Vec::new(), Catalog {
        volume_systems: vec![],
        file_systems: vec![(0u64, layout)],
    });
    let fs = img.get_fs_from_offset(0).expect("fs");
    let by_path = fs.file_open("/a.txt").expect("by path");
    assert_eq!(by_path.read_range(0, 6).expect("read"), b"abcdef");
    let by_inode = fs.file_open_meta(10).expect("by inode");
    assert_eq!(by_inode.read_range(0, 6).expect("read"), b"abcdef");
}

#[test]
fn empty_volume_system_iterates_nothing() {
    let img = TskImg::from_parts(Vec::new(), Catalog {
        volume_systems: vec![(0u64, VsLayout { block_size: 512, parts: vec![] })],
        file_systems: vec![],
    });
    let vs = img.get_vs_from_offset(0).expect("vs");
    let mut it = vs.get_partition_iter().expect("iter");
    assert!(it.next().is_none());
    let missing = vs.get_partition_at_index(0);
    assert_eq!(missing.unwrap_err().kind, ErrorType::LibTskError);
}

#[test]
fn empty_directory_has_no_names() {
    let mut layout = prop_layout();
    layout.dirs.push(DirEntry { inode: 50, path: "/empty".to_string(), names: vec![] });
    let img = TskImg::from_parts(Vec::new(), Catalog {
        volume_systems: vec![],
        file_systems: vec![(0u64, layout)],
    });
    let fs = img.get_fs_from_offset(0).expect("fs");
    let dir = fs.dir_open("/empty").expect("dir");
    let mut it = dir.get_name_iter();
    assert!(it.next().is_none());
    assert_eq!(dir.get_name(0).unwrap_err().kind, ErrorType::TskFsName);
    let mut walk = fs.iter_file_names_from_inode(50).expect("walk");
    assert!(walk.next().is_none());
    assert_eq!(walk.skipped_count(), 0);
}

#[test]
fn attr_stream_empty_content() {
    let mut layout = prop_layout();
    layout.files.push(FileEntry {
        inode: 20,
        path: "/empty.bin".to_string(),
        meta: Some(prop_meta(20, 0, META_FLAG_ALLOC)),
        default_attr: 0,
        attrs: vec![prop_attr(0, 128, Vec::new())],
    });
    let img = TskImg::from_parts(Vec::new(), Catalog {
        volume_systems: vec![],
        file_systems: vec![(0u64, layout)],
    });
    let fs = img.get_fs_from_offset(0).expect("fs");
    let file = fs.file_open("/empty.bin").expect("file");
    let mut attr = file.get_attr().expect("attr");
    assert_eq!(attr.size(), 0);
    let mut buf = vec![0u8; 8];
    assert_eq!(attr.read(&mut buf).expect("read"), 0);
    assert_eq!(attr.seek(SeekFrom::End(0)).expect("end"), 0);
    assert_eq!(attr.seek(SeekFrom::Start(1)).unwrap_err().kind, ErrorType::SeekRange);
    let mut out = Vec::new();
    assert_eq!(file.copy_to(&mut out).expect("copy"), 0);
    assert_eq!(out, Vec::<u8>::new());
}
