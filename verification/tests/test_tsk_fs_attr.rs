use tsk::tsk_fs::{FileEntry, FsLayout};
use tsk::tsk_fs_attr::{AttrRecord, NonResidentData, TskFsAttrRun, ATTR_FLAG_INUSE, ATTR_FLAG_NONRES, ATTR_FLAG_RES, RUN_FLAG_ENCRYPTED, RUN_FLAG_FILLER, RUN_FLAG_SPARSE};
use tsk::tsk_img::{Catalog, TskImg};

fn attr_fixture_layout() -> FsLayout {
    let mut data = vec![0u8; 512];
    data[..4].copy_from_slice(b"FILE");
    let runs = vec![
        TskFsAttrRun { addr: 0, len: 8, flags: RUN_FLAG_SPARSE },
        TskFsAttrRun { addr: 100, len: 4, flags: 0 },
        TskFsAttrRun { addr: 104, len: 1, flags: RUN_FLAG_FILLER | RUN_FLAG_ENCRYPTED },
    ];
    let nrd = NonResidentData::new(16, 6656, 512, 16, runs);
    let mft_attr = AttrRecord::new(0, None, 128, ATTR_FLAG_INUSE | ATTR_FLAG_NONRES, data, Some(nrd))
        .expect("mft attr");
    let resident = AttrRecord::new(2, Some("$STANDARD_INFORMATION".to_string()), 16,
        ATTR_FLAG_INUSE | ATTR_FLAG_RES, vec![1u8; 72], None)
        .expect("resident attr");
    FsLayout {
        block_count: 128,
        block_pre_size: 0,
        block_post_size: 0,
        block_size: 512,
        dev_bsize: 512,
        first_block: 0,
        first_inum: 0,
        inum_count: 32,
        journ_inum: 0,
        last_block: 127,
        last_block_act: 127,
        last_inum: 31,
        root_inum: 5,
        dirs: vec![],
        files: vec![
            FileEntry {
                inode: 0,
                path: "/$MFT".to_string(),
                meta: None,
                default_attr: 0,
                attrs: vec![mft_attr, resident],
            },
        ],
    }
}

fn attr_fixture_image() -> TskImg {
    TskImg::from_parts(
        Vec::new(),
        Catalog { volume_systems: vec![], file_systems: vec![(0u64, attr_fixture_layout())] },
    )
}

#[test]
fn test_tsk_wrappers_non_resident_data() {
    let tsk_img = attr_fixture_image();
    println!("{:?}", tsk_img);

    let tsk_fs = tsk_img.get_fs_from_offset(0)
        .expect("Could not open TskFs at offset 0");

    let mft_fh = tsk_fs.file_open_meta(0)
        .expect("Could not open $MFT");

    // The default will be the first data attribute
    let default_attr = mft_fh.get_attr()
        .expect("Could get default attribute.");

    // Get the non resident data structure for the default attribute
    let nrd = default_attr.get_non_resident_data()
        .expect("Could not get non resident data struct.");
    println!("{:?}", nrd);
    assert_eq!(nrd.skiplen(), 16);
    assert_eq!(nrd.allocsize(), 6656);
    assert_eq!(nrd.initsize(), 512);
    assert_eq!(nrd.compsize(), 16);

    // get the first run
    let run = nrd.run().expect("first run");
    println!("{:?}", run);
    assert_eq!(run.addr(), 0);
    assert_eq!(run.len(), 8);
    assert_eq!(run.flags(), RUN_FLAG_SPARSE);

    // iterate each non-resident data run
    let mut run_iter = nrd.iter();
    let mut total_blocks = 0;
    let mut count = 0;
    while let Some(run) = run_iter.next() {
        // debug print the run
        println!("{:?}", run);
        total_blocks += run.len();
        count += 1;
    }
    assert_eq!(count, 3);
    assert_eq!(total_blocks, 13);
}

#[test]
fn resident_attribute_has_no_non_resident_data() {
    let tsk_img = attr_fixture_image();
    let tsk_fs = tsk_img.get_fs_from_offset(0).expect("fs");
    let mft_fh = tsk_fs.file_open_meta(0).expect("file");
    let resident = mft_fh.get_attr_at_index(1).expect("attr 1");
    assert_eq!(resident.name(), Some("$STANDARD_INFORMATION".to_string()));
    assert_eq!(resident.size(), 72);
    assert_eq!(resident.id(), 2);
    assert_eq!(resident.attr_type(), 16);
    assert!(resident.get_non_resident_data().is_none());
}

#[test]
fn run_flags_str_names_the_set_bits() {
    let sparse = TskFsAttrRun { addr: 0, len: 1, flags: RUN_FLAG_SPARSE };
    assert_eq!(sparse.flags_str(), "SPARSE");
    let all = TskFsAttrRun { addr: 0, len: 1, flags: RUN_FLAG_FILLER | RUN_FLAG_SPARSE | RUN_FLAG_ENCRYPTED };
    assert_eq!(all.flags_str(), "FILLER | SPARSE | ENCRYPTED");
    let none = TskFsAttrRun { addr: 0, len: 1, flags: 0 };
    assert_eq!(none.flags_str(), "");
    let two = TskFsAttrRun { addr: 0, len: 1, flags: RUN_FLAG_FILLER | RUN_FLAG_ENCRYPTED };
    assert_eq!(two.flags_str(), "FILLER | ENCRYPTED");
}

#[test]
fn sparse_run_gives_journal_start_offset() {
    // The change-journal pattern: meaningful data begins after the sparse
    // gap, at the sparse run's length times the block size.
    let tsk_img = attr_fixture_image();
    let tsk_fs = tsk_img.get_fs_from_offset(0).expect("fs");
    let file = tsk_fs.file_open_meta(0).expect("file");
    let attr = file.get_attr().expect("default attr");
    let nrd = attr.get_non_resident_data().expect("nrd");
    let mut start_offset = 0u64;
    let mut run_iter = nrd.iter();
    while let Some(run) = run_iter.next() {
        if run.flags() & RUN_FLAG_SPARSE > 0 {
            start_offset = run.len() * tsk_fs.block_size() as u64;
        }
    }
    assert_eq!(start_offset, 8 * 512);
}

#[test]
fn attr_record_rejects_malformed_records() {
    let ok = AttrRecord::new(1, None, 128, 0, vec![0u8; 16], None);
    assert!(ok.is_ok());
    // A non-resident flag word without the extent description is no engine
    // record.
    let bad = AttrRecord::new(1, None, 128, ATTR_FLAG_NONRES, vec![0u8; 16], None);
    assert!(bad.is_err());
    assert_eq!(bad.unwrap_err().kind, tsk::errors::ErrorType::Generic);
}
