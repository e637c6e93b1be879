use tsk::errors::ErrorType;
use tsk::tsk_fs::{FileEntry, FsLayout};
use tsk::tsk_fs_attr::{AttrRecord, NonResidentData, TskFsAttrRun, ATTR_FLAG_INUSE, ATTR_FLAG_NONRES, RUN_FLAG_SPARSE};
use tsk::tsk_img::{Catalog, TskImg};
use tsk::tsk_img_reader::{MemReadSeek, ReadSeek, TskImgReadSeek};

fn reader_layout() -> FsLayout {
    let mut data = vec![0u8; 1024];
    data[..4].copy_from_slice(b"FILE");
    let runs = vec![
        TskFsAttrRun { addr: 0, len: 3, flags: RUN_FLAG_SPARSE },
        TskFsAttrRun { addr: 24, len: 2, flags: 0 },
    ];
    let nrd = NonResidentData::new(0, 1024, 1024, 0, runs);
    let mft_attr = AttrRecord::new(0, None, 128, ATTR_FLAG_INUSE | ATTR_FLAG_NONRES, data, Some(nrd))
        .expect("mft attr");
    FsLayout {
        block_count: 64,
        block_pre_size: 0,
        block_post_size: 0,
        block_size: 512,
        dev_bsize: 512,
        first_block: 0,
        first_inum: 0,
        inum_count: 16,
        journ_inum: 0,
        last_block: 63,
        last_block_act: 63,
        last_inum: 15,
        root_inum: 5,
        dirs: vec![],
        files: vec![
            FileEntry {
                inode: 0,
                path: "/$MFT".to_string(),
                meta: None,
                default_attr: 0,
                attrs: vec![mft_attr],
            },
        ],
    }
}

#[test]
fn test_tsk_reader() {
    let source_bytes = vec![0xa5u8; 32768];
    let source_size = source_bytes.len() as i64;
    let mut handle = MemReadSeek::new(source_bytes);
    let reader = TskImgReadSeek::from_read_seek(
        "Custom File IO",
        &mut handle,
        source_size,
    ).expect("Error creating TskImgReadSeek.");
    println!("{:?}", reader);

    let tsk_img: TskImg = reader.into_img(Catalog {
        volume_systems: vec![],
        file_systems: vec![(0u64, reader_layout())],
    });

    let tsk_fs = tsk_img.get_fs_from_offset(0)
        .expect("Could not open TskFs at offset 0");

    let mft_fh = tsk_fs.file_open_meta(0)
        .expect("Could not open $MFT");

    // The default will be the first data attribute
    let default_attr = mft_fh.get_attr()
        .expect("Could get default attribute.");

    // Get the non resident data structure for the default attribute
    let nrd = default_attr.get_non_resident_data()
        .expect("Could not get non resident data struct.");
    println!("{:?}", nrd);

    // get the first run
    let run = nrd.run();
    println!("{:?}", run);
    assert!(run.is_some());

    // iterate each non-resident data run
    let mut run_iter = nrd.iter();
    while let Some(run) = run_iter.next() {
        // debug print the run
        println!("{:?}", run);
    }
}

#[test]
fn reader_pulls_exactly_the_declared_span() {
    let mut bytes = vec![0u8; 4096];
    for (i, b) in bytes.iter_mut().enumerate() {
        *b = (i % 251) as u8;
    }
    let mut handle = MemReadSeek::new(bytes.clone());
    let reader = TskImgReadSeek::from_read_seek("span", &mut handle, 1000).expect("reader");
    // The image holds exactly the first 1000 bytes of the source: a partition
    // covering them reads them back byte for byte.
    let parts = vec![tsk::tsk_vs_part::PartEntry {
        addr: 0,
        start: 0,
        len: 1,
        desc: "all".to_string(),
        flags: 0,
    }];
    let img = reader.into_img(Catalog {
        volume_systems: vec![(0, tsk::tsk_vs::VsLayout { block_size: 1000, parts })],
        file_systems: vec![],
    });
    let vs = img.get_vs_from_offset(0).expect("vs");
    let part = vs.get_partition_at_index(0).expect("part");
    let mut h = part.get_handle();
    let mut buf = vec![0u8; 2000];
    let n = h.read(&mut buf).expect("read");
    assert_eq!(n, 1000, "the read is clamped to the partition, which holds the whole span");
    assert_eq!(&buf[..1000], &bytes[..1000]);
}

#[test]
fn reader_rejects_negative_size() {
    let mut handle = MemReadSeek::new(vec![1, 2, 3]);
    let r = TskImgReadSeek::from_read_seek("neg", &mut handle, -1);
    assert!(r.is_err());
    assert_eq!(r.unwrap_err().kind, ErrorType::Generic);
}

#[test]
fn reader_rejects_short_source() {
    let mut handle = MemReadSeek::new(vec![9u8; 100]);
    let r = TskImgReadSeek::from_read_seek("short", &mut handle, 200);
    assert!(r.is_err());
    assert_eq!(r.unwrap_err().kind, ErrorType::LibTskError);
}

#[test]
fn reader_accepts_zero_size() {
    // A zero-size image asks nothing of the source, even an empty one.
    let mut handle = MemReadSeek::new(Vec::new());
    let reader = TskImgReadSeek::from_read_seek("nothing", &mut handle, 0).expect("zero size");
    let img = reader.into_img(Catalog { volume_systems: vec![], file_systems: vec![] });
    let r = img.get_vs_from_offset(0);
    assert!(r.is_err());
}

#[test]
fn mem_source_reads_and_seeks() {
    let mut src = MemReadSeek::new(vec![10, 20, 30, 40, 50]);
    let p = src.seek(3);
    assert_eq!(p, 3);
    let got = src.read(10);
    assert_eq!(got, vec![40, 50], "a short read at the tail");
    let got2 = src.read(1);
    assert_eq!(got2, Vec::<u8>::new(), "a read at the end hands back nothing");
    src.seek(99);
    assert_eq!(src.read(4), Vec::<u8>::new(), "a read past the end hands back nothing");
}
