use feather::compress::{decode_payload, encode_payload, Codec};
use feather::error::{Error, SchemaFault};
use feather::header::{read_word, word_bytes, ChunkPosition, RegionHeader, RegionPosition};
use feather::path::region_file_path;
use feather::region::{check_chunk_length, RegionHandle};
use feather::sector::{ChunkLocation, SectorAllocator, SectorBlock};

#[test]
fn test_sector_allocator() {
    let header = RegionHeader {
        locations: vec![
            ChunkLocation(SectorBlock {
                offset: 0,
                count: 0,
            }),
            ChunkLocation(SectorBlock {
                offset: 6,
                count: 5,
            }),
        ],
        timestamps: vec![0; 2],
    };

    assert!(SectorAllocator::accepts(&header, 1024));
    let mut alloc = SectorAllocator::new(&header, 1024);

    assert_eq!(
        alloc.allocate(2),
        SectorBlock {
            offset: 2,
            count: 2
        }
    );
    assert_eq!(
        alloc.allocate(2),
        SectorBlock {
            offset: 4,
            count: 2
        }
    );
    assert_eq!(
        alloc.allocate(2),
        SectorBlock {
            offset: 11,
            count: 2,
        }
    );
    alloc.free(SectorBlock {
        offset: 2,
        count: 2,
    });
    assert_eq!(
        alloc.allocate(2),
        SectorBlock {
            offset: 2,
            count: 2
        }
    );
}

#[test]
fn allocator_marks_header_and_stored_chunks() {
    let header = RegionHeader {
        locations: vec![ChunkLocation(SectorBlock { offset: 3, count: 2 })],
        timestamps: vec![0],
    };
    let alloc = SectorAllocator::new(&header, 8);
    let used: Vec<bool> = (0..8).map(|i| alloc.is_used(i)).collect();
    assert_eq!(used, vec![true, true, false, true, true, false, false, false]);
    assert_eq!(alloc.sector_count(), 8);
}

#[test]
fn allocator_grows_at_the_end_when_nothing_fits() {
    let header = RegionHeader::default();
    let mut alloc = SectorAllocator::new(&header, 4);
    assert_eq!(alloc.allocate(3), SectorBlock { offset: 4, count: 3 });
    assert_eq!(alloc.sector_count(), 7);
    // A larger free run is not used up: the rest of it stays free.
    assert_eq!(alloc.allocate(1), SectorBlock { offset: 2, count: 1 });
    assert_eq!(alloc.allocate(1), SectorBlock { offset: 3, count: 1 });
    assert_eq!(alloc.allocate(1), SectorBlock { offset: 7, count: 1 });
    assert!(alloc.can_allocate(5));
}

#[test]
fn allocator_covers_chunks_past_the_end_of_the_file() {
    let header = RegionHeader {
        locations: vec![ChunkLocation(SectorBlock { offset: 5, count: 2 })],
        timestamps: vec![0],
    };
    let mut alloc = SectorAllocator::new(&header, 3);
    assert_eq!(alloc.sector_count(), 7);
    assert!(!alloc.is_used(3));
    assert!(alloc.is_used(6));
    assert_eq!(alloc.allocate(2), SectorBlock { offset: 2, count: 2 });
}

#[test]
fn a_location_without_sectors_marks_nothing() {
    let header = RegionHeader {
        locations: vec![
            ChunkLocation(SectorBlock { offset: 9, count: 0 }),
            ChunkLocation(SectorBlock { offset: 2, count: 0 }),
        ],
        timestamps: vec![0, 0],
    };
    assert!(SectorAllocator::accepts(&header, 4));
    let mut alloc = SectorAllocator::new(&header, 4);
    assert_eq!(alloc.sector_count(), 4);
    let used: Vec<bool> = (0..4).map(|i| alloc.is_used(i)).collect();
    assert_eq!(used, vec![true, true, false, false]);
    alloc.free(SectorBlock { offset: 9, count: 0 });
    assert_eq!(alloc.sector_count(), 4);
    assert_eq!(alloc.allocate(3), SectorBlock { offset: 4, count: 3 });
}

#[test]
fn chunk_location_presence() {
    assert!(!ChunkLocation::absent().is_present());
    assert!(ChunkLocation(SectorBlock { offset: 2, count: 1 }).is_present());
    assert!(ChunkLocation(SectorBlock { offset: 6, count: 5 }).is_present());
    // Only offset 0 together with count 0 means that the chunk is absent.
    assert!(ChunkLocation(SectorBlock { offset: 5, count: 0 }).is_present());
    assert!(ChunkLocation(SectorBlock { offset: 0, count: 5 }).is_present());
}

#[test]
fn region_position_from_chunk() {
    assert_eq!(RegionPosition::from_chunk(ChunkPosition::new(0, 31)), RegionPosition { x: 0, z: 0 });
    assert_eq!(RegionPosition::from_chunk(ChunkPosition::new(32, 63)), RegionPosition { x: 1, z: 1 });
    assert_eq!(RegionPosition::from_chunk(ChunkPosition::new(-1, -32)), RegionPosition { x: -1, z: -1 });
    assert_eq!(RegionPosition::from_chunk(ChunkPosition::new(-33, 100)), RegionPosition { x: -2, z: 3 });
}

#[test]
fn header_slot_index() {
    assert_eq!(RegionHeader::index(ChunkPosition::new(0, 0)), 0);
    assert_eq!(RegionHeader::index(ChunkPosition::new(3, 2)), 67);
    assert_eq!(RegionHeader::index(ChunkPosition::new(35, 34)), 67);
    assert_eq!(RegionHeader::index(ChunkPosition::new(-1, -1)), 1023);
    assert_eq!(RegionHeader::index(ChunkPosition::new(-5, 0)), 27);
}

#[test]
fn header_bytes_layout() {
    let mut header = RegionHeader::default();
    header.set_location_for_chunk(
        ChunkPosition::new(1, 0),
        ChunkLocation(SectorBlock { offset: 0x010203, count: 4 }),
    );
    header.timestamps[1] = 0xa1b2c3d4;
    let bytes = header.to_bytes();
    assert_eq!(bytes.len(), 8192);
    assert_eq!(&bytes[0..4], &[0, 0, 0, 0]);
    assert_eq!(&bytes[4..8], &[1, 2, 3, 4]);
    assert_eq!(&bytes[4096 + 4..4096 + 8], &[0xa1, 0xb2, 0xc3, 0xd4]);

    let read = RegionHeader::from_bytes(&bytes).unwrap();
    assert_eq!(read.locations, header.locations);
    assert_eq!(read.timestamps, header.timestamps);
    assert_eq!(
        read.location_for_chunk(ChunkPosition::new(33, 32)),
        ChunkLocation(SectorBlock { offset: 0x010203, count: 4 })
    );
}

#[test]
fn header_too_small() {
    let bytes = vec![0u8; 8191];
    assert_eq!(RegionHeader::from_bytes(&bytes).err(), Some(Error::HeaderTooSmall));
    assert!(RegionHeader::from_bytes(&vec![0u8; 8192]).is_ok());
    assert_eq!(RegionHandle::open(&bytes, 8191).err(), Some(Error::HeaderTooSmall));
}

#[test]
fn header_count_keeps_its_low_byte() {
    let header = RegionHeader {
        locations: vec![ChunkLocation(SectorBlock { offset: 1, count: 0x1ff })],
        timestamps: vec![],
    };
    assert_eq!(header.to_bytes(), vec![0, 0, 1, 0xff]);
}

#[test]
fn big_endian_words() {
    assert_eq!(word_bytes(0x01020304), vec![1, 2, 3, 4]);
    assert_eq!(read_word(&[0xde, 0xad, 0xbe, 0xef, 0], 0), 0xdeadbeef);
    assert_eq!(read_word(&[0, 0, 0, 0, 5], 1), 5);
}

#[test]
fn absent_chunk_is_not_found() {
    let handle = RegionHandle::create();
    assert_eq!(handle.locate_chunk(ChunkPosition::new(3, 4)), Err(Error::ChunkNotExist));
    assert_eq!(handle.locate_chunk(ChunkPosition::new(-3, 400)), Err(Error::ChunkNotExist));
}

#[test]
fn chunk_length_guard() {
    assert_eq!(check_chunk_length(0), Err(Error::ChunkTooLarge(0)));
    assert_eq!(check_chunk_length(1), Ok(1));
    assert_eq!(check_chunk_length(1_048_576), Ok(1_048_576));
    assert_eq!(check_chunk_length(1_048_577), Err(Error::ChunkTooLarge(1_048_577)));
    assert_eq!(check_chunk_length(u32::MAX), Err(Error::ChunkTooLarge(u32::MAX as usize)));
}

#[test]
fn codec_guard() {
    assert_eq!(Codec::from_id(1), Ok(Codec::Gzip));
    assert_eq!(Codec::from_id(2), Ok(Codec::Zlib));
    assert_eq!(Codec::from_id(3), Err(Error::InvalidCompression(3)));
    assert_eq!(Codec::from_id(0), Err(Error::InvalidCompression(0)));
    assert_eq!(decode_payload(&[3, 1, 2, 3]), Err(Error::InvalidCompression(3)));
    assert_eq!(decode_payload(&[]), Err(Error::ChunkTooLarge(0)));
    assert_eq!(Codec::Zlib.id(), 2);
    assert_eq!(Codec::Gzip.id(), 1);
}

#[test]
fn payload_round_trip() {
    let record: Vec<u8> = (0..10_000u32).map(|i| (i % 7) as u8).collect();
    let stored = encode_payload(&record).unwrap();
    assert_eq!(stored[0], 2);
    assert!(stored.len() < record.len());
    assert_ne!(&stored[1..], &record[..]);
    assert_eq!(decode_payload(&stored), Ok(record));
}

#[test]
fn gzip_payload_is_read() {
    // "hello" as a gzip member.
    let member = [
        0x1f, 0x8b, 0x08, 0x00, 0x00, 0x00, 0x00, 0x00, 0x00, 0x03, 0xcb, 0x48, 0xcd, 0xc9, 0xc9,
        0x07, 0x00, 0x86, 0xa6, 0x10, 0x36, 0x05, 0x00, 0x00, 0x00,
    ];
    let mut stored = vec![1u8];
    stored.extend_from_slice(&member);
    assert_eq!(decode_payload(&stored), Ok(b"hello".to_vec()));
}

#[test]
fn broken_payload_is_malformed() {
    assert_eq!(
        decode_payload(&[2, 0xff, 0xff, 0xff]),
        Err(Error::MalformedSchema(SchemaFault::Compression))
    );
    assert_eq!(
        decode_payload(&[1, 0xff, 0xff, 0xff]),
        Err(Error::MalformedSchema(SchemaFault::Compression))
    );
}

#[test]
fn save_plan_and_isolation() {
    let mut handle = RegionHandle::create();
    let a = ChunkPosition::new(0, 0);
    let b = ChunkPosition::new(1, 0);

    let plan_a = handle.begin_save(a, 100).unwrap();
    assert_eq!(plan_a.block, SectorBlock { offset: 2, count: 1 });
    assert_eq!(plan_a.byte_offset, 8192);
    assert_eq!(plan_a.length_prefix, 100);
    assert_eq!(plan_a.padding, 4096 - 104);
    let header = handle.finish_save(a, &plan_a);
    assert_eq!(&header[0..4], &[0, 0, 2, 1]);
    assert_eq!(handle.locate_chunk(a), Ok(8192));

    let plan_b = handle.begin_save(b, 5000).unwrap();
    assert_eq!(plan_b.block, SectorBlock { offset: 3, count: 2 });
    handle.finish_save(b, &plan_b);

    // A grows: its old sector is freed, but one sector is too small, so
    // the record moves behind B and B stays where it is.
    let plan_a = handle.begin_save(a, 4093).unwrap();
    assert_eq!(plan_a.block, SectorBlock { offset: 5, count: 2 });
    assert_eq!(plan_a.padding, 4096 * 2 - 4097);
    handle.finish_save(a, &plan_a);
    assert_eq!(handle.locate_chunk(b), Ok(3 * 4096));
    assert_eq!(handle.locate_chunk(a), Ok(5 * 4096));
    assert_eq!(
        handle.location_for_chunk(b),
        ChunkLocation(SectorBlock { offset: 3, count: 2 })
    );

    // A record that ends on a sector boundary gets no padding.
    let plan_c = handle.begin_save(ChunkPosition::new(2, 0), 4092).unwrap();
    assert_eq!(plan_c.block, SectorBlock { offset: 2, count: 1 });
    assert_eq!(plan_c.padding, 0);
}

#[test]
fn save_refuses_records_that_cannot_be_stored() {
    let mut handle = RegionHandle::create();
    let pos = ChunkPosition::new(0, 0);
    assert_eq!(handle.begin_save(pos, 0).err(), Some(Error::ChunkTooLarge(0)));
    assert_eq!(
        handle.begin_save(pos, 255 * 4096 - 3).err(),
        Some(Error::ChunkTooLarge(255 * 4096 - 3))
    );
    let plan = handle.begin_save(pos, 255 * 4096 - 4).unwrap();
    assert_eq!(plan.block, SectorBlock { offset: 2, count: 255 });
    assert_eq!(plan.padding, 0);
}

#[test]
fn reopened_handle_knows_the_stored_chunks() {
    let mut handle = RegionHandle::create();
    let pos = ChunkPosition::new(7, 9);
    let plan = handle.begin_save(pos, 9000).unwrap();
    let header = handle.finish_save(pos, &plan);
    assert_eq!(header, handle.header_bytes());

    let file_len = (plan.byte_offset + 4 + 9000 + plan.padding as u64) as u64;
    let mut reopened = RegionHandle::open(&header, file_len).unwrap();
    assert_eq!(reopened.locate_chunk(pos), Ok(plan.byte_offset));
    assert_eq!(reopened.locate_chunk(ChunkPosition::new(8, 9)), Err(Error::ChunkNotExist));
    let next = reopened.begin_save(ChunkPosition::new(8, 9), 10).unwrap();
    assert_eq!(next.block, SectorBlock { offset: 5, count: 1 });
}

#[test]
fn region_file_paths() {
    assert_eq!(region_file_path(RegionPosition { x: 0, z: 0 }), "region/r.0.0.mca");
    assert_eq!(region_file_path(RegionPosition { x: -1, z: 12 }), "region/r.-1.12.mca");
    assert_eq!(
        region_file_path(RegionPosition { x: i32::MIN, z: i32::MAX }),
        "region/r.-2147483648.2147483647.mca"
    );
    assert_eq!(region_file_path(RegionPosition { x: 10, z: -907 }), "region/r.10.-907.mca");
}

#[test]
fn a_full_file_has_no_room() {
    // A file of 2^24 sectors: no header could name a sector behind its end.
    let header = vec![0u8; 8192];
    let mut handle = RegionHandle::open(&header, 1u64 << 36).unwrap();
    assert_eq!(handle.sector_count(), 1 << 24);
    assert_eq!(handle.begin_save(ChunkPosition::new(0, 0), 10).err(), Some(Error::Io));
    assert_eq!(handle.sector_count(), 1 << 24);

    // One sector less and the record is placed in the free sectors.
    let mut handle = RegionHandle::open(&header, (1u64 << 36) - 4096).unwrap();
    let plan = handle.begin_save(ChunkPosition::new(0, 0), 10).unwrap();
    assert_eq!(plan.block, SectorBlock { offset: 2, count: 1 });
}

#[test]
fn errors_of_one_chunk_are_recoverable() {
    assert!(Error::ChunkNotExist.is_recoverable());
    assert!(Error::ChunkTooLarge(0).is_recoverable());
    assert!(Error::InvalidCompression(3).is_recoverable());
    assert!(Error::MalformedSchema(SchemaFault::Structure).is_recoverable());
    assert!(Error::UnsupportedDataVersion(1).is_recoverable());
    assert!(Error::InvalidBlock.is_recoverable());
    assert!(Error::IndexOutOfBounds.is_recoverable());
    assert!(Error::InvalidBiomeId(-1).is_recoverable());
    assert!(!Error::Io.is_recoverable());
    assert!(!Error::HeaderTooSmall.is_recoverable());
}

#[test]
fn error_messages() {
    assert_eq!(Error::HeaderTooSmall.message(), "The region header is too small.");
    assert_eq!(Error::ChunkTooLarge(1_048_577).message(), "Chunk is too large: 1048577 bytes");
    assert_eq!(Error::ChunkTooLarge(0).message(), "Chunk is too large: 0 bytes");
    assert_eq!(Error::InvalidCompression(3).message(), "Chunk uses invalid compression type 3");
    assert_eq!(Error::ChunkNotExist.message(), "The chunk does not exist");
    assert_eq!(Error::InvalidBlock.message(), "Chunk contains invalid block");
    assert_eq!(Error::IndexOutOfBounds.message(), "Section index out of bounds");
    assert_eq!(Error::InvalidBiomeId(-7).message(), "Invalid biome ID -7");
    assert_eq!(
        Error::MalformedSchema(SchemaFault::BlockStates).message(),
        "Region file contains invalid NBT: block states do not hold 4096 blocks"
    );
    assert_eq!(
        Error::UnsupportedDataVersion(100).message(),
        "The chunk uses an unsupported data version. Feather currently only supports 1.13.2 region files."
    );
}
