use uefi_file_info::attrib::FileAttribute;
use uefi_file_info::file_info::FileInfo;
use uefi_file_info::fs_info::FileSystemInfo;
use uefi_file_info::proto::{check_alignment, required_size, FileInfoCreationError,
    FileProtocolInfo, Storage};
use uefi_file_info::time::Time;
use uefi_file_info::volume_label::FileSystemVolumeLabel;

fn storage(addr: usize, len: usize) -> Storage {
    Storage { addr, bytes: vec![0u8; len] }
}

fn sample_time() -> Time {
    Time {
        year: 2024,
        month: 5,
        day: 17,
        hour: 13,
        minute: 44,
        second: 59,
        nanosecond: 123_456_789,
        time_zone: -300,
        daylight: 1,
    }
}

fn read_le_u64(b: &[u8]) -> u64 {
    let mut v: u64 = 0;
    let mut k = 8;
    while k > 0 {
        k -= 1;
        v = (v << 8) | b[k] as u64;
    }
    v
}

#[test]
fn file_info_construction_and_accessors() {
    let mut st = storage(64, 256);
    let t = sample_time();
    let info = FileInfo::new(
        &mut st,
        1234,
        4096,
        t,
        t,
        t,
        FileAttribute { bits: 0x25 },
        "test.txt",
    )
    .unwrap();
    assert_eq!(info.file_size(), 1234);
    assert_eq!(info.physical_size(), 4096);
    assert_eq!(*info.create_time(), t);
    assert_eq!(*info.last_access_time(), t);
    assert_eq!(*info.modification_time(), t);
    assert_eq!(info.attribute(), FileAttribute { bits: 0x25 });
    let expected: Vec<u16> = "test.txt".encode_utf16().collect();
    assert_eq!(info.file_name().as_units(), &expected);
}

#[test]
fn file_info_reinterpret_round_trip() {
    let mut st = storage(0, 200);
    let t = sample_time();
    let built = FileInfo::new(
        &mut st,
        77,
        88,
        t,
        t,
        t,
        FileAttribute { bits: 0x10 },
        "kernel.efi",
    )
    .unwrap();
    let seen = FileInfo::from_uefi(&st.bytes);
    assert_eq!(seen.file_size(), built.file_size());
    assert_eq!(seen.physical_size(), built.physical_size());
    assert_eq!(*seen.create_time(), *built.create_time());
    assert_eq!(*seen.last_access_time(), *built.last_access_time());
    assert_eq!(*seen.modification_time(), *built.modification_time());
    assert_eq!(seen.attribute(), built.attribute());
    assert_eq!(seen.file_name().as_units(), built.file_name().as_units());
    assert_eq!(seen.name(), built.name());
}

#[test]
fn fs_info_construction_and_round_trip() {
    let mut st = storage(8, 128);
    let built = FileSystemInfo::new(&mut st, true, 1_000_000, 250_000, 512, "DATA").unwrap();
    assert!(built.read_only());
    assert_eq!(built.volume_size(), 1_000_000);
    assert_eq!(built.free_space(), 250_000);
    assert_eq!(built.block_size(), 512);
    let expected: Vec<u16> = "DATA".encode_utf16().collect();
    assert_eq!(built.volume_label().as_units(), &expected);

    let seen = FileSystemInfo::from_uefi(&st.bytes);
    assert_eq!(seen.read_only(), built.read_only());
    assert_eq!(seen.volume_size(), built.volume_size());
    assert_eq!(seen.free_space(), built.free_space());
    assert_eq!(seen.block_size(), built.block_size());
    assert_eq!(seen.volume_label().as_units(), built.volume_label().as_units());
}

#[test]
fn volume_label_efi_takes_eight_bytes() {
    assert_eq!(required_size::<FileSystemVolumeLabel>("EFI"), 8);
    let mut st = storage(2, 8);
    let label = FileSystemVolumeLabel::new(&mut st, "EFI").unwrap();
    assert_eq!(st.bytes, vec![0x45, 0, 0x46, 0, 0x49, 0, 0, 0]);
    assert_eq!(label.volume_label().num_chars(), 3);
    assert_eq!(label.volume_label().as_units(), &vec![0x45u16, 0x46, 0x49]);
    assert_eq!(label.name(), &vec![0x45u16, 0x46, 0x49, 0]);
}

#[test]
fn volume_label_round_trip_and_empty_label() {
    let mut st = storage(0, 32);
    let built = FileSystemVolumeLabel::new(&mut st, "BOOT").unwrap();
    let seen = FileSystemVolumeLabel::from_uefi(&st.bytes);
    assert_eq!(seen.name(), built.name());

    let mut st2 = storage(0, 2);
    let empty = FileSystemVolumeLabel::new(&mut st2, "").unwrap();
    assert_eq!(st2.bytes, vec![0, 0]);
    assert_eq!(empty.volume_label().num_chars(), 0);
}

#[test]
fn required_size_formula() {
    assert_eq!(required_size::<FileInfo>("abc"), 80 + 4 * 2);
    assert_eq!(required_size::<FileSystemInfo>("abc"), 36 + 4 * 2);
    assert_eq!(required_size::<FileSystemVolumeLabel>(""), 2);
}

#[test]
fn stored_size_equals_footprint() {
    let mut st = storage(0, 128);
    let t = sample_time();
    FileInfo::new(&mut st, 0, 0, t, t, t, FileAttribute { bits: 0 }, "hi").unwrap();
    assert_eq!(read_le_u64(&st.bytes[0..8]), 80 + 3 * 2);

    let mut st2 = storage(0, 128);
    FileSystemInfo::new(&mut st2, false, 1, 1, 1, "vol").unwrap();
    assert_eq!(read_le_u64(&st2.bytes[0..8]), 36 + 4 * 2);
}

#[test]
fn one_byte_short_reports_exact_requirement() {
    let need = required_size::<FileSystemInfo>("X");
    let mut st = storage(0, need - 1);
    let r = FileSystemInfo::new(&mut st, false, 0, 0, 0, "X");
    assert!(matches!(r, Err(FileInfoCreationError::InsufficientStorage(n)) if n == need));

    let mut st2 = storage(0, need);
    assert!(FileSystemInfo::new(&mut st2, false, 0, 0, 0, "X").is_ok());
}

#[test]
fn misaligned_storage_is_rejected_even_when_large() {
    let mut st = storage(65, 4096);
    let t = sample_time();
    let r = FileInfo::new(&mut st, 0, 0, t, t, t, FileAttribute { bits: 0 }, "a");
    assert!(matches!(r, Err(FileInfoCreationError::Alignment)));
    assert!(st.bytes.iter().all(|&b| b == 0));

    let st3 = storage(3, 64);
    assert!(check_alignment::<FileSystemVolumeLabel>(&st3).is_err());
    let st4 = storage(4, 64);
    assert!(check_alignment::<FileSystemVolumeLabel>(&st4).is_ok());
}

#[test]
fn unrepresentable_character_is_reported_and_nothing_written() {
    let mut st = storage(0, 64);
    let r = FileSystemVolumeLabel::new(&mut st, "a\u{1F600}b");
    assert!(matches!(r, Err(FileInfoCreationError::InvalidChar(c)) if c == '\u{1F600}'));
    assert!(st.bytes.iter().all(|&b| b == 0));
}

#[test]
fn error_precedence_matches_construction_order() {
    // Misalignment outranks a too-small buffer.
    let mut st = storage(1, 0);
    let r = FileSystemVolumeLabel::new(&mut st, "A");
    assert!(matches!(r, Err(FileInfoCreationError::Alignment)));

    // A too-small buffer outranks a bad character: the requirement counts
    // characters without validating them.
    let mut st2 = storage(0, 1);
    let r2 = FileSystemVolumeLabel::new(&mut st2, "\u{1F600}");
    assert!(matches!(r2, Err(FileInfoCreationError::InsufficientStorage(4))));
}

#[test]
fn layout_constants() {
    assert_eq!(FileInfo::alignment(), 8);
    assert_eq!(FileInfo::name_offset(), 80);
    assert_eq!(FileSystemInfo::alignment(), 8);
    assert_eq!(FileSystemInfo::name_offset(), 36);
    assert_eq!(FileSystemVolumeLabel::alignment(), 2);
    assert_eq!(FileSystemVolumeLabel::name_offset(), 0);
}

#[test]
fn identity_tags_are_distinct_and_fixed() {
    let fi = FileInfo::guid();
    let fs = FileSystemInfo::guid();
    let vl = FileSystemVolumeLabel::guid();
    assert_eq!(fi.time_low, 0x09576e92);
    assert_eq!(fs.time_low, 0x09576e93);
    assert_eq!(vl.time_low, 0xdb47d7d3);
    assert_eq!(fi.tail, 0x8e3900a0c969723b);
    assert_eq!(vl.tail, 0x9a350090273fc14d);
    assert_ne!(fi, fs);
    assert_ne!(fi, vl);
    assert_ne!(fs, vl);
}

#[test]
fn fs_info_header_layout_in_bytes() {
    let mut st = storage(0, 64);
    FileSystemInfo::new(&mut st, true, 0x0102030405060708, 0x1112131415161718, 0x21222324, "Z")
        .unwrap();
    assert_eq!(st.bytes[8], 1);
    assert_eq!(&st.bytes[16..24], &[0x08, 0x07, 0x06, 0x05, 0x04, 0x03, 0x02, 0x01]);
    assert_eq!(&st.bytes[24..32], &[0x18, 0x17, 0x16, 0x15, 0x14, 0x13, 0x12, 0x11]);
    assert_eq!(&st.bytes[32..36], &[0x24, 0x23, 0x22, 0x21]);
    assert_eq!(&st.bytes[36..40], &[0x5A, 0, 0, 0]);
}

#[test]
fn timestamp_layout_and_negative_zone_round_trip() {
    let mut st = storage(0, 128);
    let t = Time {
        year: 0x07E8,
        month: 2,
        day: 29,
        hour: 23,
        minute: 58,
        second: 57,
        nanosecond: 0x0A0B0C0D,
        time_zone: -720,
        daylight: 3,
    };
    FileInfo::new(&mut st, 0, 0, t, t, t, FileAttribute { bits: 0 }, "n").unwrap();
    // create_time sits at offset 24: year, month, day, hour, minute,
    // second, pad, nanosecond, time zone, daylight, pad.
    assert_eq!(&st.bytes[24..26], &[0xE8, 0x07]);
    assert_eq!(&st.bytes[26..31], &[2, 29, 23, 58, 57]);
    assert_eq!(st.bytes[31], 0);
    assert_eq!(&st.bytes[32..36], &[0x0D, 0x0C, 0x0B, 0x0A]);
    assert_eq!(&st.bytes[36..38], &(-720i16 as u16).to_le_bytes());
    assert_eq!(st.bytes[38], 3);
    assert_eq!(st.bytes[39], 0);

    let seen = FileInfo::from_uefi(&st.bytes);
    assert_eq!(seen.create_time().time_zone, -720);
    assert_eq!(seen.create_time().nanosecond, 0x0A0B0C0D);
}

#[test]
fn reinterpret_stops_at_first_terminator() {
    // Hand-built volume-label bytes: 'A', terminator, then trailing noise.
    let bytes = vec![0x41, 0, 0, 0, 0x63, 0];
    let seen = FileSystemVolumeLabel::from_uefi(&bytes);
    assert_eq!(seen.name(), &vec![0x41u16, 0]);
    assert_eq!(seen.volume_label().as_units(), &vec![0x41u16]);
}
