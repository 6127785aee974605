use linux_boot_params::error::BootError;
use linux_boot_params::header::{
    SetupHeader, HDR_BOOT_FLAG, HDR_LOAD_HIGH, HDR_MIN_VERSION, HDR_SIGNATURE, HDR_TYPE_LOADER,
    SETUP_HEADER_END, SETUP_HEADER_OFFSET, SETUP_HEADER_SIZE,
};

/// A kernel image of `len` zero bytes with the boot flag, the signature and
/// version 2.04 in place, as far as the image is long enough to hold them.
fn image(len: usize) -> Vec<u8> {
    let mut img = vec![0u8; len];
    let marks: [(usize, u8); 8] = [
        (0x1fe, 0x55),
        (0x1ff, 0xaa),
        (0x202, b'H'),
        (0x203, b'd'),
        (0x204, b'r'),
        (0x205, b'S'),
        (0x206, 0x04),
        (0x207, 0x02),
    ];
    for (at, byte) in marks {
        if at < len {
            img[at] = byte;
        }
    }
    img
}

/// An image in which every byte differs from its neighbours.
fn patterned(len: usize) -> Vec<u8> {
    (0..len).map(|i| (i * 7 + 3) as u8).collect()
}

fn le16(img: &[u8], at: usize) -> u16 {
    u16::from_le_bytes([img[at], img[at + 1]])
}

fn le32(img: &[u8], at: usize) -> u32 {
    u32::from_le_bytes([img[at], img[at + 1], img[at + 2], img[at + 3]])
}

fn le64(img: &[u8], at: usize) -> u64 {
    let mut b = [0u8; 8];
    b.copy_from_slice(&img[at..at + 8]);
    u64::from_le_bytes(b)
}

#[test]
fn constants_are_those_of_the_protocol() {
    assert_eq!(HDR_BOOT_FLAG, 0xaa55);
    assert_eq!(HDR_SIGNATURE, 0x5372_6448);
    assert_eq!(HDR_SIGNATURE.to_le_bytes(), *b"HdrS");
    assert_eq!(HDR_MIN_VERSION, 0x0200);
    assert_eq!(HDR_TYPE_LOADER, 0xff);
    assert_eq!(HDR_LOAD_HIGH, 0x01);
    assert_eq!(SETUP_HEADER_OFFSET, 0x1f1);
    assert_eq!(SETUP_HEADER_SIZE, 119);
    assert_eq!(SETUP_HEADER_END, SETUP_HEADER_OFFSET + SETUP_HEADER_SIZE);
}

#[test]
fn hundred_byte_buffer_is_too_small() {
    let img = image(100);
    assert_eq!(SetupHeader::from_file(&img), Err(BootError::BufferTooSmall));
}

#[test]
fn empty_buffer_is_too_small() {
    assert_eq!(SetupHeader::from_file(&[]), Err(BootError::BufferTooSmall));
}

#[test]
fn buffer_must_hold_the_whole_header() {
    assert_eq!(
        SetupHeader::from_file(&image(SETUP_HEADER_END - 1)),
        Err(BootError::BufferTooSmall)
    );
    assert!(SetupHeader::from_file(&image(SETUP_HEADER_END)).is_ok());
    assert!(SetupHeader::from_file(&image(SETUP_HEADER_END + 1)).is_ok());
}

#[test]
fn six_hundred_bytes_end_before_the_header_does() {
    // The last field of the header ends at byte 616 of the image.
    assert_eq!(SetupHeader::from_file(&image(600)), Err(BootError::BufferTooSmall));
}

#[test]
fn minimal_image_validates() {
    let img = image(SETUP_HEADER_END);
    let hdr = SetupHeader::from_file(&img).unwrap();
    assert_eq!(hdr.boot_flag, 0xaa55);
    assert_eq!(hdr.header, 0x5372_6448);
    assert_eq!(hdr.version, 0x0204);
    let checked = hdr.validate().unwrap();
    assert_eq!(checked, hdr);
    assert_eq!(checked.version, 0x0204);
}

#[test]
fn image_of_two_sectors_validates() {
    let img = image(1024);
    let hdr = SetupHeader::from_file(&img).unwrap().validate().unwrap();
    assert_eq!(hdr.version, 0x0204);
}

#[test]
fn corrupted_boot_flag_is_rejected() {
    let mut img = image(SETUP_HEADER_END);
    img[0x1fe] = 0;
    img[0x1ff] = 0;
    let hdr = SetupHeader::from_file(&img).unwrap();
    assert_eq!(hdr.boot_flag, 0x0000);
    assert_eq!(hdr.validate(), Err(BootError::InvalidBootFlag));
}

#[test]
fn wrong_signature_is_rejected() {
    let mut img = image(SETUP_HEADER_END);
    img[0x205] = b's';
    let hdr = SetupHeader::from_file(&img).unwrap();
    assert_eq!(hdr.validate(), Err(BootError::InvalidSignature));
}

#[test]
fn boot_flag_is_checked_before_signature_and_version() {
    let hdr = SetupHeader { boot_flag: 0xaa54, header: 0, version: 0, ..SetupHeader::default() };
    assert_eq!(hdr.validate(), Err(BootError::InvalidBootFlag));
    let hdr = SetupHeader { boot_flag: 0xaa55, header: 0, version: 0, ..SetupHeader::default() };
    assert_eq!(hdr.validate(), Err(BootError::InvalidSignature));
    let hdr = SetupHeader {
        boot_flag: 0xaa55,
        header: 0x5372_6448,
        version: 0,
        ..SetupHeader::default()
    };
    assert_eq!(hdr.validate(), Err(BootError::UnsupportedVersion));
}

#[test]
fn rejection_does_not_depend_on_other_fields() {
    let mut hdr = SetupHeader::from_file(&patterned(700)).unwrap();
    hdr.version = 0x020f;
    hdr.header = HDR_SIGNATURE;
    hdr.boot_flag = 0x55aa;
    assert_eq!(hdr.validate(), Err(BootError::InvalidBootFlag));
    hdr.boot_flag = HDR_BOOT_FLAG;
    hdr.header = 0x4864_7253;
    assert_eq!(hdr.validate(), Err(BootError::InvalidSignature));
    hdr.header = HDR_SIGNATURE;
    assert_eq!(hdr.validate(), Ok(hdr));
}

#[test]
fn version_below_two_is_rejected() {
    let base = SetupHeader::from_file(&image(SETUP_HEADER_END)).unwrap();
    for version in [0x0000u16, 0x0001, 0x0100, 0x01ff] {
        let hdr = SetupHeader { version, ..base };
        assert_eq!(hdr.validate(), Err(BootError::UnsupportedVersion));
    }
}

#[test]
fn version_from_two_on_is_accepted() {
    let base = SetupHeader::from_file(&image(SETUP_HEADER_END)).unwrap();
    for version in [0x0200u16, 0x0201, 0x0204, 0x020f, 0x0300, 0xffff] {
        let hdr = SetupHeader { version, ..base };
        assert_eq!(hdr.validate(), Ok(hdr));
    }
}

#[test]
fn every_field_is_read_from_its_offset() {
    let img = patterned(0x400);
    let hdr = SetupHeader::from_file(&img).unwrap();
    assert_eq!(hdr.setup_sects, img[0x1f1]);
    assert_eq!(hdr.root_flags, le16(&img, 0x1f2));
    assert_eq!(hdr.syssize, le32(&img, 0x1f4));
    assert_eq!(hdr.ram_size, le16(&img, 0x1f8));
    assert_eq!(hdr.vid_mode, le16(&img, 0x1fa));
    assert_eq!(hdr.root_dev, le16(&img, 0x1fc));
    assert_eq!(hdr.boot_flag, le16(&img, 0x1fe));
    assert_eq!(hdr.jump, le16(&img, 0x200));
    assert_eq!(hdr.header, le32(&img, 0x202));
    assert_eq!(hdr.version, le16(&img, 0x206));
    assert_eq!(hdr.realmode_swtch, le32(&img, 0x208));
    assert_eq!(hdr.start_sys_seg, le16(&img, 0x20c));
    assert_eq!(hdr.kernel_version, le16(&img, 0x20e));
    assert_eq!(hdr.type_of_loader, img[0x210]);
    assert_eq!(hdr.loadflags, img[0x211]);
    assert_eq!(hdr.setup_move_size, le16(&img, 0x212));
    assert_eq!(hdr.code32_start, le32(&img, 0x214));
    assert_eq!(hdr.ramdisk_image, le32(&img, 0x218));
    assert_eq!(hdr.ramdisk_size, le32(&img, 0x21c));
    assert_eq!(hdr.bootsect_kludge, le32(&img, 0x220));
    assert_eq!(hdr.heap_end_ptr, le16(&img, 0x224));
    assert_eq!(hdr.ext_loader_ver, img[0x226]);
    assert_eq!(hdr.ext_loader_type, img[0x227]);
    assert_eq!(hdr.cmd_line_ptr, le32(&img, 0x228));
    assert_eq!(hdr.initrd_addr_max, le32(&img, 0x22c));
    assert_eq!(hdr.kernel_alignment, le32(&img, 0x230));
    assert_eq!(hdr.relocatable_kernel, img[0x234]);
    assert_eq!(hdr.min_alignment, img[0x235]);
    assert_eq!(hdr.xloadflags, le16(&img, 0x236));
    assert_eq!(hdr.cmdline_size, le32(&img, 0x238));
    assert_eq!(hdr.hardware_subarch, le32(&img, 0x23c));
    assert_eq!(hdr.hardware_subarch_data, le64(&img, 0x240));
    assert_eq!(hdr.payload_offset, le32(&img, 0x248));
    assert_eq!(hdr.payload_length, le32(&img, 0x24c));
    assert_eq!(hdr.setup_data, le64(&img, 0x250));
    assert_eq!(hdr.pref_address, le64(&img, 0x258));
    assert_eq!(hdr.init_size, le32(&img, 0x260));
    assert_eq!(hdr.handover_offset, le32(&img, 0x264));
}

#[test]
fn fields_are_little_endian() {
    let mut img = vec![0u8; SETUP_HEADER_END];
    img[0x1f2] = 0x34;
    img[0x1f3] = 0x12;
    img[0x1f4..0x1f8].copy_from_slice(&[0x78, 0x56, 0x34, 0x12]);
    img[0x258..0x260].copy_from_slice(&[0x08, 0x07, 0x06, 0x05, 0x04, 0x03, 0x02, 0x01]);
    let hdr = SetupHeader::from_file(&img).unwrap();
    assert_eq!(hdr.root_flags, 0x1234);
    assert_eq!(hdr.syssize, 0x1234_5678);
    assert_eq!(hdr.pref_address, 0x0102_0304_0506_0708);
}

#[test]
fn bytes_outside_the_header_do_not_matter() {
    let mut a = patterned(0x400);
    let hdr = SetupHeader::from_file(&a).unwrap();
    for byte in a[..SETUP_HEADER_OFFSET].iter_mut() {
        *byte = 0xee;
    }
    for byte in a[SETUP_HEADER_END..].iter_mut() {
        *byte = 0xee;
    }
    assert_eq!(SetupHeader::from_file(&a).unwrap(), hdr);
}

#[test]
fn reading_then_writing_gives_the_bytes_of_the_image() {
    for len in [SETUP_HEADER_END, 700, 1024, 4096] {
        let img = patterned(len);
        let hdr = SetupHeader::from_file(&img).unwrap();
        assert_eq!(hdr.to_bytes(), img[SETUP_HEADER_OFFSET..SETUP_HEADER_END].to_vec());
    }
    let img = image(SETUP_HEADER_END);
    let hdr = SetupHeader::from_file(&img).unwrap();
    assert_eq!(hdr.to_bytes(), img[SETUP_HEADER_OFFSET..SETUP_HEADER_END].to_vec());
}

#[test]
fn writing_then_reading_gives_the_header() {
    let hdr = SetupHeader {
        setup_sects: 4,
        boot_flag: HDR_BOOT_FLAG,
        header: HDR_SIGNATURE,
        version: 0x020f,
        type_of_loader: HDR_TYPE_LOADER,
        loadflags: HDR_LOAD_HIGH,
        code32_start: 0x0010_0000,
        cmd_line_ptr: 0x0002_0000,
        kernel_alignment: 0x0020_0000,
        pref_address: 0x0000_0001_0000_0000,
        init_size: 0x0123_4567,
        handover_offset: 0x89ab_cdef,
        ..SetupHeader::default()
    };
    let mut img = vec![0xa5u8; 0x300];
    img[SETUP_HEADER_OFFSET..SETUP_HEADER_END].copy_from_slice(&hdr.to_bytes());
    assert_eq!(SetupHeader::from_file(&img), Ok(hdr));
}

#[test]
fn header_is_written_without_padding() {
    let hdr = SetupHeader {
        setup_sects: 0x11,
        root_flags: 0x2233,
        syssize: 0x4455_6677,
        boot_flag: HDR_BOOT_FLAG,
        header: HDR_SIGNATURE,
        version: 0x0204,
        handover_offset: 0xdead_beef,
        ..SetupHeader::default()
    };
    let bytes = hdr.to_bytes();
    assert_eq!(bytes.len(), 119);
    assert_eq!(&bytes[..7], &[0x11, 0x33, 0x22, 0x77, 0x66, 0x55, 0x44]);
    assert_eq!(&bytes[0x1fe - 0x1f1..0x200 - 0x1f1], &[0x55, 0xaa]);
    assert_eq!(&bytes[0x202 - 0x1f1..0x206 - 0x1f1], b"HdrS");
    assert_eq!(&bytes[0x206 - 0x1f1..0x208 - 0x1f1], &[0x04, 0x02]);
    assert_eq!(&bytes[115..], &[0xef, 0xbe, 0xad, 0xde]);
}

#[test]
fn default_header_is_zero() {
    let hdr = SetupHeader::default();
    assert_eq!(hdr.to_bytes(), vec![0u8; SETUP_HEADER_SIZE]);
    assert_eq!(SetupHeader::from_file(&vec![0u8; SETUP_HEADER_END]), Ok(hdr));
    assert_eq!(hdr.validate(), Err(BootError::InvalidBootFlag));
}
