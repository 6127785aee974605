use linux_boot_params::e820::{E820Entry, E820_ENTRY_SIZE, E820_MAX_ENTRIES};
use linux_boot_params::error::BootError;
use linux_boot_params::header::{
    SetupHeader, HDR_BOOT_FLAG, HDR_SIGNATURE, SETUP_HEADER_END, SETUP_HEADER_OFFSET,
};
use linux_boot_params::page::{
    ACPI_RSDP_ADDR_OFFSET, BOOT_PARAMS_SIZE, E820_ENTRIES_OFFSET, E820_TABLE_END,
    E820_TABLE_OFFSET, UNACCEPTED_MEMORY_OFFSET,
};
use linux_boot_params::params::BootParams;

fn entry(i: usize) -> E820Entry {
    E820Entry::new(0x1000 * (i as u64 + 1), 0x0800 + i as u64, 1 + (i as u32 % 5))
}

fn sample_header() -> SetupHeader {
    SetupHeader {
        setup_sects: 7,
        boot_flag: HDR_BOOT_FLAG,
        header: HDR_SIGNATURE,
        version: 0x020c,
        type_of_loader: 0xff,
        loadflags: 0x81,
        code32_start: 0x0100_0000,
        ramdisk_image: 0x0400_0000,
        ramdisk_size: 0x0012_3456,
        cmd_line_ptr: 0x0009_0000,
        xloadflags: 0x003f,
        setup_data: 0x1122_3344_5566_7788,
        pref_address: 0x0000_0000_0100_0000,
        init_size: 0x0234_5000,
        handover_offset: 0x0000_0190,
        ..SetupHeader::default()
    }
}

/// The bytes of `page` with the ranges in `holes` set to zero.
fn without(page: &[u8], holes: &[(usize, usize)]) -> Vec<u8> {
    let mut rest = page.to_vec();
    for &(from, to) in holes {
        for byte in rest[from..to].iter_mut() {
            *byte = 0;
        }
    }
    rest
}

#[test]
fn layout_constants_are_those_of_the_protocol() {
    assert_eq!(BOOT_PARAMS_SIZE, 4096);
    assert_eq!(ACPI_RSDP_ADDR_OFFSET, 0x070);
    assert_eq!(UNACCEPTED_MEMORY_OFFSET, 0x078);
    assert_eq!(E820_ENTRIES_OFFSET, 0x1e8);
    assert_eq!(E820_TABLE_OFFSET, 0x2d0);
    assert_eq!(E820_TABLE_END, E820_TABLE_OFFSET + E820_MAX_ENTRIES * E820_ENTRY_SIZE);
    assert_eq!(E820_MAX_ENTRIES, 128);
    assert_eq!(E820_ENTRY_SIZE, 20);
}

#[test]
fn default_page_is_all_zero() {
    let page = BootParams::default();
    let bytes = page.to_bytes();
    assert_eq!(bytes.len(), 4096);
    assert!(bytes.iter().all(|&b| b == 0));
    assert_eq!(page.header(), SetupHeader::default());
    assert_eq!(page.acpi_rsdp_addr(), 0);
    assert_eq!(page.unaccepted_memory(), 0);
    assert_eq!(page.e820_entries(), 0);
    assert!(page.e820_table().iter().all(|e| *e == E820Entry::default()));
}

#[test]
fn header_is_read_back_as_it_was_embedded() {
    let hdr = sample_header();
    let mut page = BootParams::default();
    page.set_header(hdr);
    assert_eq!(page.header(), hdr);
    assert_eq!(page.header().cmd_line_ptr, 0x0009_0000);
    assert_eq!(page.header().setup_data, 0x1122_3344_5566_7788);
}

#[test]
fn header_stands_at_its_offset_in_the_page() {
    let hdr = sample_header();
    let mut page = BootParams::default();
    page.set_header(hdr);
    let bytes = page.to_bytes();
    assert_eq!(bytes.len(), BOOT_PARAMS_SIZE);
    assert_eq!(bytes[SETUP_HEADER_OFFSET..SETUP_HEADER_END].to_vec(), hdr.to_bytes());
    assert_eq!(SetupHeader::from_file(&bytes), Ok(hdr));
    assert_eq!(&bytes[0x1fe..0x200], &[0x55, 0xaa]);
    assert_eq!(&bytes[0x202..0x206], b"HdrS");
    let rest = without(&bytes, &[(SETUP_HEADER_OFFSET, SETUP_HEADER_END)]);
    assert!(rest.iter().all(|&b| b == 0));
}

#[test]
fn embedding_a_header_changes_nothing_else() {
    let mut page = BootParams::default();
    page.set_acpi_rsdp_addr(0x7fe0_0014);
    page.set_unaccepted_memory(0x7000_0000);
    page.add_e820_entry(entry(0)).unwrap();
    let before = page.to_bytes();
    page.set_header(sample_header());
    let after = page.to_bytes();
    let hole = [(SETUP_HEADER_OFFSET, SETUP_HEADER_END)];
    assert_eq!(without(&before, &hole), without(&after, &hole));
    assert_eq!(page.acpi_rsdp_addr(), 0x7fe0_0014);
    assert_eq!(page.unaccepted_memory(), 0x7000_0000);
    assert_eq!(page.e820_entries(), 1);
}

#[test]
fn addresses_stand_at_their_offsets() {
    let mut page = BootParams::default();
    page.set_acpi_rsdp_addr(0x0102_0304_0506_0708);
    page.set_unaccepted_memory(0x1112_1314_1516_1718);
    assert_eq!(page.acpi_rsdp_addr(), 0x0102_0304_0506_0708);
    assert_eq!(page.unaccepted_memory(), 0x1112_1314_1516_1718);
    let bytes = page.to_bytes();
    assert_eq!(&bytes[0x070..0x078], &[0x08, 0x07, 0x06, 0x05, 0x04, 0x03, 0x02, 0x01]);
    assert_eq!(&bytes[0x078..0x080], &[0x18, 0x17, 0x16, 0x15, 0x14, 0x13, 0x12, 0x11]);
    let rest = without(&bytes, &[(0x070, 0x080)]);
    assert!(rest.iter().all(|&b| b == 0));
}

#[test]
fn one_entry_is_written_into_the_first_slot() {
    let mut page = BootParams::default();
    let e = E820Entry::new(0x0000_0001_0000_0000, 0x0000_0000_8000_0000, 2);
    assert_eq!(page.add_e820_entry(e), Ok(()));
    assert_eq!(page.e820_entries(), 1);
    assert_eq!(page.e820_table()[0], e);
    assert!(page.e820_table()[1..].iter().all(|x| *x == E820Entry::default()));
    let bytes = page.to_bytes();
    assert_eq!(bytes[0x1e8], 1);
    assert_eq!(
        &bytes[0x2d0..0x2e4],
        &[0, 0, 0, 0, 1, 0, 0, 0, 0, 0, 0, 0x80, 0, 0, 0, 0, 2, 0, 0, 0]
    );
    let rest = without(&bytes, &[(0x1e8, 0x1e9), (0x2d0, 0x2e4)]);
    assert!(rest.iter().all(|&b| b == 0));
}

#[test]
fn every_count_of_entries_is_kept_exactly() {
    for n in [0usize, 1, 2, 17, 127, 128] {
        let mut page = BootParams::default();
        for i in 0..n {
            assert_eq!(page.add_e820_entry(entry(i)), Ok(()));
        }
        assert_eq!(page.e820_entries() as usize, n);
        let table = page.e820_table();
        for i in 0..n {
            assert_eq!(table[i], entry(i));
        }
        for i in n..E820_MAX_ENTRIES {
            assert_eq!(table[i], E820Entry::default());
        }
        let bytes = page.to_bytes();
        assert_eq!(bytes.len(), BOOT_PARAMS_SIZE);
        assert_eq!(bytes[E820_ENTRIES_OFFSET] as usize, n);
        for i in 0..n {
            let at = E820_TABLE_OFFSET + i * E820_ENTRY_SIZE;
            let mut expected = Vec::new();
            expected.extend_from_slice(&entry(i).addr.to_le_bytes());
            expected.extend_from_slice(&entry(i).size.to_le_bytes());
            expected.extend_from_slice(&entry(i).entry_type.to_le_bytes());
            assert_eq!(bytes[at..at + E820_ENTRY_SIZE].to_vec(), expected);
        }
        let used_end = E820_TABLE_OFFSET + n * E820_ENTRY_SIZE;
        assert!(bytes[used_end..].iter().all(|&b| b == 0));
    }
}

#[test]
fn entry_beyond_the_capacity_is_refused() {
    let mut page = BootParams::default();
    for i in 0..128 {
        assert_eq!(page.add_e820_entry(entry(i)), Ok(()));
    }
    let before = page.to_bytes();
    assert_eq!(page.add_e820_entry(entry(128)), Err(BootError::TableFull));
    assert_eq!(page.e820_entries(), 128);
    assert_eq!(page.to_bytes(), before);
    assert_eq!(page.add_e820_entry(entry(129)), Err(BootError::TableFull));
    assert_eq!(page.to_bytes(), before);
}

#[test]
fn entries_written_together_follow_those_already_there() {
    let mut page = BootParams::default();
    page.add_e820_entry(entry(0)).unwrap();
    let more: Vec<E820Entry> = (1..6).map(entry).collect();
    assert_eq!(page.add_e820_entries(&more), Ok(()));
    assert_eq!(page.e820_entries(), 6);
    for i in 0..6 {
        assert_eq!(page.e820_table()[i], entry(i));
    }
    assert!(page.e820_table()[6..].iter().all(|x| *x == E820Entry::default()));
    assert_eq!(page.add_e820_entries(&[]), Ok(()));
    assert_eq!(page.e820_entries(), 6);
}

#[test]
fn entries_written_together_equal_entries_written_one_by_one() {
    let all: Vec<E820Entry> = (0..40).map(entry).collect();
    let mut together = BootParams::default();
    together.add_e820_entries(&all).unwrap();
    let mut single = BootParams::default();
    for e in &all {
        single.add_e820_entry(*e).unwrap();
    }
    assert_eq!(together.to_bytes(), single.to_bytes());
}

#[test]
fn full_table_can_be_written_at_once() {
    let all: Vec<E820Entry> = (0..128).map(entry).collect();
    let mut page = BootParams::default();
    assert_eq!(page.add_e820_entries(&all), Ok(()));
    assert_eq!(page.e820_entries(), 128);
    assert_eq!(page.e820_table().to_vec(), all);
    let bytes = page.to_bytes();
    assert_eq!(bytes[0x1e8], 128);
    assert!(bytes[E820_TABLE_END..].iter().all(|&b| b == 0));
}

#[test]
fn entries_that_do_not_all_fit_are_not_written_at_all() {
    let mut page = BootParams::default();
    let all: Vec<E820Entry> = (0..129).map(entry).collect();
    assert_eq!(page.add_e820_entries(&all), Err(BootError::TableFull));
    assert_eq!(page.e820_entries(), 0);
    assert!(page.to_bytes().iter().all(|&b| b == 0));

    page.add_e820_entries(&all[..120]).unwrap();
    let before = page.to_bytes();
    assert_eq!(page.add_e820_entries(&all[..9]), Err(BootError::TableFull));
    assert_eq!(page.e820_entries(), 120);
    assert_eq!(page.to_bytes(), before);
    assert_eq!(page.add_e820_entries(&all[..8]), Ok(()));
    assert_eq!(page.e820_entries(), 128);
}

#[test]
fn copy_of_a_page_is_independent() {
    let mut page = BootParams::default();
    page.set_header(sample_header());
    let copy = page;
    page.set_acpi_rsdp_addr(5);
    assert_eq!(copy.acpi_rsdp_addr(), 0);
    assert_eq!(copy.header(), sample_header());
    assert_eq!(page.acpi_rsdp_addr(), 5);
}

#[test]
fn image_header_reaches_the_kernel_unchanged() {
    let mut img = vec![0u8; 0x400];
    for (i, byte) in img.iter_mut().enumerate() {
        *byte = (i * 13 + 1) as u8;
    }
    img[0x1fe] = 0x55;
    img[0x1ff] = 0xaa;
    img[0x202..0x206].copy_from_slice(b"HdrS");
    img[0x206] = 0x0f;
    img[0x207] = 0x02;
    let hdr = SetupHeader::from_file(&img).unwrap().validate().unwrap();
    let mut page = BootParams::default();
    page.set_header(hdr);
    let bytes = page.to_bytes();
    assert_eq!(
        &bytes[SETUP_HEADER_OFFSET..SETUP_HEADER_END],
        &img[SETUP_HEADER_OFFSET..SETUP_HEADER_END]
    );
}
