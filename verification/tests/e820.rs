use linux_boot_params::e820::{E820Entry, E820_ENTRY_SIZE};

#[test]
fn entry_keeps_what_it_was_made_of() {
    let e = E820Entry::new(0x10_0000, 0x7ff0_0000, 1);
    assert_eq!(e.addr, 0x10_0000);
    assert_eq!(e.size, 0x7ff0_0000);
    assert_eq!(e.entry_type, 1);
    assert_eq!(e, E820Entry { addr: 0x10_0000, size: 0x7ff0_0000, entry_type: 1 });
}

#[test]
fn default_entry_is_zero() {
    assert_eq!(E820Entry::default(), E820Entry::new(0, 0, 0));
    let mut out = Vec::new();
    E820Entry::default().write_to(&mut out);
    assert_eq!(out, vec![0u8; E820_ENTRY_SIZE]);
}

#[test]
fn entry_is_written_as_twenty_bytes() {
    let e = E820Entry::new(0x0102_0304_0506_0708, 0x1112_1314_1516_1718, 0x2122_2324);
    let mut out = vec![0xaa];
    e.write_to(&mut out);
    assert_eq!(
        out,
        vec![
            0xaa, 0x08, 0x07, 0x06, 0x05, 0x04, 0x03, 0x02, 0x01, 0x18, 0x17, 0x16, 0x15, 0x14,
            0x13, 0x12, 0x11, 0x24, 0x23, 0x22, 0x21
        ]
    );
}
