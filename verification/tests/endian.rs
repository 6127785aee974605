use linux_boot_params::endian::{put_u16, put_u32, put_u64, put_u8, u16_at, u32_at, u64_at};

#[test]
fn integers_are_read_little_endian() {
    let bytes = [0xff, 0x01, 0x02, 0x03, 0x04, 0x05, 0x06, 0x07, 0x08, 0xff];
    assert_eq!(u16_at(&bytes, 1), 0x0201);
    assert_eq!(u32_at(&bytes, 1), 0x0403_0201);
    assert_eq!(u64_at(&bytes, 1), 0x0807_0605_0403_0201);
    assert_eq!(u16_at(&bytes, 8), 0xff08);
    assert_eq!(u64_at(&bytes, 2), 0xff08_0706_0504_0302);
}

#[test]
fn integers_are_written_little_endian() {
    let mut out = vec![0xeeu8];
    put_u8(&mut out, 0x01);
    put_u16(&mut out, 0x0302);
    put_u32(&mut out, 0x0706_0504);
    put_u64(&mut out, 0x0f0e_0d0c_0b0a_0908);
    assert_eq!(
        out,
        vec![
            0xee, 0x01, 0x02, 0x03, 0x04, 0x05, 0x06, 0x07, 0x08, 0x09, 0x0a, 0x0b, 0x0c, 0x0d,
            0x0e, 0x0f
        ]
    );
}

#[test]
fn extremes_survive_writing_and_reading() {
    for x in [0u64, 1, 0xff, 0x100, 0xffff, 0x1_0000, 0xffff_ffff, 0x1_0000_0000, u64::MAX] {
        let mut out = Vec::new();
        put_u64(&mut out, x);
        assert_eq!(out, x.to_le_bytes().to_vec());
        assert_eq!(u64_at(&out, 0), x);
        let mut out = Vec::new();
        put_u32(&mut out, x as u32);
        assert_eq!(out, (x as u32).to_le_bytes().to_vec());
        assert_eq!(u32_at(&out, 0), x as u32);
        let mut out = Vec::new();
        put_u16(&mut out, x as u16);
        assert_eq!(out, (x as u16).to_le_bytes().to_vec());
        assert_eq!(u16_at(&out, 0), x as u16);
    }
}
