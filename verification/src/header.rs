//! The real-mode kernel header ("setup header") of a Linux/x86 kernel image.
//!
//! The header starts at byte `0x1f1` of the image and of the zero page, and
//! its fields follow one another without padding, every integer stored
//! little-endian. [`SetupHeader::spec_from_file`] states where each field is
//! read from, and [`SetupHeader::spec_to_bytes`] the bytes a header is written
//! as.

use crate::endian::{
    le_u16_at, le_u32_at, le_u64_at, lemma_encode_decode_u16, lemma_encode_decode_u32,
    lemma_encode_decode_u64, lemma_encoding_len, lemma_field_u16, lemma_field_u32,
    lemma_field_u64, lemma_field_u8, lemma_join_ranges, lemma_single_byte, lemma_split_prefix,
    lemma_zero_encodings, lemma_zeros_join, put_u16, put_u32, put_u64, put_u8, u16_at, u16_le,
    u32_at, u32_le, u64_at, u64_le, zeros,
};
use crate::error::BootError;
use vstd::prelude::*;

verus! {

/// The value of `boot_flag` in a genuine header.
pub const HDR_BOOT_FLAG: u16 = 0xaa55;

/// The value of `header` in a genuine header: "HdrS", read little-endian.
pub const HDR_SIGNATURE: u32 = 0x5372_6448;

/// The `type_of_loader` of a boot loader that has no assigned identifier.
pub const HDR_TYPE_LOADER: u8 = 0xff;

/// The bit of `loadflags` that says the protected-mode code is loaded high.
pub const HDR_LOAD_HIGH: u8 = 0x01;

/// The oldest boot protocol version that is supported.
pub const HDR_MIN_VERSION: u16 = 0x0200;

/// Offset of the first byte of the header in a kernel image and in the zero page.
pub const SETUP_HEADER_OFFSET: usize = 0x1f1;

/// Number of bytes that the header occupies.
pub const SETUP_HEADER_SIZE: usize = 0x77;

/// Offset of the first byte after the header.
pub const SETUP_HEADER_END: usize = 0x268;

/// The kernel's description of itself, as found in the first two sectors of
/// the kernel image.
#[derive(Clone, Copy, Debug, PartialEq, Eq, Structural)]
pub struct SetupHeader {
    /// Size of the setup code in 512-byte sectors. Offset `0x1f1`.
    pub setup_sects: u8,
    /// Nonzero if the root is mounted read-only. Offset `0x1f2`.
    pub root_flags: u16,
    /// Size of the protected-mode code in 16-byte units. Offset `0x1f4`.
    pub syssize: u32,
    /// Not for use by a boot loader. Offset `0x1f8`.
    pub ram_size: u16,
    /// Video mode control. Offset `0x1fa`.
    pub vid_mode: u16,
    /// Default root device number. Offset `0x1fc`.
    pub root_dev: u16,
    /// Boot sector magic, [`HDR_BOOT_FLAG`] in a genuine header. Offset `0x1fe`.
    pub boot_flag: u16,
    /// Jump instruction. Offset `0x200`.
    pub jump: u16,
    /// Signature, [`HDR_SIGNATURE`] in a genuine header. Offset `0x202`.
    pub header: u32,
    /// Boot protocol version, major in the high byte. Offset `0x206`.
    pub version: u16,
    /// Boot loader hook. Offset `0x208`.
    pub realmode_swtch: u32,
    /// The load-low segment, obsolete. Offset `0x20c`.
    pub start_sys_seg: u16,
    /// Pointer to the kernel version string. Offset `0x20e`.
    pub kernel_version: u16,
    /// Boot loader identifier, [`HDR_TYPE_LOADER`] if none is assigned. Offset `0x210`.
    pub type_of_loader: u8,
    /// Boot protocol option flags, among them [`HDR_LOAD_HIGH`]. Offset `0x211`.
    pub loadflags: u8,
    /// Move to high memory size. Offset `0x212`.
    pub setup_move_size: u16,
    /// Address of the 32-bit entry point. Offset `0x214`.
    pub code32_start: u32,
    /// Load address of the initial ramdisk. Offset `0x218`.
    pub ramdisk_image: u32,
    /// Size of the initial ramdisk. Offset `0x21c`.
    pub ramdisk_size: u32,
    /// Not for use by a boot loader. Offset `0x220`.
    pub bootsect_kludge: u32,
    /// Free memory after the setup code ends here. Offset `0x224`.
    pub heap_end_ptr: u16,
    /// Extended boot loader version. Offset `0x226`.
    pub ext_loader_ver: u8,
    /// Extended boot loader identifier. Offset `0x227`.
    pub ext_loader_type: u8,
    /// 32-bit pointer to the kernel command line. Offset `0x228`.
    pub cmd_line_ptr: u32,
    /// Highest legal address of the initial ramdisk. Offset `0x22c`.
    pub initrd_addr_max: u32,
    /// Physical address alignment required for the kernel. Offset `0x230`.
    pub kernel_alignment: u32,
    /// Nonzero if the kernel is relocatable. Offset `0x234`.
    pub relocatable_kernel: u8,
    /// Minimum alignment, as a power of two. Offset `0x235`.
    pub min_alignment: u8,
    /// More boot protocol option flags. Offset `0x236`.
    pub xloadflags: u16,
    /// Maximum size of the kernel command line. Offset `0x238`.
    pub cmdline_size: u32,
    /// Hardware subarchitecture. Offset `0x23c`.
    pub hardware_subarch: u32,
    /// Data specific to the subarchitecture. Offset `0x240`.
    pub hardware_subarch_data: u64,
    /// Offset of the kernel payload. Offset `0x248`.
    pub payload_offset: u32,
    /// Length of the kernel payload. Offset `0x24c`.
    pub payload_length: u32,
    /// 64-bit physical pointer to a linked list of setup data. Offset `0x250`.
    pub setup_data: u64,
    /// Preferred load address. Offset `0x258`.
    pub pref_address: u64,
    /// Linear memory required during initialization. Offset `0x260`.
    pub init_size: u32,
    /// Offset of the handover entry point. Offset `0x264`.
    pub handover_offset: u32,
}

impl SetupHeader {
    /// The header whose every field is zero.
    pub open spec fn spec_zeroed() -> SetupHeader {
        SetupHeader {
            setup_sects: 0,
            root_flags: 0,
            syssize: 0,
            ram_size: 0,
            vid_mode: 0,
            root_dev: 0,
            boot_flag: 0,
            jump: 0,
            header: 0,
            version: 0,
            realmode_swtch: 0,
            start_sys_seg: 0,
            kernel_version: 0,
            type_of_loader: 0,
            loadflags: 0,
            setup_move_size: 0,
            code32_start: 0,
            ramdisk_image: 0,
            ramdisk_size: 0,
            bootsect_kludge: 0,
            heap_end_ptr: 0,
            ext_loader_ver: 0,
            ext_loader_type: 0,
            cmd_line_ptr: 0,
            initrd_addr_max: 0,
            kernel_alignment: 0,
            relocatable_kernel: 0,
            min_alignment: 0,
            xloadflags: 0,
            cmdline_size: 0,
            hardware_subarch: 0,
            hardware_subarch_data: 0,
            payload_offset: 0,
            payload_length: 0,
            setup_data: 0,
            pref_address: 0,
            init_size: 0,
            handover_offset: 0,
        }
    }

    /// The header stored in the image `img`: each field read little-endian
    /// from its offset in the image.
    pub open spec fn spec_from_file(img: Seq<u8>) -> SetupHeader
        recommends
            img.len() >= SETUP_HEADER_END,
    {
        SetupHeader {
            setup_sects: img[0x1f1],
            root_flags: le_u16_at(img, 0x1f2),
            syssize: le_u32_at(img, 0x1f4),
            ram_size: le_u16_at(img, 0x1f8),
            vid_mode: le_u16_at(img, 0x1fa),
            root_dev: le_u16_at(img, 0x1fc),
            boot_flag: le_u16_at(img, 0x1fe),
            jump: le_u16_at(img, 0x200),
            header: le_u32_at(img, 0x202),
            version: le_u16_at(img, 0x206),
            realmode_swtch: le_u32_at(img, 0x208),
            start_sys_seg: le_u16_at(img, 0x20c),
            kernel_version: le_u16_at(img, 0x20e),
            type_of_loader: img[0x210],
            loadflags: img[0x211],
            setup_move_size: le_u16_at(img, 0x212),
            code32_start: le_u32_at(img, 0x214),
            ramdisk_image: le_u32_at(img, 0x218),
            ramdisk_size: le_u32_at(img, 0x21c),
            bootsect_kludge: le_u32_at(img, 0x220),
            heap_end_ptr: le_u16_at(img, 0x224),
            ext_loader_ver: img[0x226],
            ext_loader_type: img[0x227],
            cmd_line_ptr: le_u32_at(img, 0x228),
            initrd_addr_max: le_u32_at(img, 0x22c),
            kernel_alignment: le_u32_at(img, 0x230),
            relocatable_kernel: img[0x234],
            min_alignment: img[0x235],
            xloadflags: le_u16_at(img, 0x236),
            cmdline_size: le_u32_at(img, 0x238),
            hardware_subarch: le_u32_at(img, 0x23c),
            hardware_subarch_data: le_u64_at(img, 0x240),
            payload_offset: le_u32_at(img, 0x248),
            payload_length: le_u32_at(img, 0x24c),
            setup_data: le_u64_at(img, 0x250),
            pref_address: le_u64_at(img, 0x258),
            init_size: le_u32_at(img, 0x260),
            handover_offset: le_u32_at(img, 0x264),
        }
    }

    /// The bytes that the header is written as: the encodings of its fields
    /// in order, with nothing between them.
    pub open spec fn spec_to_bytes(self) -> Seq<u8> {
        seq![self.setup_sects]
            + u16_le(self.root_flags)
            + u32_le(self.syssize)
            + u16_le(self.ram_size)
            + u16_le(self.vid_mode)
            + u16_le(self.root_dev)
            + u16_le(self.boot_flag)
            + u16_le(self.jump)
            + u32_le(self.header)
            + u16_le(self.version)
            + u32_le(self.realmode_swtch)
            + u16_le(self.start_sys_seg)
            + u16_le(self.kernel_version)
            + seq![self.type_of_loader]
            + seq![self.loadflags]
            + u16_le(self.setup_move_size)
            + u32_le(self.code32_start)
            + u32_le(self.ramdisk_image)
            + u32_le(self.ramdisk_size)
            + u32_le(self.bootsect_kludge)
            + u16_le(self.heap_end_ptr)
            + seq![self.ext_loader_ver]
            + seq![self.ext_loader_type]
            + u32_le(self.cmd_line_ptr)
            + u32_le(self.initrd_addr_max)
            + u32_le(self.kernel_alignment)
            + seq![self.relocatable_kernel]
            + seq![self.min_alignment]
            + u16_le(self.xloadflags)
            + u32_le(self.cmdline_size)
            + u32_le(self.hardware_subarch)
            + u64_le(self.hardware_subarch_data)
            + u32_le(self.payload_offset)
            + u32_le(self.payload_length)
            + u64_le(self.setup_data)
            + u64_le(self.pref_address)
            + u32_le(self.init_size)
            + u32_le(self.handover_offset)
    }

    /// Whether the header is that of a genuine kernel image of a supported
    /// protocol version.
    pub open spec fn spec_is_valid(self) -> bool {
        &&& self.boot_flag == HDR_BOOT_FLAG
        &&& self.header == HDR_SIGNATURE
        &&& self.version >= HDR_MIN_VERSION
    }

    /// Reads the header from the first two sectors of a kernel image.
    ///
    /// Fails with `BufferTooSmall` exactly when the image ends before the
    /// header does. The fields are not judged here: see [`SetupHeader::validate`].
    pub fn from_file(kernel_file: &[u8]) -> (r: Result<SetupHeader, BootError>)
        ensures
            kernel_file@.len() < SETUP_HEADER_END ==> r == Err::<SetupHeader, BootError>(
                BootError::BufferTooSmall,
            ),
            kernel_file@.len() >= SETUP_HEADER_END ==> r == Ok::<SetupHeader, BootError>(
                Self::spec_from_file(kernel_file@),
            ),
    {
        if kernel_file.len() < SETUP_HEADER_END {
            return Err(BootError::BufferTooSmall);
        }
        Ok(
            SetupHeader {
                setup_sects: kernel_file[0x1f1],
                root_flags: u16_at(kernel_file, 0x1f2),
                syssize: u32_at(kernel_file, 0x1f4),
                ram_size: u16_at(kernel_file, 0x1f8),
                vid_mode: u16_at(kernel_file, 0x1fa),
                root_dev: u16_at(kernel_file, 0x1fc),
                boot_flag: u16_at(kernel_file, 0x1fe),
                jump: u16_at(kernel_file, 0x200),
                header: u32_at(kernel_file, 0x202),
                version: u16_at(kernel_file, 0x206),
                realmode_swtch: u32_at(kernel_file, 0x208),
                start_sys_seg: u16_at(kernel_file, 0x20c),
                kernel_version: u16_at(kernel_file, 0x20e),
                type_of_loader: kernel_file[0x210],
                loadflags: kernel_file[0x211],
                setup_move_size: u16_at(kernel_file, 0x212),
                code32_start: u32_at(kernel_file, 0x214),
                ramdisk_image: u32_at(kernel_file, 0x218),
                ramdisk_size: u32_at(kernel_file, 0x21c),
                bootsect_kludge: u32_at(kernel_file, 0x220),
                heap_end_ptr: u16_at(kernel_file, 0x224),
                ext_loader_ver: kernel_file[0x226],
                ext_loader_type: kernel_file[0x227],
                cmd_line_ptr: u32_at(kernel_file, 0x228),
                initrd_addr_max: u32_at(kernel_file, 0x22c),
                kernel_alignment: u32_at(kernel_file, 0x230),
                relocatable_kernel: kernel_file[0x234],
                min_alignment: kernel_file[0x235],
                xloadflags: u16_at(kernel_file, 0x236),
                cmdline_size: u32_at(kernel_file, 0x238),
                hardware_subarch: u32_at(kernel_file, 0x23c),
                hardware_subarch_data: u64_at(kernel_file, 0x240),
                payload_offset: u32_at(kernel_file, 0x248),
                payload_length: u32_at(kernel_file, 0x24c),
                setup_data: u64_at(kernel_file, 0x250),
                pref_address: u64_at(kernel_file, 0x258),
                init_size: u32_at(kernel_file, 0x260),
                handover_offset: u32_at(kernel_file, 0x264),
            },
        )
    }

    /// Decides whether the header may be trusted, checking the boot flag,
    /// then the signature, then the version. A header that passes is
    /// returned as it was given.
    pub fn validate(self) -> (r: Result<SetupHeader, BootError>)
        ensures
            self.boot_flag != HDR_BOOT_FLAG ==> r == Err::<SetupHeader, BootError>(
                BootError::InvalidBootFlag,
            ),
            self.boot_flag == HDR_BOOT_FLAG && self.header != HDR_SIGNATURE ==> r == Err::<
                SetupHeader,
                BootError,
            >(BootError::InvalidSignature),
            self.boot_flag == HDR_BOOT_FLAG && self.header == HDR_SIGNATURE && self.version
                < HDR_MIN_VERSION ==> r == Err::<SetupHeader, BootError>(
                BootError::UnsupportedVersion,
            ),
            self.spec_is_valid() ==> r == Ok::<SetupHeader, BootError>(self),
            r is Ok <==> self.spec_is_valid(),
    {
        if self.boot_flag != HDR_BOOT_FLAG {
            Err(BootError::InvalidBootFlag)
        } else if self.header != HDR_SIGNATURE {
            Err(BootError::InvalidSignature)
        } else if self.version < HDR_MIN_VERSION {
            Err(BootError::UnsupportedVersion)
        } else {
            Ok(self)
        }
    }

    /// Writes the header as the bytes it occupies in an image.
    pub fn to_bytes(&self) -> (out: Vec<u8>)
        ensures
            out@ == self.spec_to_bytes(),
            out@.len() == SETUP_HEADER_SIZE,
    {
        proof {
            lemma_encoding_len();
        }
        let mut out: Vec<u8> = Vec::with_capacity(SETUP_HEADER_SIZE);
        put_u8(&mut out, self.setup_sects);
        assert(out@ =~= seq![self.setup_sects]);
        put_u16(&mut out, self.root_flags);
        put_u32(&mut out, self.syssize);
        put_u16(&mut out, self.ram_size);
        put_u16(&mut out, self.vid_mode);
        put_u16(&mut out, self.root_dev);
        put_u16(&mut out, self.boot_flag);
        put_u16(&mut out, self.jump);
        put_u32(&mut out, self.header);
        put_u16(&mut out, self.version);
        put_u32(&mut out, self.realmode_swtch);
        put_u16(&mut out, self.start_sys_seg);
        put_u16(&mut out, self.kernel_version);
        put_u8(&mut out, self.type_of_loader);
        put_u8(&mut out, self.loadflags);
        put_u16(&mut out, self.setup_move_size);
        put_u32(&mut out, self.code32_start);
        put_u32(&mut out, self.ramdisk_image);
        put_u32(&mut out, self.ramdisk_size);
        put_u32(&mut out, self.bootsect_kludge);
        put_u16(&mut out, self.heap_end_ptr);
        put_u8(&mut out, self.ext_loader_ver);
        put_u8(&mut out, self.ext_loader_type);
        put_u32(&mut out, self.cmd_line_ptr);
        put_u32(&mut out, self.initrd_addr_max);
        put_u32(&mut out, self.kernel_alignment);
        put_u8(&mut out, self.relocatable_kernel);
        put_u8(&mut out, self.min_alignment);
        put_u16(&mut out, self.xloadflags);
        put_u32(&mut out, self.cmdline_size);
        put_u32(&mut out, self.hardware_subarch);
        put_u64(&mut out, self.hardware_subarch_data);
        put_u32(&mut out, self.payload_offset);
        put_u32(&mut out, self.payload_length);
        put_u64(&mut out, self.setup_data);
        put_u64(&mut out, self.pref_address);
        put_u32(&mut out, self.init_size);
        put_u32(&mut out, self.handover_offset);
        out
    }
}

impl Default for SetupHeader {
    /// The header whose every field is zero.
    fn default() -> (r: SetupHeader)
        ensures
            r == SetupHeader::spec_zeroed(),
    {
        SetupHeader {
            setup_sects: 0,
            root_flags: 0,
            syssize: 0,
            ram_size: 0,
            vid_mode: 0,
            root_dev: 0,
            boot_flag: 0,
            jump: 0,
            header: 0,
            version: 0,
            realmode_swtch: 0,
            start_sys_seg: 0,
            kernel_version: 0,
            type_of_loader: 0,
            loadflags: 0,
            setup_move_size: 0,
            code32_start: 0,
            ramdisk_image: 0,
            ramdisk_size: 0,
            bootsect_kludge: 0,
            heap_end_ptr: 0,
            ext_loader_ver: 0,
            ext_loader_type: 0,
            cmd_line_ptr: 0,
            initrd_addr_max: 0,
            kernel_alignment: 0,
            relocatable_kernel: 0,
            min_alignment: 0,
            xloadflags: 0,
            cmdline_size: 0,
            hardware_subarch: 0,
            hardware_subarch_data: 0,
            payload_offset: 0,
            payload_length: 0,
            setup_data: 0,
            pref_address: 0,
            init_size: 0,
            handover_offset: 0,
        }
    }
}

/// Every header is written as exactly `SETUP_HEADER_SIZE` bytes.
pub proof fn lemma_to_bytes_len(h: SetupHeader)
    ensures
        h.spec_to_bytes().len() == SETUP_HEADER_SIZE,
{
    lemma_encoding_len();
}

/// Reading a header from an image and writing it again gives the bytes that
/// the image holds from `SETUP_HEADER_OFFSET` up to `SETUP_HEADER_END`.
pub proof fn lemma_read_then_write(img: Seq<u8>)
    requires
        img.len() >= SETUP_HEADER_END,
    ensures
        SetupHeader::spec_from_file(img).spec_to_bytes() == img.subrange(
            SETUP_HEADER_OFFSET as int,
            SETUP_HEADER_END as int,
        ),
{
    lemma_single_byte(img, 0x1f1);
    lemma_encode_decode_u16(img, 0x1f2);
    lemma_join_ranges(img, 0x1f1, 0x1f2, 0x1f4);
    lemma_encode_decode_u32(img, 0x1f4);
    lemma_join_ranges(img, 0x1f1, 0x1f4, 0x1f8);
    lemma_encode_decode_u16(img, 0x1f8);
    lemma_join_ranges(img, 0x1f1, 0x1f8, 0x1fa);
    lemma_encode_decode_u16(img, 0x1fa);
    lemma_join_ranges(img, 0x1f1, 0x1fa, 0x1fc);
    lemma_encode_decode_u16(img, 0x1fc);
    lemma_join_ranges(img, 0x1f1, 0x1fc, 0x1fe);
    lemma_encode_decode_u16(img, 0x1fe);
    lemma_join_ranges(img, 0x1f1, 0x1fe, 0x200);
    lemma_encode_decode_u16(img, 0x200);
    lemma_join_ranges(img, 0x1f1, 0x200, 0x202);
    lemma_encode_decode_u32(img, 0x202);
    lemma_join_ranges(img, 0x1f1, 0x202, 0x206);
    lemma_encode_decode_u16(img, 0x206);
    lemma_join_ranges(img, 0x1f1, 0x206, 0x208);
    lemma_encode_decode_u32(img, 0x208);
    lemma_join_ranges(img, 0x1f1, 0x208, 0x20c);
    lemma_encode_decode_u16(img, 0x20c);
    lemma_join_ranges(img, 0x1f1, 0x20c, 0x20e);
    lemma_encode_decode_u16(img, 0x20e);
    lemma_join_ranges(img, 0x1f1, 0x20e, 0x210);
    lemma_single_byte(img, 0x210);
    lemma_join_ranges(img, 0x1f1, 0x210, 0x211);
    lemma_single_byte(img, 0x211);
    lemma_join_ranges(img, 0x1f1, 0x211, 0x212);
    lemma_encode_decode_u16(img, 0x212);
    lemma_join_ranges(img, 0x1f1, 0x212, 0x214);
    lemma_encode_decode_u32(img, 0x214);
    lemma_join_ranges(img, 0x1f1, 0x214, 0x218);
    lemma_encode_decode_u32(img, 0x218);
    lemma_join_ranges(img, 0x1f1, 0x218, 0x21c);
    lemma_encode_decode_u32(img, 0x21c);
    lemma_join_ranges(img, 0x1f1, 0x21c, 0x220);
    lemma_encode_decode_u32(img, 0x220);
    lemma_join_ranges(img, 0x1f1, 0x220, 0x224);
    lemma_encode_decode_u16(img, 0x224);
    lemma_join_ranges(img, 0x1f1, 0x224, 0x226);
    lemma_single_byte(img, 0x226);
    lemma_join_ranges(img, 0x1f1, 0x226, 0x227);
    lemma_single_byte(img, 0x227);
    lemma_join_ranges(img, 0x1f1, 0x227, 0x228);
    lemma_encode_decode_u32(img, 0x228);
    lemma_join_ranges(img, 0x1f1, 0x228, 0x22c);
    lemma_encode_decode_u32(img, 0x22c);
    lemma_join_ranges(img, 0x1f1, 0x22c, 0x230);
    lemma_encode_decode_u32(img, 0x230);
    lemma_join_ranges(img, 0x1f1, 0x230, 0x234);
    lemma_single_byte(img, 0x234);
    lemma_join_ranges(img, 0x1f1, 0x234, 0x235);
    lemma_single_byte(img, 0x235);
    lemma_join_ranges(img, 0x1f1, 0x235, 0x236);
    lemma_encode_decode_u16(img, 0x236);
    lemma_join_ranges(img, 0x1f1, 0x236, 0x238);
    lemma_encode_decode_u32(img, 0x238);
    lemma_join_ranges(img, 0x1f1, 0x238, 0x23c);
    lemma_encode_decode_u32(img, 0x23c);
    lemma_join_ranges(img, 0x1f1, 0x23c, 0x240);
    lemma_encode_decode_u64(img, 0x240);
    lemma_join_ranges(img, 0x1f1, 0x240, 0x248);
    lemma_encode_decode_u32(img, 0x248);
    lemma_join_ranges(img, 0x1f1, 0x248, 0x24c);
    lemma_encode_decode_u32(img, 0x24c);
    lemma_join_ranges(img, 0x1f1, 0x24c, 0x250);
    lemma_encode_decode_u64(img, 0x250);
    lemma_join_ranges(img, 0x1f1, 0x250, 0x258);
    lemma_encode_decode_u64(img, 0x258);
    lemma_join_ranges(img, 0x1f1, 0x258, 0x260);
    lemma_encode_decode_u32(img, 0x260);
    lemma_join_ranges(img, 0x1f1, 0x260, 0x264);
    lemma_encode_decode_u32(img, 0x264);
    lemma_join_ranges(img, 0x1f1, 0x264, 0x268);
}

/// Where each field stands in the bytes of a header: the encoding of a field
/// occupies the range that starts at the field's offset within the header.
pub proof fn lemma_to_bytes_fields(h: SetupHeader)
    ensures
        h.spec_to_bytes().subrange(0x00, 0x01) == seq![h.setup_sects],
        h.spec_to_bytes().subrange(0x01, 0x03) == u16_le(h.root_flags),
        h.spec_to_bytes().subrange(0x03, 0x07) == u32_le(h.syssize),
        h.spec_to_bytes().subrange(0x07, 0x09) == u16_le(h.ram_size),
        h.spec_to_bytes().subrange(0x09, 0x0b) == u16_le(h.vid_mode),
        h.spec_to_bytes().subrange(0x0b, 0x0d) == u16_le(h.root_dev),
        h.spec_to_bytes().subrange(0x0d, 0x0f) == u16_le(h.boot_flag),
        h.spec_to_bytes().subrange(0x0f, 0x11) == u16_le(h.jump),
        h.spec_to_bytes().subrange(0x11, 0x15) == u32_le(h.header),
        h.spec_to_bytes().subrange(0x15, 0x17) == u16_le(h.version),
        h.spec_to_bytes().subrange(0x17, 0x1b) == u32_le(h.realmode_swtch),
        h.spec_to_bytes().subrange(0x1b, 0x1d) == u16_le(h.start_sys_seg),
        h.spec_to_bytes().subrange(0x1d, 0x1f) == u16_le(h.kernel_version),
        h.spec_to_bytes().subrange(0x1f, 0x20) == seq![h.type_of_loader],
        h.spec_to_bytes().subrange(0x20, 0x21) == seq![h.loadflags],
        h.spec_to_bytes().subrange(0x21, 0x23) == u16_le(h.setup_move_size),
        h.spec_to_bytes().subrange(0x23, 0x27) == u32_le(h.code32_start),
        h.spec_to_bytes().subrange(0x27, 0x2b) == u32_le(h.ramdisk_image),
        h.spec_to_bytes().subrange(0x2b, 0x2f) == u32_le(h.ramdisk_size),
        h.spec_to_bytes().subrange(0x2f, 0x33) == u32_le(h.bootsect_kludge),
        h.spec_to_bytes().subrange(0x33, 0x35) == u16_le(h.heap_end_ptr),
        h.spec_to_bytes().subrange(0x35, 0x36) == seq![h.ext_loader_ver],
        h.spec_to_bytes().subrange(0x36, 0x37) == seq![h.ext_loader_type],
        h.spec_to_bytes().subrange(0x37, 0x3b) == u32_le(h.cmd_line_ptr),
        h.spec_to_bytes().subrange(0x3b, 0x3f) == u32_le(h.initrd_addr_max),
        h.spec_to_bytes().subrange(0x3f, 0x43) == u32_le(h.kernel_alignment),
        h.spec_to_bytes().subrange(0x43, 0x44) == seq![h.relocatable_kernel],
        h.spec_to_bytes().subrange(0x44, 0x45) == seq![h.min_alignment],
        h.spec_to_bytes().subrange(0x45, 0x47) == u16_le(h.xloadflags),
        h.spec_to_bytes().subrange(0x47, 0x4b) == u32_le(h.cmdline_size),
        h.spec_to_bytes().subrange(0x4b, 0x4f) == u32_le(h.hardware_subarch),
        h.spec_to_bytes().subrange(0x4f, 0x57) == u64_le(h.hardware_subarch_data),
        h.spec_to_bytes().subrange(0x57, 0x5b) == u32_le(h.payload_offset),
        h.spec_to_bytes().subrange(0x5b, 0x5f) == u32_le(h.payload_length),
        h.spec_to_bytes().subrange(0x5f, 0x67) == u64_le(h.setup_data),
        h.spec_to_bytes().subrange(0x67, 0x6f) == u64_le(h.pref_address),
        h.spec_to_bytes().subrange(0x6f, 0x73) == u32_le(h.init_size),
        h.spec_to_bytes().subrange(0x73, 0x77) == u32_le(h.handover_offset),
{
    lemma_encoding_len();
    let b = h.spec_to_bytes();
    let q0 = seq![h.setup_sects];
    assert(q0.len() == 0x01);
    let q1 = q0 + u16_le(h.root_flags);
    assert(q1.len() == 0x03);
    let q2 = q1 + u32_le(h.syssize);
    assert(q2.len() == 0x07);
    let q3 = q2 + u16_le(h.ram_size);
    assert(q3.len() == 0x09);
    let q4 = q3 + u16_le(h.vid_mode);
    assert(q4.len() == 0x0b);
    let q5 = q4 + u16_le(h.root_dev);
    assert(q5.len() == 0x0d);
    let q6 = q5 + u16_le(h.boot_flag);
    assert(q6.len() == 0x0f);
    let q7 = q6 + u16_le(h.jump);
    assert(q7.len() == 0x11);
    let q8 = q7 + u32_le(h.header);
    assert(q8.len() == 0x15);
    let q9 = q8 + u16_le(h.version);
    assert(q9.len() == 0x17);
    let q10 = q9 + u32_le(h.realmode_swtch);
    assert(q10.len() == 0x1b);
    let q11 = q10 + u16_le(h.start_sys_seg);
    assert(q11.len() == 0x1d);
    let q12 = q11 + u16_le(h.kernel_version);
    assert(q12.len() == 0x1f);
    let q13 = q12 + seq![h.type_of_loader];
    assert(q13.len() == 0x20);
    let q14 = q13 + seq![h.loadflags];
    assert(q14.len() == 0x21);
    let q15 = q14 + u16_le(h.setup_move_size);
    assert(q15.len() == 0x23);
    let q16 = q15 + u32_le(h.code32_start);
    assert(q16.len() == 0x27);
    let q17 = q16 + u32_le(h.ramdisk_image);
    assert(q17.len() == 0x2b);
    let q18 = q17 + u32_le(h.ramdisk_size);
    assert(q18.len() == 0x2f);
    let q19 = q18 + u32_le(h.bootsect_kludge);
    assert(q19.len() == 0x33);
    let q20 = q19 + u16_le(h.heap_end_ptr);
    assert(q20.len() == 0x35);
    let q21 = q20 + seq![h.ext_loader_ver];
    assert(q21.len() == 0x36);
    let q22 = q21 + seq![h.ext_loader_type];
    assert(q22.len() == 0x37);
    let q23 = q22 + u32_le(h.cmd_line_ptr);
    assert(q23.len() == 0x3b);
    let q24 = q23 + u32_le(h.initrd_addr_max);
    assert(q24.len() == 0x3f);
    let q25 = q24 + u32_le(h.kernel_alignment);
    assert(q25.len() == 0x43);
    let q26 = q25 + seq![h.relocatable_kernel];
    assert(q26.len() == 0x44);
    let q27 = q26 + seq![h.min_alignment];
    assert(q27.len() == 0x45);
    let q28 = q27 + u16_le(h.xloadflags);
    assert(q28.len() == 0x47);
    let q29 = q28 + u32_le(h.cmdline_size);
    assert(q29.len() == 0x4b);
    let q30 = q29 + u32_le(h.hardware_subarch);
    assert(q30.len() == 0x4f);
    let q31 = q30 + u64_le(h.hardware_subarch_data);
    assert(q31.len() == 0x57);
    let q32 = q31 + u32_le(h.payload_offset);
    assert(q32.len() == 0x5b);
    let q33 = q32 + u32_le(h.payload_length);
    assert(q33.len() == 0x5f);
    let q34 = q33 + u64_le(h.setup_data);
    assert(q34.len() == 0x67);
    let q35 = q34 + u64_le(h.pref_address);
    assert(q35.len() == 0x6f);
    let q36 = q35 + u32_le(h.init_size);
    assert(q36.len() == 0x73);
    let q37 = q36 + u32_le(h.handover_offset);
    assert(q37.len() == 0x77);
    assert(b.subrange(0, q37.len() as int) =~= q37);
    lemma_split_prefix(b, q36, u32_le(h.handover_offset));
    lemma_split_prefix(b, q35, u32_le(h.init_size));
    lemma_split_prefix(b, q34, u64_le(h.pref_address));
    lemma_split_prefix(b, q33, u64_le(h.setup_data));
    lemma_split_prefix(b, q32, u32_le(h.payload_length));
    lemma_split_prefix(b, q31, u32_le(h.payload_offset));
    lemma_split_prefix(b, q30, u64_le(h.hardware_subarch_data));
    lemma_split_prefix(b, q29, u32_le(h.hardware_subarch));
    lemma_split_prefix(b, q28, u32_le(h.cmdline_size));
    lemma_split_prefix(b, q27, u16_le(h.xloadflags));
    lemma_split_prefix(b, q26, seq![h.min_alignment]);
    lemma_split_prefix(b, q25, seq![h.relocatable_kernel]);
    lemma_split_prefix(b, q24, u32_le(h.kernel_alignment));
    lemma_split_prefix(b, q23, u32_le(h.initrd_addr_max));
    lemma_split_prefix(b, q22, u32_le(h.cmd_line_ptr));
    lemma_split_prefix(b, q21, seq![h.ext_loader_type]);
    lemma_split_prefix(b, q20, seq![h.ext_loader_ver]);
    lemma_split_prefix(b, q19, u16_le(h.heap_end_ptr));
    lemma_split_prefix(b, q18, u32_le(h.bootsect_kludge));
    lemma_split_prefix(b, q17, u32_le(h.ramdisk_size));
    lemma_split_prefix(b, q16, u32_le(h.ramdisk_image));
    lemma_split_prefix(b, q15, u32_le(h.code32_start));
    lemma_split_prefix(b, q14, u16_le(h.setup_move_size));
    lemma_split_prefix(b, q13, seq![h.loadflags]);
    lemma_split_prefix(b, q12, seq![h.type_of_loader]);
    lemma_split_prefix(b, q11, u16_le(h.kernel_version));
    lemma_split_prefix(b, q10, u16_le(h.start_sys_seg));
    lemma_split_prefix(b, q9, u32_le(h.realmode_swtch));
    lemma_split_prefix(b, q8, u16_le(h.version));
    lemma_split_prefix(b, q7, u32_le(h.header));
    lemma_split_prefix(b, q6, u16_le(h.jump));
    lemma_split_prefix(b, q5, u16_le(h.boot_flag));
    lemma_split_prefix(b, q4, u16_le(h.root_dev));
    lemma_split_prefix(b, q3, u16_le(h.vid_mode));
    lemma_split_prefix(b, q2, u16_le(h.ram_size));
    lemma_split_prefix(b, q1, u32_le(h.syssize));
    lemma_split_prefix(b, q0, u16_le(h.root_flags));
}

/// Writing a header into an image and reading the image gives the header
/// back, field by field.
pub proof fn lemma_write_then_read(h: SetupHeader, img: Seq<u8>)
    requires
        img.len() >= SETUP_HEADER_END,
        img.subrange(SETUP_HEADER_OFFSET as int, SETUP_HEADER_END as int) == h.spec_to_bytes(),
    ensures
        SetupHeader::spec_from_file(img) == h,
{
    lemma_encoding_len();
    let b = h.spec_to_bytes();
    lemma_to_bytes_fields(h);
    lemma_field_u8(img, b, 0x1f1, 0x00, h.setup_sects);
    lemma_field_u16(img, b, 0x1f1, 0x01, h.root_flags);
    lemma_field_u32(img, b, 0x1f1, 0x03, h.syssize);
    lemma_field_u16(img, b, 0x1f1, 0x07, h.ram_size);
    lemma_field_u16(img, b, 0x1f1, 0x09, h.vid_mode);
    lemma_field_u16(img, b, 0x1f1, 0x0b, h.root_dev);
    lemma_field_u16(img, b, 0x1f1, 0x0d, h.boot_flag);
    lemma_field_u16(img, b, 0x1f1, 0x0f, h.jump);
    lemma_field_u32(img, b, 0x1f1, 0x11, h.header);
    lemma_field_u16(img, b, 0x1f1, 0x15, h.version);
    lemma_field_u32(img, b, 0x1f1, 0x17, h.realmode_swtch);
    lemma_field_u16(img, b, 0x1f1, 0x1b, h.start_sys_seg);
    lemma_field_u16(img, b, 0x1f1, 0x1d, h.kernel_version);
    lemma_field_u8(img, b, 0x1f1, 0x1f, h.type_of_loader);
    lemma_field_u8(img, b, 0x1f1, 0x20, h.loadflags);
    lemma_field_u16(img, b, 0x1f1, 0x21, h.setup_move_size);
    lemma_field_u32(img, b, 0x1f1, 0x23, h.code32_start);
    lemma_field_u32(img, b, 0x1f1, 0x27, h.ramdisk_image);
    lemma_field_u32(img, b, 0x1f1, 0x2b, h.ramdisk_size);
    lemma_field_u32(img, b, 0x1f1, 0x2f, h.bootsect_kludge);
    lemma_field_u16(img, b, 0x1f1, 0x33, h.heap_end_ptr);
    lemma_field_u8(img, b, 0x1f1, 0x35, h.ext_loader_ver);
    lemma_field_u8(img, b, 0x1f1, 0x36, h.ext_loader_type);
    lemma_field_u32(img, b, 0x1f1, 0x37, h.cmd_line_ptr);
    lemma_field_u32(img, b, 0x1f1, 0x3b, h.initrd_addr_max);
    lemma_field_u32(img, b, 0x1f1, 0x3f, h.kernel_alignment);
    lemma_field_u8(img, b, 0x1f1, 0x43, h.relocatable_kernel);
    lemma_field_u8(img, b, 0x1f1, 0x44, h.min_alignment);
    lemma_field_u16(img, b, 0x1f1, 0x45, h.xloadflags);
    lemma_field_u32(img, b, 0x1f1, 0x47, h.cmdline_size);
    lemma_field_u32(img, b, 0x1f1, 0x4b, h.hardware_subarch);
    lemma_field_u64(img, b, 0x1f1, 0x4f, h.hardware_subarch_data);
    lemma_field_u32(img, b, 0x1f1, 0x57, h.payload_offset);
    lemma_field_u32(img, b, 0x1f1, 0x5b, h.payload_length);
    lemma_field_u64(img, b, 0x1f1, 0x5f, h.setup_data);
    lemma_field_u64(img, b, 0x1f1, 0x67, h.pref_address);
    lemma_field_u32(img, b, 0x1f1, 0x6f, h.init_size);
    lemma_field_u32(img, b, 0x1f1, 0x73, h.handover_offset);
}

/// The header whose fields are all zero is written as zero bytes.
pub proof fn lemma_zeroed_bytes()
    ensures
        SetupHeader::spec_zeroed().spec_to_bytes() == zeros(SETUP_HEADER_SIZE as nat),
{
    lemma_zero_encodings();
    lemma_zeros_join(1, 2);
    lemma_zeros_join(3, 4);
    lemma_zeros_join(7, 2);
    lemma_zeros_join(9, 2);
    lemma_zeros_join(11, 2);
    lemma_zeros_join(13, 2);
    lemma_zeros_join(15, 2);
    lemma_zeros_join(17, 4);
    lemma_zeros_join(21, 2);
    lemma_zeros_join(23, 4);
    lemma_zeros_join(27, 2);
    lemma_zeros_join(29, 2);
    lemma_zeros_join(31, 1);
    lemma_zeros_join(32, 1);
    lemma_zeros_join(33, 2);
    lemma_zeros_join(35, 4);
    lemma_zeros_join(39, 4);
    lemma_zeros_join(43, 4);
    lemma_zeros_join(47, 4);
    lemma_zeros_join(51, 2);
    lemma_zeros_join(53, 1);
    lemma_zeros_join(54, 1);
    lemma_zeros_join(55, 4);
    lemma_zeros_join(59, 4);
    lemma_zeros_join(63, 4);
    lemma_zeros_join(67, 1);
    lemma_zeros_join(68, 1);
    lemma_zeros_join(69, 2);
    lemma_zeros_join(71, 4);
    lemma_zeros_join(75, 4);
    lemma_zeros_join(79, 8);
    lemma_zeros_join(87, 4);
    lemma_zeros_join(91, 4);
    lemma_zeros_join(95, 8);
    lemma_zeros_join(103, 8);
    lemma_zeros_join(111, 4);
    lemma_zeros_join(115, 4);
}

} // verus!
