//! The zero page: the boot parameters handed to the kernel at entry.
//!
//! The page is `BOOT_PARAMS_SIZE` bytes long and every region of it stands at
//! an offset that the boot protocol fixes. Only a few fields are ever filled
//! in here: the copy of the setup header, two physical addresses, and the
//! memory map with its count. All the rest is kept, zero, to hold its place.
//!
//! What a [`BootParams`] holds is its view, a
//! [`BootParamsView`](crate::page::BootParamsView).

use crate::e820::{lemma_entry_bytes_len, E820Entry, E820_MAX_ENTRIES};
use crate::endian::{
    lemma_encoding_len, lemma_grow_prefix, lemma_zero_encodings, lemma_zeros_within, put_u32,
    put_u64, put_u8, u64_le, zeros,
};
use crate::error::BootError;
use crate::header::SetupHeader;
use crate::page::{
    lemma_page_regions, lemma_page_slot, lemma_zeroed_page, BootParamsView, BOOT_PARAMS_SIZE,
};
use vstd::prelude::*;

verus! {

/// An array of `N` zero bytes.
fn zero_bytes<const N: usize>() -> (r: [u8; N])
    ensures
        r@ == zeros(N as nat),
{
    let r = [0u8; N];
    assert(r@ =~= zeros(N as nat));
    r
}

/// The boot parameters. A new value is all zero; see [`BootParams::default`].
///
/// Every region that is not in use stays zero for as long as the value
/// lives, `e820_entries` never exceeds the capacity of `e820_table`, and the
/// entries of the table from `e820_entries` on are zero.
#[derive(Clone, Copy)]
pub struct BootParams {
    /// Text mode and frame buffer state, left zero. Offset `0x000`.
    screen_info: [u8; 64],
    /// Power management information, left zero. Offset `0x040`.
    apm_bios_info: [u8; 20],
    /// Padding. Offset `0x054`.
    _pad2: [u8; 4],
    /// Physical address of the trusted boot shared page, left zero. Offset `0x058`.
    tboot_addr: u64,
    /// SpeedStep information, left zero. Offset `0x060`.
    ist_info: [u8; 16],
    /// Physical address of the root pointer of the ACPI tables. Offset `0x070`.
    acpi_rsdp_addr: u64,
    /// Physical address of the table that tracks memory not yet accepted. Offset `0x078`.
    unaccepted_memory: u64,
    /// Geometry of the first disk, obsolete. Offset `0x080`.
    hd0_info: [u8; 16],
    /// Geometry of the second disk, obsolete. Offset `0x090`.
    hd1_info: [u8; 16],
    /// System description table, obsolete. Offset `0x0a0`.
    sys_desc_table: [u8; 16],
    /// Open firmware header, left zero. Offset `0x0b0`.
    olpc_ofw_header: [u8; 16],
    /// High 32 bits of the ramdisk address, left zero. Offset `0x0c0`.
    ext_ramdisk_image: u32,
    /// High 32 bits of the ramdisk size, left zero. Offset `0x0c4`.
    ext_ramdisk_size: u32,
    /// High 32 bits of the command line pointer, left zero. Offset `0x0c8`.
    ext_cmd_line_ptr: u32,
    /// Padding. Offset `0x0cc`.
    _pad4: [u8; 116],
    /// Identification data of the display, left zero. Offset `0x140`.
    edd_info: [u8; 128],
    /// Loader signature and system table of EFI, left zero. Offset `0x1c0`.
    efi_info: [u8; 32],
    /// Alternative memory size detection, left zero. Offset `0x1e0`.
    alt_mem_k: u32,
    /// Scratch field for the setup code, left zero. Offset `0x1e4`.
    scratch: u32,
    /// Number of entries written into `e820_table`. Offset `0x1e8`.
    e820_entries: u8,
    /// Number of entries in `eddbuf`, left zero. Offset `0x1e9`.
    eddbuf_entries: u8,
    /// Number of entries in `edd_mbr_sig_buffer`, left zero. Offset `0x1ea`.
    edd_mbr_sig_buf_entries: u8,
    /// State of the keyboard LEDs, left zero. Offset `0x1eb`.
    kbd_status: u8,
    /// Whether secure boot is enabled in the firmware, left zero. Offset `0x1ec`.
    secure_boot: u8,
    /// Padding. Offset `0x1ed`.
    _pad5: [u8; 2],
    /// Tells the kernel whether the loader cleared the page, left zero. Offset `0x1ef`.
    sentinel: u8,
    /// Padding. Offset `0x1f0`.
    _pad6: [u8; 1],
    /// Copy of the setup header of the kernel image. Offset `0x1f1`.
    hdr: SetupHeader,
    /// Padding between the end of the header and the next region. Offset `0x268`.
    _pad7: [u8; 40],
    /// Signatures of the disks, left zero. Offset `0x290`.
    edd_mbr_sig_buffer: [u8; 64],
    /// The memory map. Offset `0x2d0`.
    e820_table: [E820Entry; 128],
    /// Padding. Offset `0xcd0`.
    _pad8: [u8; 48],
    /// Parameters of the disks, left zero. Offset `0xd00`.
    eddbuf: [u8; 492],
    /// Padding up to the end of the page. Offset `0xeec`.
    _pad9: [u8; 276],
}

impl View for BootParams {
    type V = BootParamsView;

    closed spec fn view(&self) -> BootParamsView {
        BootParamsView {
            acpi_rsdp_addr: self.acpi_rsdp_addr,
            unaccepted_memory: self.unaccepted_memory,
            hdr: self.hdr,
            e820: self.e820_table@.take(self.e820_entries as int),
        }
    }
}

impl BootParams {
    /// What holds of every zero page: the regions that are not in use are
    /// zero, the count of the memory map is within the capacity of the
    /// table, and the slots of the table from the count on are zero.
    #[verifier::type_invariant]
    spec fn inv(self) -> bool {
        &&& self.screen_info@ == zeros(64)
        &&& self.apm_bios_info@ == zeros(20)
        &&& self._pad2@ == zeros(4)
        &&& self.tboot_addr == 0
        &&& self.ist_info@ == zeros(16)
        &&& self.hd0_info@ == zeros(16)
        &&& self.hd1_info@ == zeros(16)
        &&& self.sys_desc_table@ == zeros(16)
        &&& self.olpc_ofw_header@ == zeros(16)
        &&& self.ext_ramdisk_image == 0
        &&& self.ext_ramdisk_size == 0
        &&& self.ext_cmd_line_ptr == 0
        &&& self._pad4@ == zeros(116)
        &&& self.edd_info@ == zeros(128)
        &&& self.efi_info@ == zeros(32)
        &&& self.alt_mem_k == 0
        &&& self.scratch == 0
        &&& self.eddbuf_entries == 0
        &&& self.edd_mbr_sig_buf_entries == 0
        &&& self.kbd_status == 0
        &&& self.secure_boot == 0
        &&& self._pad5@ == zeros(2)
        &&& self.sentinel == 0
        &&& self._pad6@ == zeros(1)
        &&& self._pad7@ == zeros(40)
        &&& self.edd_mbr_sig_buffer@ == zeros(64)
        &&& self._pad8@ == zeros(48)
        &&& self.eddbuf@ == zeros(492)
        &&& self._pad9@ == zeros(276)
        &&& self.e820_entries <= E820_MAX_ENTRIES
        &&& forall|i: int|
            self.e820_entries <= i < E820_MAX_ENTRIES ==> self.e820_table@[i]
                == E820Entry::spec_zeroed()
    }

    /// The copy of the setup header that was last put into the zero page, or
    /// the zero header if none was.
    pub fn header(&self) -> (r: SetupHeader)
        ensures
            r == self@.hdr,
    {
        self.hdr
    }

    /// Puts a copy of `hdr` into the zero page. Nothing else changes.
    pub fn set_header(&mut self, hdr: SetupHeader)
        ensures
            final(self)@ == (BootParamsView { hdr: hdr, ..old(self)@ }),
            final(self)@.hdr == hdr,
            final(self)@.spec_wf(),
    {
        proof {
            use_type_invariant(&*self);
        }
        self.hdr = hdr;
    }

    /// The physical address of the root pointer of the ACPI tables.
    pub fn acpi_rsdp_addr(&self) -> (r: u64)
        ensures
            r == self@.acpi_rsdp_addr,
    {
        self.acpi_rsdp_addr
    }

    /// Records where the root pointer of the ACPI tables is. Nothing else
    /// changes.
    pub fn set_acpi_rsdp_addr(&mut self, addr: u64)
        ensures
            final(self)@ == (BootParamsView { acpi_rsdp_addr: addr, ..old(self)@ }),
            final(self)@.spec_wf(),
    {
        proof {
            use_type_invariant(&*self);
        }
        self.acpi_rsdp_addr = addr;
    }

    /// The physical address of the table that tracks memory not yet accepted.
    pub fn unaccepted_memory(&self) -> (r: u64)
        ensures
            r == self@.unaccepted_memory,
    {
        self.unaccepted_memory
    }

    /// Records where the table that tracks memory not yet accepted is.
    /// Nothing else changes.
    pub fn set_unaccepted_memory(&mut self, addr: u64)
        ensures
            final(self)@ == (BootParamsView { unaccepted_memory: addr, ..old(self)@ }),
            final(self)@.spec_wf(),
    {
        proof {
            use_type_invariant(&*self);
        }
        self.unaccepted_memory = addr;
    }

    /// The number of entries written into the memory map.
    pub fn e820_entries(&self) -> (r: u8)
        ensures
            r == self@.e820.len(),
            self@.spec_wf(),
    {
        proof {
            use_type_invariant(self);
        }
        self.e820_entries
    }

    /// The table of the memory map, all its slots: the entries written, and
    /// zero entries after them.
    pub fn e820_table(&self) -> (r: &[E820Entry; 128])
        ensures
            r@ == self@.spec_table(),
            self@.spec_wf(),
    {
        proof {
            use_type_invariant(self);
            assert(self.e820_table@ =~= self@.spec_table());
        }
        &self.e820_table
    }

    /// Writes `entry` into the first free slot of the memory map and counts
    /// it. Fails with `TableFull`, changing nothing, exactly when no slot is
    /// free.
    pub fn add_e820_entry(&mut self, entry: E820Entry) -> (r: Result<(), BootError>)
        ensures
            final(self)@ == old(self)@.spec_add(entry),
            final(self)@.spec_wf(),
            old(self)@.e820.len() < E820_MAX_ENTRIES ==> r == Ok::<(), BootError>(()),
            old(self)@.e820.len() >= E820_MAX_ENTRIES ==> r == Err::<(), BootError>(
                BootError::TableFull,
            ),
    {
        proof {
            use_type_invariant(&*self);
        }
        let n: usize = self.e820_entries as usize;
        if n >= E820_MAX_ENTRIES {
            return Err(BootError::TableFull);
        }
        let mut table = self.e820_table;
        table[n] = entry;
        let next = BootParams { e820_table: table, e820_entries: (n + 1) as u8, ..*self };
        assert(next@.e820 =~= self@.e820.push(entry));
        *self = next;
        Ok(())
    }

    /// Writes all of `entries` into the free slots of the memory map, in
    /// order, and counts them. Fails with `TableFull`, changing nothing,
    /// exactly when they do not all fit.
    pub fn add_e820_entries(&mut self, entries: &[E820Entry]) -> (r: Result<(), BootError>)
        ensures
            old(self)@.e820.len() + entries@.len() <= E820_MAX_ENTRIES ==> {
                &&& r == Ok::<(), BootError>(())
                &&& final(self)@ == (BootParamsView {
                    e820: old(self)@.e820 + entries@,
                    ..old(self)@
                })
            },
            old(self)@.e820.len() + entries@.len() > E820_MAX_ENTRIES ==> {
                &&& r == Err::<(), BootError>(BootError::TableFull)
                &&& final(self)@ == old(self)@
            },
            final(self)@.spec_wf(),
    {
        proof {
            use_type_invariant(&*self);
        }
        let n: usize = self.e820_entries as usize;
        let count: usize = entries.len();
        if count > E820_MAX_ENTRIES - n {
            return Err(BootError::TableFull);
        }
        let mut table = self.e820_table;
        let mut i: usize = 0;
        while i < count
            invariant
                i <= count,
                count == entries@.len(),
                n + count <= E820_MAX_ENTRIES,
                forall|k: int| 0 <= k < n ==> table@[k] == self.e820_table@[k],
                forall|k: int| 0 <= k < i ==> table@[n + k] == entries@[k],
                forall|k: int|
                    n + i <= k < E820_MAX_ENTRIES ==> table@[k] == E820Entry::spec_zeroed(),
            decreases count - i,
        {
            table[n + i] = entries[i];
            i += 1;
        }
        let next = BootParams { e820_table: table, e820_entries: (n + count) as u8, ..*self };
        assert(next@.e820 =~= self@.e820 + entries@);
        *self = next;
        Ok(())
    }

    /// Writes the zero page as the bytes that the kernel is handed.
    pub fn to_bytes(&self) -> (out: Vec<u8>)
        ensures
            out@ == self@.spec_to_bytes(),
            out@.len() == BOOT_PARAMS_SIZE,
            self@.spec_wf(),
    {
        let ghost page = self@.spec_to_bytes();
        proof {
            use_type_invariant(self);
            lemma_page_regions(self@);
            lemma_zero_encodings();
            lemma_encoding_len();
            assert(self.e820_table@ =~= self@.spec_table());
        }
        let mut out: Vec<u8> = Vec::with_capacity(BOOT_PARAMS_SIZE);
        assert(out@ =~= page.subrange(0, 0));
        proof {
            lemma_zeros_within(page, 0x000, 0x070, 0x000, 0x040);
            lemma_grow_prefix(page, 0x000, zeros(64));
        }
        out.extend_from_slice(self.screen_info.as_slice());
        proof {
            lemma_zeros_within(page, 0x000, 0x070, 0x040, 0x054);
            lemma_grow_prefix(page, 0x040, zeros(20));
        }
        out.extend_from_slice(self.apm_bios_info.as_slice());
        proof {
            lemma_zeros_within(page, 0x000, 0x070, 0x054, 0x058);
            lemma_grow_prefix(page, 0x054, zeros(4));
        }
        out.extend_from_slice(self._pad2.as_slice());
        proof {
            lemma_zeros_within(page, 0x000, 0x070, 0x058, 0x060);
            lemma_grow_prefix(page, 0x058, zeros(8));
        }
        put_u64(&mut out, self.tboot_addr);
        proof {
            lemma_zeros_within(page, 0x000, 0x070, 0x060, 0x070);
            lemma_grow_prefix(page, 0x060, zeros(16));
        }
        out.extend_from_slice(self.ist_info.as_slice());
        proof {
            lemma_grow_prefix(page, 0x070, u64_le(self.acpi_rsdp_addr));
        }
        put_u64(&mut out, self.acpi_rsdp_addr);
        proof {
            lemma_grow_prefix(page, 0x078, u64_le(self.unaccepted_memory));
        }
        put_u64(&mut out, self.unaccepted_memory);
        proof {
            lemma_zeros_within(page, 0x080, 0x1e8, 0x080, 0x090);
            lemma_grow_prefix(page, 0x080, zeros(16));
        }
        out.extend_from_slice(self.hd0_info.as_slice());
        proof {
            lemma_zeros_within(page, 0x080, 0x1e8, 0x090, 0x0a0);
            lemma_grow_prefix(page, 0x090, zeros(16));
        }
        out.extend_from_slice(self.hd1_info.as_slice());
        proof {
            lemma_zeros_within(page, 0x080, 0x1e8, 0x0a0, 0x0b0);
            lemma_grow_prefix(page, 0x0a0, zeros(16));
        }
        out.extend_from_slice(self.sys_desc_table.as_slice());
        proof {
            lemma_zeros_within(page, 0x080, 0x1e8, 0x0b0, 0x0c0);
            lemma_grow_prefix(page, 0x0b0, zeros(16));
        }
        out.extend_from_slice(self.olpc_ofw_header.as_slice());
        proof {
            lemma_zeros_within(page, 0x080, 0x1e8, 0x0c0, 0x0c4);
            lemma_grow_prefix(page, 0x0c0, zeros(4));
        }
        put_u32(&mut out, self.ext_ramdisk_image);
        proof {
            lemma_zeros_within(page, 0x080, 0x1e8, 0x0c4, 0x0c8);
            lemma_grow_prefix(page, 0x0c4, zeros(4));
        }
        put_u32(&mut out, self.ext_ramdisk_size);
        proof {
            lemma_zeros_within(page, 0x080, 0x1e8, 0x0c8, 0x0cc);
            lemma_grow_prefix(page, 0x0c8, zeros(4));
        }
        put_u32(&mut out, self.ext_cmd_line_ptr);
        proof {
            lemma_zeros_within(page, 0x080, 0x1e8, 0x0cc, 0x140);
            lemma_grow_prefix(page, 0x0cc, zeros(116));
        }
        out.extend_from_slice(self._pad4.as_slice());
        proof {
            lemma_zeros_within(page, 0x080, 0x1e8, 0x140, 0x1c0);
            lemma_grow_prefix(page, 0x140, zeros(128));
        }
        out.extend_from_slice(self.edd_info.as_slice());
        proof {
            lemma_zeros_within(page, 0x080, 0x1e8, 0x1c0, 0x1e0);
            lemma_grow_prefix(page, 0x1c0, zeros(32));
        }
        out.extend_from_slice(self.efi_info.as_slice());
        proof {
            lemma_zeros_within(page, 0x080, 0x1e8, 0x1e0, 0x1e4);
            lemma_grow_prefix(page, 0x1e0, zeros(4));
        }
        put_u32(&mut out, self.alt_mem_k);
        proof {
            lemma_zeros_within(page, 0x080, 0x1e8, 0x1e4, 0x1e8);
            lemma_grow_prefix(page, 0x1e4, zeros(4));
        }
        put_u32(&mut out, self.scratch);
        proof {
            lemma_grow_prefix(page, 0x1e8, seq![self.e820_entries]);
        }
        put_u8(&mut out, self.e820_entries);
        proof {
            lemma_zeros_within(page, 0x1e9, 0x1f1, 0x1e9, 0x1ea);
            lemma_grow_prefix(page, 0x1e9, zeros(1));
        }
        put_u8(&mut out, self.eddbuf_entries);
        proof {
            lemma_zeros_within(page, 0x1e9, 0x1f1, 0x1ea, 0x1eb);
            lemma_grow_prefix(page, 0x1ea, zeros(1));
        }
        put_u8(&mut out, self.edd_mbr_sig_buf_entries);
        proof {
            lemma_zeros_within(page, 0x1e9, 0x1f1, 0x1eb, 0x1ec);
            lemma_grow_prefix(page, 0x1eb, zeros(1));
        }
        put_u8(&mut out, self.kbd_status);
        proof {
            lemma_zeros_within(page, 0x1e9, 0x1f1, 0x1ec, 0x1ed);
            lemma_grow_prefix(page, 0x1ec, zeros(1));
        }
        put_u8(&mut out, self.secure_boot);
        proof {
            lemma_zeros_within(page, 0x1e9, 0x1f1, 0x1ed, 0x1ef);
            lemma_grow_prefix(page, 0x1ed, zeros(2));
        }
        out.extend_from_slice(self._pad5.as_slice());
        proof {
            lemma_zeros_within(page, 0x1e9, 0x1f1, 0x1ef, 0x1f0);
            lemma_grow_prefix(page, 0x1ef, zeros(1));
        }
        put_u8(&mut out, self.sentinel);
        proof {
            lemma_zeros_within(page, 0x1e9, 0x1f1, 0x1f0, 0x1f1);
            lemma_grow_prefix(page, 0x1f0, zeros(1));
        }
        out.extend_from_slice(self._pad6.as_slice());
        proof {
            lemma_grow_prefix(page, 0x1f1, self.hdr.spec_to_bytes());
        }
        let hdr = self.hdr.to_bytes();
        out.extend_from_slice(hdr.as_slice());
        proof {
            lemma_zeros_within(page, 0x268, 0x2d0, 0x268, 0x290);
            lemma_grow_prefix(page, 0x268, zeros(40));
        }
        out.extend_from_slice(self._pad7.as_slice());
        proof {
            lemma_zeros_within(page, 0x268, 0x2d0, 0x290, 0x2d0);
            lemma_grow_prefix(page, 0x290, zeros(64));
        }
        out.extend_from_slice(self.edd_mbr_sig_buffer.as_slice());
        let mut i: usize = 0;
        while i < E820_MAX_ENTRIES
            invariant
                i <= E820_MAX_ENTRIES,
                self@.spec_wf(),
                page == self@.spec_to_bytes(),
                self.e820_table@ == self@.spec_table(),
                out@ == page.subrange(0, 0x2d0 + i * 20),
            decreases E820_MAX_ENTRIES - i,
        {
            proof {
                lemma_page_slot(self@, i as int);
                lemma_entry_bytes_len(self.e820_table@[i as int]);
                lemma_grow_prefix(page, 0x2d0 + i * 20, self.e820_table@[i as int].spec_to_bytes());
            }
            self.e820_table[i].write_to(&mut out);
            i += 1;
        }
        proof {
            lemma_zeros_within(page, (0x2d0 + self@.e820.len() * 20) as int, 0x1000, 0xcd0, 0xd00);
            lemma_grow_prefix(page, 0xcd0, zeros(48));
        }
        out.extend_from_slice(self._pad8.as_slice());
        proof {
            lemma_zeros_within(page, (0x2d0 + self@.e820.len() * 20) as int, 0x1000, 0xd00, 0xeec);
            lemma_grow_prefix(page, 0xd00, zeros(492));
        }
        out.extend_from_slice(self.eddbuf.as_slice());
        proof {
            lemma_zeros_within(page, (0x2d0 + self@.e820.len() * 20) as int, 0x1000, 0xeec, 0x1000);
            lemma_grow_prefix(page, 0xeec, zeros(276));
        }
        out.extend_from_slice(self._pad9.as_slice());
        assert(out@ =~= page);
        out
    }
}

impl Default for BootParams {
    /// The boot parameters whose every field, and so every byte, is zero.
    fn default() -> (r: BootParams)
        ensures
            r@ == BootParamsView::spec_zeroed(),
            r@.spec_wf(),
            r@.spec_to_bytes() == zeros(BOOT_PARAMS_SIZE as nat),
    {
        proof {
            lemma_zeroed_page();
        }
        let r = BootParams {
            screen_info: zero_bytes(),
            apm_bios_info: zero_bytes(),
            _pad2: zero_bytes(),
            tboot_addr: 0,
            ist_info: zero_bytes(),
            acpi_rsdp_addr: 0,
            unaccepted_memory: 0,
            hd0_info: zero_bytes(),
            hd1_info: zero_bytes(),
            sys_desc_table: zero_bytes(),
            olpc_ofw_header: zero_bytes(),
            ext_ramdisk_image: 0,
            ext_ramdisk_size: 0,
            ext_cmd_line_ptr: 0,
            _pad4: zero_bytes(),
            edd_info: zero_bytes(),
            efi_info: zero_bytes(),
            alt_mem_k: 0,
            scratch: 0,
            e820_entries: 0,
            eddbuf_entries: 0,
            edd_mbr_sig_buf_entries: 0,
            kbd_status: 0,
            secure_boot: 0,
            _pad5: zero_bytes(),
            sentinel: 0,
            _pad6: zero_bytes(),
            hdr: SetupHeader::default(),
            _pad7: zero_bytes(),
            edd_mbr_sig_buffer: zero_bytes(),
            e820_table: [E820Entry::default(); 128],
            _pad8: zero_bytes(),
            eddbuf: zero_bytes(),
            _pad9: zero_bytes(),
        };
        assert(r@.e820 =~= Seq::empty());
        r
    }
}

} // verus!
