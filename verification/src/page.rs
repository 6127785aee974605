//! What a zero page holds, and the bytes it is made of.
//!
//! [`BootParamsView`] is the content of a zero page: the values of the few
//! fields that are in use. [`BootParamsView::spec_to_bytes`] lays such a
//! content out as the protocol asks: every field at its offset, and zero
//! bytes in all the regions that only hold their place.

use crate::e820::{
    lemma_entry_write_then_read, lemma_table_bytes_entry, E820Entry, E820_ENTRY_SIZE,
    E820_MAX_ENTRIES,
};
use crate::endian::{
    le_u64_at, lemma_encoding_len, lemma_field_u64, lemma_field_u8, lemma_split_prefix,
    lemma_zero_encodings, lemma_zeros_join, lemma_zeros_within, u64_le, zeros,
};
use crate::header::{lemma_to_bytes_len, lemma_write_then_read, lemma_zeroed_bytes, SetupHeader};
use vstd::prelude::*;

verus! {

/// Number of bytes that the zero page occupies.
pub const BOOT_PARAMS_SIZE: usize = 0x1000;

/// Offset of `acpi_rsdp_addr` in the zero page.
pub const ACPI_RSDP_ADDR_OFFSET: usize = 0x070;

/// Offset of `unaccepted_memory` in the zero page.
pub const UNACCEPTED_MEMORY_OFFSET: usize = 0x078;

/// Offset of `e820_entries` in the zero page.
pub const E820_ENTRIES_OFFSET: usize = 0x1e8;

/// Offset of the first entry of `e820_table` in the zero page.
pub const E820_TABLE_OFFSET: usize = 0x2d0;

/// Offset of the first byte after `e820_table` in the zero page.
pub const E820_TABLE_END: usize = 0xcd0;

/// The content of a zero page: the fields that are in use.
pub struct BootParamsView {
    /// Physical address of the root pointer of the ACPI tables.
    pub acpi_rsdp_addr: u64,
    /// Physical address of the table that tracks memory not yet accepted.
    pub unaccepted_memory: u64,
    /// Copy of the setup header of the kernel image.
    pub hdr: SetupHeader,
    /// The entries written into the memory map, in the order they were written.
    pub e820: Seq<E820Entry>,
}

impl BootParamsView {
    /// The content of a new zero page.
    pub open spec fn spec_zeroed() -> BootParamsView {
        BootParamsView {
            acpi_rsdp_addr: 0,
            unaccepted_memory: 0,
            hdr: SetupHeader::spec_zeroed(),
            e820: Seq::empty(),
        }
    }

    /// Whether the memory map fits the table of the zero page.
    pub open spec fn spec_wf(self) -> bool {
        self.e820.len() <= E820_MAX_ENTRIES
    }

    /// The table of the zero page: the entries written, then zero entries up
    /// to the capacity of the table.
    pub open spec fn spec_table(self) -> Seq<E820Entry>
        recommends
            self.spec_wf(),
    {
        self.e820 + Seq::new(
            (E820_MAX_ENTRIES - self.e820.len()) as nat,
            |i: int| E820Entry::spec_zeroed(),
        )
    }

    /// The content after one more entry was offered to the memory map: the
    /// entry is appended if the table has room, and nothing changes if not.
    pub open spec fn spec_add(self, entry: E820Entry) -> BootParamsView {
        if self.e820.len() < E820_MAX_ENTRIES {
            BootParamsView { e820: self.e820.push(entry), ..self }
        } else {
            self
        }
    }

    /// The content after the entries of `entries` were offered to the memory
    /// map one after the other.
    pub open spec fn spec_add_each(self, entries: Seq<E820Entry>) -> BootParamsView
        decreases entries.len(),
    {
        if entries.len() == 0 {
            self
        } else {
            self.spec_add_each(entries.drop_last()).spec_add(entries.last())
        }
    }

    /// The bytes of the zero page with this content: each field in use at
    /// its offset, and zero everywhere else.
    pub open spec fn spec_to_bytes(self) -> Seq<u8>
        recommends
            self.spec_wf(),
    {
        zeros(0x070) + u64_le(self.acpi_rsdp_addr) + u64_le(self.unaccepted_memory) + zeros(0x168)
            + seq![self.e820.len() as u8] + zeros(8) + self.hdr.spec_to_bytes() + zeros(0x068)
            + E820Entry::spec_table_bytes(self.e820) + zeros(
            ((E820_MAX_ENTRIES - self.e820.len()) * E820_ENTRY_SIZE + 0x330) as nat,
        )
    }
}

/// Where each region stands in the bytes of a zero page.
pub proof fn lemma_page_regions(v: BootParamsView)
    requires
        v.spec_wf(),
    ensures
        v.spec_to_bytes().len() == BOOT_PARAMS_SIZE,
        v.spec_to_bytes().subrange(0, 0x070) == zeros(0x070),
        v.spec_to_bytes().subrange(0x070, 0x078) == u64_le(v.acpi_rsdp_addr),
        v.spec_to_bytes().subrange(0x078, 0x080) == u64_le(v.unaccepted_memory),
        v.spec_to_bytes().subrange(0x080, 0x1e8) == zeros(0x168),
        v.spec_to_bytes().subrange(0x1e8, 0x1e9) == seq![v.e820.len() as u8],
        v.spec_to_bytes().subrange(0x1e9, 0x1f1) == zeros(8),
        v.spec_to_bytes().subrange(0x1f1, 0x268) == v.hdr.spec_to_bytes(),
        v.spec_to_bytes().subrange(0x268, 0x2d0) == zeros(0x068),
        v.spec_to_bytes().subrange(0x2d0, 0x2d0 + v.e820.len() * E820_ENTRY_SIZE)
            == E820Entry::spec_table_bytes(v.e820),
        v.spec_to_bytes().subrange(0x2d0 + v.e820.len() * E820_ENTRY_SIZE, 0x1000) == zeros(
            ((E820_MAX_ENTRIES - v.e820.len()) * E820_ENTRY_SIZE + 0x330) as nat,
        ),
{
    lemma_encoding_len();
    lemma_to_bytes_len(v.hdr);
    let b = v.spec_to_bytes();
    let acpi = u64_le(v.acpi_rsdp_addr);
    let unaccepted = u64_le(v.unaccepted_memory);
    let count = seq![v.e820.len() as u8];
    let header = v.hdr.spec_to_bytes();
    let table = E820Entry::spec_table_bytes(v.e820);
    let rest = zeros(((E820_MAX_ENTRIES - v.e820.len()) * E820_ENTRY_SIZE + 0x330) as nat);
    let q0 = zeros(0x070);
    let q1 = q0 + acpi;
    let q2 = q1 + unaccepted;
    let q3 = q2 + zeros(0x168);
    let q4 = q3 + count;
    let q5 = q4 + zeros(8);
    let q6 = q5 + header;
    let q7 = q6 + zeros(0x068);
    let q8 = q7 + table;
    let q9 = q8 + rest;
    assert(q7.len() == 0x2d0);
    assert(q9.len() == 0x1000);
    assert(b.subrange(0, q9.len() as int) =~= q9);
    lemma_split_prefix(b, q8, rest);
    lemma_split_prefix(b, q7, table);
    lemma_split_prefix(b, q6, zeros(0x068));
    lemma_split_prefix(b, q5, header);
    lemma_split_prefix(b, q4, zeros(8));
    lemma_split_prefix(b, q3, count);
    lemma_split_prefix(b, q2, zeros(0x168));
    lemma_split_prefix(b, q1, unaccepted);
    lemma_split_prefix(b, q0, acpi);
}

/// A new zero page is `BOOT_PARAMS_SIZE` zero bytes.
pub proof fn lemma_zeroed_page()
    ensures
        BootParamsView::spec_zeroed().spec_to_bytes() == zeros(BOOT_PARAMS_SIZE as nat),
{
    let v = BootParamsView::spec_zeroed();
    lemma_zero_encodings();
    lemma_zeroed_bytes();
    assert(E820Entry::spec_table_bytes(v.e820) =~= zeros(0));
    lemma_zeros_join(0x070, 8);
    lemma_zeros_join(0x078, 8);
    lemma_zeros_join(0x080, 0x168);
    lemma_zeros_join(0x1e8, 1);
    lemma_zeros_join(0x1e9, 8);
    lemma_zeros_join(0x1f1, 0x077);
    lemma_zeros_join(0x268, 0x068);
    lemma_zeros_join(0x2d0, 0);
    lemma_zeros_join(0x2d0, 0xd30);
}

/// Reading the bytes of a zero page at the offsets that the protocol fixes
/// gives the content back: the two addresses, the count of the memory map,
/// the setup header exactly as a kernel image would give it, every entry
/// that was written, and a zero entry in every slot of the table after them.
pub proof fn lemma_page_fields(v: BootParamsView)
    requires
        v.spec_wf(),
    ensures
        v.spec_to_bytes().len() == BOOT_PARAMS_SIZE,
        le_u64_at(v.spec_to_bytes(), ACPI_RSDP_ADDR_OFFSET as int) == v.acpi_rsdp_addr,
        le_u64_at(v.spec_to_bytes(), UNACCEPTED_MEMORY_OFFSET as int) == v.unaccepted_memory,
        v.spec_to_bytes()[E820_ENTRIES_OFFSET as int] == v.e820.len(),
        SetupHeader::spec_from_file(v.spec_to_bytes()) == v.hdr,
        forall|i: int|
            0 <= i < E820_MAX_ENTRIES ==> #[trigger] E820Entry::spec_at(
                v.spec_to_bytes(),
                E820_TABLE_OFFSET + i * E820_ENTRY_SIZE,
            ) == v.spec_table()[i],
{
    let b = v.spec_to_bytes();
    lemma_page_regions(v);
    assert(b.subrange(0, b.len() as int) =~= b);
    lemma_field_u64(b, b, 0, 0x070, v.acpi_rsdp_addr);
    lemma_field_u64(b, b, 0, 0x078, v.unaccepted_memory);
    lemma_field_u8(b, b, 0, 0x1e8, v.e820.len() as u8);
    lemma_write_then_read(v.hdr, b);
    assert forall|i: int| 0 <= i < E820_MAX_ENTRIES implies #[trigger] E820Entry::spec_at(
        b,
        E820_TABLE_OFFSET + i * E820_ENTRY_SIZE,
    ) == v.spec_table()[i] by {
        lemma_page_slot(v, i);
    }
}

/// The bytes of the `i`-th slot of the table hold the `i`-th entry of
/// `spec_table`.
pub proof fn lemma_page_slot(v: BootParamsView, i: int)
    requires
        v.spec_wf(),
        0 <= i < E820_MAX_ENTRIES,
    ensures
        v.spec_to_bytes().len() == BOOT_PARAMS_SIZE,
        v.spec_to_bytes().subrange(0x2d0 + i * 20, 0x2d0 + i * 20 + 20)
            == v.spec_table()[i].spec_to_bytes(),
        E820Entry::spec_at(v.spec_to_bytes(), 0x2d0 + i * 20) == v.spec_table()[i],
{
    let b = v.spec_to_bytes();
    let n = v.e820.len() as int;
    let at = 0x2d0 + i * 20;
    let slot = b.subrange(at, at + 20);
    lemma_page_regions(v);
    if i < n {
        let t = E820Entry::spec_table_bytes(v.e820);
        lemma_table_bytes_entry(v.e820, i);
        let held = b.subrange(0x2d0, 0x2d0 + n * 20);
        assert forall|k: int| 0 <= k < 20 implies #[trigger] slot[k] == t.subrange(
            i * 20,
            i * 20 + 20,
        )[k] by {
            assert(held[i * 20 + k] == b[at + k]);
        }
        assert(slot =~= t.subrange(i * 20, i * 20 + 20));
    } else {
        lemma_zeros_within(b, 0x2d0 + n * 20, 0x1000, at, at + 20);
        lemma_zero_encodings();
        lemma_zeros_join(8, 8);
        lemma_zeros_join(16, 4);
    }
    lemma_entry_write_then_read(v.spec_table()[i], b, at);
}

/// Writing entries one after the other into a zero page that has room for
/// them: the count goes up by their number, they stand in the table behind
/// the entries that were there, each in its slot of the page, and every slot
/// after them holds a zero entry as before. Once the table is full, one more
/// entry changes nothing.
pub proof fn lemma_entries_written(v: BootParamsView, entries: Seq<E820Entry>)
    requires
        v.e820.len() + entries.len() <= E820_MAX_ENTRIES,
    ensures
        v.spec_add_each(entries).spec_wf(),
        v.spec_add_each(entries).e820.len() == v.e820.len() + entries.len(),
        v.spec_add_each(entries).spec_to_bytes()[E820_ENTRIES_OFFSET as int] == v.e820.len()
            + entries.len(),
        forall|i: int|
            0 <= i < entries.len() ==> #[trigger] E820Entry::spec_at(
                v.spec_add_each(entries).spec_to_bytes(),
                E820_TABLE_OFFSET + (v.e820.len() + i) * E820_ENTRY_SIZE,
            ) == entries[i],
        forall|i: int|
            v.e820.len() + entries.len() <= i < E820_MAX_ENTRIES ==> #[trigger] E820Entry::spec_at(
                v.spec_add_each(entries).spec_to_bytes(),
                E820_TABLE_OFFSET + i * E820_ENTRY_SIZE,
            ) == E820Entry::spec_zeroed(),
        v.e820.len() + entries.len() == E820_MAX_ENTRIES ==> forall|e: E820Entry|
            #[trigger] v.spec_add_each(entries).spec_add(e) == v.spec_add_each(entries),
{
    let w = v.spec_add_each(entries);
    let n = v.e820.len() as int;
    lemma_add_each(v, entries);
    lemma_page_fields(w);
    assert forall|i: int| 0 <= i < entries.len() implies #[trigger] E820Entry::spec_at(
        w.spec_to_bytes(),
        E820_TABLE_OFFSET + (n + i) * E820_ENTRY_SIZE,
    ) == entries[i] by {
        lemma_page_slot(w, n + i);
    }
    assert forall|i: int|
        n + entries.len() <= i < E820_MAX_ENTRIES implies #[trigger] E820Entry::spec_at(
        w.spec_to_bytes(),
        E820_TABLE_OFFSET + i * E820_ENTRY_SIZE,
    ) == E820Entry::spec_zeroed() by {
        lemma_page_slot(w, i);
    }
}

/// Offering entries one after the other appends them, as long as they fit.
pub proof fn lemma_add_each(v: BootParamsView, entries: Seq<E820Entry>)
    requires
        v.e820.len() + entries.len() <= E820_MAX_ENTRIES,
    ensures
        v.spec_add_each(entries) == (BootParamsView { e820: v.e820 + entries, ..v }),
    decreases entries.len(),
{
    if entries.len() == 0 {
        assert(v.e820 + entries =~= v.e820);
    } else {
        lemma_add_each(v, entries.drop_last());
        assert((v.e820 + entries.drop_last()).push(entries.last()) =~= v.e820 + entries);
    }
}

} // verus!
