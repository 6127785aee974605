//! Entries of the memory map that the zero page carries.
//!
//! An entry occupies `E820_ENTRY_SIZE` bytes: the base address and the length
//! of a region of physical memory, eight bytes each, and four bytes for its
//! type, all little-endian and without padding.

use crate::endian::{
    le_u32_at, le_u64_at, lemma_encoding_len, lemma_field_u32, lemma_field_u64,
    lemma_split_prefix, put_u32, put_u64, u32_le, u64_le,
};
use vstd::prelude::*;

verus! {

/// Number of bytes that one entry occupies.
pub const E820_ENTRY_SIZE: usize = 20;

/// Number of entries that the table of the zero page holds.
pub const E820_MAX_ENTRIES: usize = 128;

/// One region of physical memory and what it may be used for.
#[derive(Clone, Copy, Debug, PartialEq, Eq, Structural)]
pub struct E820Entry {
    /// Physical address of the first byte of the region.
    pub addr: u64,
    /// Length of the region in bytes.
    pub size: u64,
    /// What the region is: usable memory, reserved, and so on.
    pub entry_type: u32,
}

impl E820Entry {
    /// The entry whose every field is zero.
    pub open spec fn spec_zeroed() -> E820Entry {
        E820Entry { addr: 0, size: 0, entry_type: 0 }
    }

    /// The entry stored at offset `at` of `img`.
    pub open spec fn spec_at(img: Seq<u8>, at: int) -> E820Entry
        recommends
            0 <= at,
            at + E820_ENTRY_SIZE <= img.len(),
    {
        E820Entry {
            addr: le_u64_at(img, at),
            size: le_u64_at(img, at + 8),
            entry_type: le_u32_at(img, at + 16),
        }
    }

    /// The bytes that the entry is written as.
    pub open spec fn spec_to_bytes(self) -> Seq<u8> {
        u64_le(self.addr) + u64_le(self.size) + u32_le(self.entry_type)
    }

    /// The bytes that a table of entries is written as: the bytes of its
    /// entries, one entry after the other.
    pub open spec fn spec_table_bytes(table: Seq<E820Entry>) -> Seq<u8> {
        Seq::new(
            table.len() * E820_ENTRY_SIZE as nat,
            |k: int| table[k / E820_ENTRY_SIZE as int].spec_to_bytes()[k % E820_ENTRY_SIZE as int],
        )
    }

    /// Makes an entry for the region of `size` bytes at `addr`.
    pub fn new(addr: u64, size: u64, entry_type: u32) -> (r: E820Entry)
        ensures
            r == (E820Entry { addr, size, entry_type }),
    {
        E820Entry { addr, size, entry_type }
    }

    /// Appends the bytes of the entry to `out`.
    pub fn write_to(&self, out: &mut Vec<u8>)
        ensures
            final(out)@ == old(out)@ + self.spec_to_bytes(),
    {
        put_u64(out, self.addr);
        put_u64(out, self.size);
        put_u32(out, self.entry_type);
        assert(out@ =~= old(out)@ + self.spec_to_bytes());
    }
}

impl Default for E820Entry {
    /// The entry whose every field is zero.
    fn default() -> (r: E820Entry)
        ensures
            r == E820Entry::spec_zeroed(),
    {
        E820Entry { addr: 0, size: 0, entry_type: 0 }
    }
}

/// Every entry is written as exactly `E820_ENTRY_SIZE` bytes.
pub proof fn lemma_entry_bytes_len(e: E820Entry)
    ensures
        e.spec_to_bytes().len() == E820_ENTRY_SIZE,
{
    lemma_encoding_len();
}

/// Writing an entry into an image at `at` and reading the image at `at`
/// gives the entry back.
pub proof fn lemma_entry_write_then_read(e: E820Entry, img: Seq<u8>, at: int)
    requires
        0 <= at,
        at + E820_ENTRY_SIZE <= img.len(),
        img.subrange(at, at + E820_ENTRY_SIZE) == e.spec_to_bytes(),
    ensures
        E820Entry::spec_at(img, at) == e,
{
    lemma_encoding_len();
    let b = e.spec_to_bytes();
    let q0 = u64_le(e.addr);
    let q1 = q0 + u64_le(e.size);
    let q2 = q1 + u32_le(e.entry_type);
    assert(b.subrange(0, q2.len() as int) =~= q2);
    lemma_split_prefix(b, q1, u32_le(e.entry_type));
    lemma_split_prefix(b, q0, u64_le(e.size));
    assert(b.subrange(0, 8) == u64_le(e.addr));
    lemma_field_u64(img, b, at, 0, e.addr);
    lemma_field_u64(img, b, at, 8, e.size);
    lemma_field_u32(img, b, at, 16, e.entry_type);
}

/// The bytes of a table hold the bytes of its `i`-th entry at offset
/// `i * E820_ENTRY_SIZE`.
pub proof fn lemma_table_bytes_entry(table: Seq<E820Entry>, i: int)
    requires
        0 <= i < table.len(),
    ensures
        E820Entry::spec_table_bytes(table).len() == table.len() * E820_ENTRY_SIZE,
        E820Entry::spec_table_bytes(table).subrange(
            i * E820_ENTRY_SIZE,
            i * E820_ENTRY_SIZE + E820_ENTRY_SIZE,
        ) == table[i].spec_to_bytes(),
{
    lemma_encoding_len();
    let t = E820Entry::spec_table_bytes(table);
    let s = t.subrange(i * 20, i * 20 + 20);
    assert forall|k: int| 0 <= k < 20 implies #[trigger] s[k] == table[i].spec_to_bytes()[k] by {
        assert((i * 20 + k) / 20 == i);
        assert((i * 20 + k) % 20 == k);
    }
    assert(s =~= table[i].spec_to_bytes());
}

} // verus!
