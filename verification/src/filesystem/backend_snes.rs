//! The SNES ROM: pointer tables to the data, their sizes, palettes and planar graphics.
use crate::filesystem::text_decoder::{check_dictionary, dictionary_readable, font8_concat, huffman_text, stored_word, trim_end, word_pointer, TextDecoder};
use crate::filesystem::strings::read_item_names;
use crate::palette::{read_color, snes_color, Palette};
use crate::reader::{le16, ByteReader};
use crate::filesystem::resourcesbin::{utf8_string, utf8_text};
use crate::fmt::string_from;
use crate::surface::Color;
use vstd::arithmetic::div_mod::lemma_fundamental_div_mod_converse;
use vstd::prelude::*;

verus! {

/// Where a piece of data is in the ROM, and how long it is.
#[derive(Clone, Copy, PartialEq, Eq, Structural, Debug, Default)]
pub struct Entry {
    pub address: usize,
    pub length: usize,
}

/// The addresses of a list of entries.
pub open spec fn addresses(entries: Seq<Entry>) -> Seq<usize> {
    entries.map_values(|e: Entry| e.address)
}

/// Whether `f` is where the data at `start` ends: the lowest of `end` and the addresses after
/// `start` and before `end`.
pub open spec fn is_next_bound(addrs: Seq<usize>, start: usize, end: usize, f: int) -> bool {
    &&& f <= end
    &&& (f == end || exists|i: int| 0 <= i < addrs.len() && addrs[i] == f && start < f)
    &&& forall|i: int| 0 <= i < addrs.len() && start < addrs[i] < end ==> f <= #[trigger] addrs[i]
}

/// Sets each entry's length to the distance to the next entry above it, or to `end_address`.
pub fn calculate_entry_sizes(entries: &mut Vec<Entry>, end_address: usize)
    requires
        forall|i: int| 0 <= i < old(entries)@.len() ==> (#[trigger] old(entries)@[i]).address <= end_address,
    ensures
        final(entries)@.len() == old(entries)@.len(),
        addresses(final(entries)@) == addresses(old(entries)@),
        forall|j: int| 0 <= j < final(entries)@.len() ==> is_next_bound(
            addresses(old(entries)@),
            old(entries)@[j].address,
            end_address,
            old(entries)@[j].address + (#[trigger] final(entries)@[j]).length,
        ),
{
    let ghost addrs = addresses(entries@);
    let n = entries.len();
    let mut j: usize = 0;
    while j < n
        invariant
            n == entries@.len(),
            j <= n,
            addresses(entries@) == addrs,
            addrs.len() == n,
            forall|i: int| 0 <= i < n ==> #[trigger] addrs[i] <= end_address,
            forall|k: int| 0 <= k < j ==> is_next_bound(addrs, addrs[k], end_address, addrs[k] + (#[trigger] entries@[k]).length),
        decreases n - j,
    {
        assert(entries@[j as int].address == addrs[j as int]);
        let start = entries[j].address;
        let mut found_end = end_address;
        let mut i: usize = 0;
        while i < n
            invariant
                n == entries@.len(),
                i <= n,
                j < n,
                start == addrs[j as int],
                addresses(entries@) == addrs,
                addrs.len() == n,
                start <= end_address,
                start <= found_end <= end_address,
                found_end == end_address || exists|k: int| 0 <= k < n && addrs[k] == found_end && start < found_end,
                forall|k: int| 0 <= k < i && start < addrs[k] < end_address ==> found_end <= #[trigger] addrs[k],
            decreases n - i,
        {
            assert(entries@[i as int].address == addrs[i as int]);
            let a = entries[i].address;
            if a > start && a < found_end {
                found_end = a;
            }
            i = i + 1;
        }
        let mut e = entries[j];
        e.length = found_end - start;
        let ghost before = entries@;
        entries.set(j, e);
        assert(addresses(entries@) =~= addrs) by {
            assert forall|k: int| 0 <= k < n implies #[trigger] addresses(entries@)[k] == addrs[k] by {
                assert(addresses(before)[k] == addrs[k]);
            }
        }
        j = j + 1;
    }
}

/// Sets each entry's length to the distance to the next entry in the list, for all entries but
/// the last, whose length stays as it was.
pub fn calculate_ordered_entry_sizes(entries: &mut Vec<Entry>, end_address: usize)
    requires
        old(entries)@.len() > 0,
        forall|j: int| 0 <= j < old(entries)@.len() - 1 ==> (#[trigger] old(entries)@[j]).address <= old(entries)@[j + 1].address,
    ensures
        final(entries)@.len() == old(entries)@.len(),
        forall|j: int| 0 <= j < final(entries)@.len() ==> (#[trigger] final(entries)@[j]).address == old(entries)@[j].address,
        forall|j: int| 0 <= j < final(entries)@.len() - 1 ==> (#[trigger] final(entries)@[j]).length == old(entries)@[j + 1].address - old(entries)@[j].address,
        final(entries)@.last().length == old(entries)@.last().length,
{
    let n = entries.len();
    let mut j: usize = 0;
    while j < n - 1
        invariant
            n == entries@.len(),
            n > 0,
            j <= n - 1,
            forall|k: int| 0 <= k < n ==> (#[trigger] entries@[k]).address == old(entries)@[k].address,
            forall|k: int| 0 <= k < n - 1 ==> (#[trigger] old(entries)@[k]).address <= old(entries)@[k + 1].address,
            forall|k: int| 0 <= k < j ==> (#[trigger] entries@[k]).length == old(entries)@[k + 1].address - old(entries)@[k].address,
            forall|k: int| j <= k < n ==> (#[trigger] entries@[k]).length == old(entries)@[k].length,
        decreases n - 1 - j,
    {
        let next = if j == n - 1 { end_address } else { entries[j + 1].address };
        assert(old(entries)@[j as int].address <= old(entries)@[j + 1].address);
        let mut e = entries[j];
        e.length = next - e.address;
        entries.set(j, e);
        j = j + 1;
    }
}


/// The ROM address of a three byte pointer at `p`: a 16 bit offset and a bank from 0xC0 on; a
/// pointer of zeros stays zero.
pub open spec fn long_pointer_address(d: Seq<u8>, p: int) -> int {
    let pointer = le16(d, p);
    let bank = d[p + 2] as int;
    if bank == 0 && pointer == 0 { 0 } else { 0x10000 * (bank - 0xC0) + pointer }
}

/// Whether a three byte pointer can be converted: a zero pointer, or a bank from 0xC0 on.
pub open spec fn long_pointer_ok(d: Seq<u8>, p: int) -> bool {
    (d[p + 2] == 0 && le16(d, p) == 0) || d[p + 2] >= 0xC0
}

/// Reads a table of `pointer_count` three byte pointers into entries, sized up to the next entry
/// or `last_entry_end_address`.
pub fn get_entries(data: &Vec<u8>, pointers_address: usize, pointer_count: usize, last_entry_end_address: usize) -> (entries: Vec<Entry>)
    requires
        pointers_address + 3 * pointer_count <= data@.len(),
        forall|i: int| 0 <= i < pointer_count ==> #[trigger] long_pointer_ok(data@, pointers_address + 3 * i),
        forall|i: int| 0 <= i < pointer_count ==> #[trigger] long_pointer_address(data@, pointers_address + 3 * i) <= last_entry_end_address,
    ensures
        entries@.len() == pointer_count,
        forall|i: int| 0 <= i < pointer_count ==> (#[trigger] entries@[i]).address == long_pointer_address(data@, pointers_address + 3 * i),
        forall|j: int| 0 <= j < pointer_count ==> is_next_bound(
            addresses(entries@),
            entries@[j].address,
            last_entry_end_address,
            entries@[j].address + (#[trigger] entries@[j]).length,
        ),
{
    let mut entries: Vec<Entry> = Vec::with_capacity(pointer_count);
    let mut reader = ByteReader::new(data.clone());
    reader.seek(pointers_address);
    let mut i: usize = 0;
    while i < pointer_count
        invariant
            reader.data@ == data@,
            i <= pointer_count,
            pointers_address + 3 * pointer_count <= data@.len(),
            reader.pos == pointers_address + 3 * i,
            forall|k: int| 0 <= k < pointer_count ==> #[trigger] long_pointer_ok(data@, pointers_address + 3 * k),
            forall|k: int| 0 <= k < pointer_count ==> #[trigger] long_pointer_address(data@, pointers_address + 3 * k) <= last_entry_end_address,
            entries@.len() == i,
            forall|k: int| 0 <= k < i ==> (#[trigger] entries@[k]).address == long_pointer_address(data@, pointers_address + 3 * k),
        decreases pointer_count - i,
    {
        assert(long_pointer_ok(data@, pointers_address + 3 * i));
        assert(long_pointer_address(data@, pointers_address + 3 * i) <= last_entry_end_address);
        let pointer = reader.read_u16_le() as usize;
        let bank = reader.read_u8() as usize;
        if bank == 0 && pointer == 0 {
            entries.push(Entry { address: 0, length: 0 });
        } else {
            entries.push(Entry { address: 0x10000 * (bank - 0xC0) + pointer, length: 0 });
        }
        i = i + 1;
    }
    let ghost before = entries@;
    calculate_entry_sizes(&mut entries, last_entry_end_address);
    assert forall|k: int| 0 <= k < pointer_count implies (#[trigger] entries@[k]).address == long_pointer_address(data@, pointers_address + 3 * k) by {
        assert(addresses(entries@)[k] == addresses(before)[k]);
    }
    entries
}

/// Reads a table of `pointer_count` 16 bit pointers, each added to `base`, into entries, sized in
/// order or by the next entry above.
fn short_pointer_entries(data: &Vec<u8>, pointers_address: usize, pointer_count: usize, base: usize) -> (entries: Vec<Entry>)
    requires
        pointers_address + 2 * pointer_count <= data@.len(),
        base + 0xFFFF <= usize::MAX,
    ensures
        entries@.len() == pointer_count,
        forall|i: int| 0 <= i < pointer_count ==> (#[trigger] entries@[i]).address == base + le16(data@, pointers_address + 2 * i)
            && entries@[i].length == 0,
{
    let mut entries: Vec<Entry> = Vec::with_capacity(pointer_count);
    let mut reader = ByteReader::new(data.clone());
    reader.seek(pointers_address);
    let mut i: usize = 0;
    while i < pointer_count
        invariant
            reader.data@ == data@,
            i <= pointer_count,
            pointers_address + 2 * pointer_count <= data@.len(),
            base + 0xFFFF <= usize::MAX,
            reader.pos == pointers_address + 2 * i,
            entries@.len() == i,
            forall|k: int| 0 <= k < i ==> (#[trigger] entries@[k]).address == base + le16(data@, pointers_address + 2 * k)
                && entries@[k].length == 0,
        decreases pointer_count - i,
    {
        let pointer = reader.read_u16_le() as usize;
        entries.push(Entry { address: base + pointer, length: 0 });
        i = i + 1;
    }
    entries
}

/// Reads a table of 16 bit pointers within the 64 KiB page of the table into entries; the
/// entries are sized in order when `ordered`, else by the next entry above.
pub fn get_local_entries(data: &Vec<u8>, pointers_address: usize, pointer_count: usize, last_entry_end_address: usize, ordered: bool) -> (entries: Vec<Entry>)
    requires
        pointers_address + 2 * pointer_count <= data@.len(),
        ordered ==> pointer_count > 0 && forall|i: int| 0 <= i < pointer_count - 1 ==> #[trigger] le16(data@, pointers_address + 2 * i) <= le16(data@, pointers_address + 2 * (i + 1)),
        !ordered ==> forall|i: int| 0 <= i < pointer_count ==> (pointers_address & 0xFF0000) + #[trigger] le16(data@, pointers_address + 2 * i) <= last_entry_end_address,
    ensures
        entries@.len() == pointer_count,
        forall|i: int| 0 <= i < pointer_count ==> (#[trigger] entries@[i]).address == (pointers_address & 0xFF0000) + le16(data@, pointers_address + 2 * i),
        ordered ==> forall|j: int| 0 <= j < pointer_count - 1 ==> (#[trigger] entries@[j]).length == entries@[j + 1].address - entries@[j].address,
        ordered ==> entries@.last().length == 0,
        !ordered ==> forall|j: int| 0 <= j < pointer_count ==> is_next_bound(
            addresses(entries@),
            entries@[j].address,
            last_entry_end_address,
            entries@[j].address + (#[trigger] entries@[j]).length,
        ),
{
    let page_start = pointers_address & 0xFF0000;
    assert(page_start <= 0xFF0000) by (bit_vector)
        requires
            page_start == pointers_address & 0xFF0000,
    ;
    let mut entries = short_pointer_entries(data, pointers_address, pointer_count, page_start);
    let ghost before = entries@;
    if ordered {
        calculate_ordered_entry_sizes(&mut entries, last_entry_end_address);
    } else {
        calculate_entry_sizes(&mut entries, last_entry_end_address);
        assert forall|k: int| 0 <= k < pointer_count implies (#[trigger] entries@[k]).address == page_start + le16(data@, pointers_address + 2 * k) by {
            assert(addresses(entries@)[k] == addresses(before)[k]);
        }
    }
    entries
}

/// Reads a table of 16 bit pointers relative to `relative_to` into entries, sized by the next
/// entry above or `last_entry_end_address`.
pub fn get_relative_entries(data: &Vec<u8>, pointers_address: usize, pointer_count: usize, relative_to: usize, last_entry_end_address: usize) -> (entries: Vec<Entry>)
    requires
        pointers_address + 2 * pointer_count <= data@.len(),
        relative_to + 0xFFFF <= usize::MAX,
        forall|i: int| 0 <= i < pointer_count ==> relative_to + #[trigger] le16(data@, pointers_address + 2 * i) <= last_entry_end_address,
    ensures
        entries@.len() == pointer_count,
        forall|i: int| 0 <= i < pointer_count ==> (#[trigger] entries@[i]).address == relative_to + le16(data@, pointers_address + 2 * i),
        forall|j: int| 0 <= j < pointer_count ==> is_next_bound(
            addresses(entries@),
            entries@[j].address,
            last_entry_end_address,
            entries@[j].address + (#[trigger] entries@[j]).length,
        ),
{
    let mut entries = short_pointer_entries(data, pointers_address, pointer_count, relative_to);
    let ghost before = entries@;
    calculate_entry_sizes(&mut entries, last_entry_end_address);
    assert forall|k: int| 0 <= k < pointer_count implies (#[trigger] entries@[k]).address == relative_to + le16(data@, pointers_address + 2 * k) by {
        assert(addresses(entries@)[k] == addresses(before)[k]);
    }
    entries
}


/// Opaque black, the color of the palette entries that the ROM does not store.
pub open spec fn black() -> Color {
    [0u8, 0u8, 0u8, 0xFFu8]
}

/// `n` opaque black colors.
pub open spec fn blacks(n: nat) -> Seq<Color> {
    Seq::new(n, |i: int| black())
}

/// Set `s` of a palette: `start` blacks, the set's `size` colors as stored one after the other
/// from the start of the data, then `pad` blacks.
pub open spec fn palette_set(d: Seq<u8>, s: int, size: nat, start: nat, pad: nat) -> Seq<Color> {
    blacks(start) + Seq::new(size, |i: int| snes_color(le16(d, 2 * (s * size + i)) as u16)) + blacks(pad)
}

/// The first `count` sets of a palette, in order.
pub open spec fn palette_sets(d: Seq<u8>, count: nat, size: nat, start: nat, pad: nat) -> Seq<Color>
    decreases count,
{
    if count == 0 {
        Seq::empty()
    } else {
        palette_sets(d, (count - 1) as nat, size, start, pad) + palette_set(d, count - 1, size, start, pad)
    }
}

proof fn lemma_color_in_bounds(s: int, j: int, size: int, count: int)
    requires
        0 <= s < count,
        0 <= j < size,
    ensures
        2 * (s * size + j) + 2 <= 2 * size * count,
{
    assert(s * size + j + 1 <= (s + 1) * size) by (nonlinear_arith)
        requires
            0 <= j < size,
    ;
    assert((s + 1) * size <= count * size) by (nonlinear_arith)
        requires
            s + 1 <= count,
            size >= 0,
    ;
    assert(2 * size * count == 2 * (count * size)) by (nonlinear_arith);
}

/// Reads an SNES palette: `skip` blacks, then `set_count` sets of `set_size` stored colors,
/// each with `set_start` blacks before and `set_pad` blacks after it.
pub fn read_palette(data: &Vec<u8>, skip: usize, set_size: usize, set_count: usize, set_start: usize, set_pad: usize) -> (p: Palette)
    requires
        2 * set_size * set_count <= data@.len(),
    ensures
        p.colors@ == blacks(skip as nat) + palette_sets(data@, set_count as nat, set_size as nat, set_start as nat, set_pad as nat),
{
    let ghost d = data@;
    let mut colors: Vec<Color> = Vec::new();
    let mut k: usize = 0;
    while k < skip
        invariant
            k <= skip,
            colors@ == blacks(k as nat),
        decreases skip - k,
    {
        colors.push([0, 0, 0, 0xFF]);
        k = k + 1;
        assert(colors@ =~= blacks(k as nat));
    }
    let mut reader = ByteReader::new(data.clone());
    let mut s: usize = 0;
    while s < set_count
        invariant
            s <= set_count,
            reader.data@ == d,
            d == data@,
            2 * set_size * set_count <= d.len(),
            colors@ == blacks(skip as nat) + palette_sets(d, s as nat, set_size as nat, set_start as nat, set_pad as nat),
            reader.pos == 2 * (s * set_size),
        decreases set_count - s,
    {
        let ghost before = colors@;
        let mut i: usize = 0;
        while i < set_start
            invariant
                i <= set_start,
                colors@ == before + blacks(i as nat),
            decreases set_start - i,
        {
            colors.push([0, 0, 0, 0xFF]);
            i = i + 1;
            assert(colors@ =~= before + blacks(i as nat));
        }
        let mut j: usize = 0;
        while j < set_size
            invariant
                j <= set_size,
                s < set_count,
                reader.data@ == d,
                2 * set_size * set_count <= d.len(),
                reader.pos == 2 * (s * set_size + j),
                colors@ == before + blacks(set_start as nat) + Seq::new(j as nat, |t: int| snes_color(le16(d, 2 * (s * set_size + t)) as u16)),
            decreases set_size - j,
        {
            proof {
                lemma_color_in_bounds(s as int, j as int, set_size as int, set_count as int);
            }
            let c = read_color(&mut reader);
            colors.push(c);
            j = j + 1;
            assert(colors@ =~= before + blacks(set_start as nat) + Seq::new(j as nat, |t: int| snes_color(le16(d, 2 * (s * set_size + t)) as u16)));
        }
        let mut q: usize = 0;
        while q < set_pad
            invariant
                q <= set_pad,
                colors@ == before + blacks(set_start as nat) + Seq::new(set_size as nat, |t: int| snes_color(le16(d, 2 * (s * set_size + t)) as u16)) + blacks(q as nat),
            decreases set_pad - q,
        {
            colors.push([0, 0, 0, 0xFF]);
            q = q + 1;
            assert(colors@ =~= before + blacks(set_start as nat) + Seq::new(set_size as nat, |t: int| snes_color(le16(d, 2 * (s * set_size + t)) as u16)) + blacks(q as nat));
        }
        assert(colors@ =~= before + palette_set(d, s as int, set_size as nat, set_start as nat, set_pad as nat));
        assert(reader.pos == 2 * ((s + 1) * set_size)) by (nonlinear_arith)
            requires
                reader.pos == 2 * (s * set_size + set_size),
        ;
        s = s + 1;
        assert(colors@ =~= blacks(skip as nat) + palette_sets(d, s as nat, set_size as nat, set_start as nat, set_pad as nat));
    }
    Palette::from_colors(&colors)
}


/// Bit `c` of a bitplane byte, counted from the most significant bit, as 0 or 1.
pub open spec fn plane_bit(byte: u8, c: int) -> u8 {
    if byte & (0x80u8 >> (c as u8)) != 0 { 1 } else { 0 }
}

/// The color index of pixel `(c, r)` of a planar chip: bitplanes 0 and 1 interleaved row by
/// row in the chip's first 16 bytes, and for four bitplanes, planes 2 and 3 in the next 16.
pub open spec fn planar_pixel(d: Seq<u8>, bitplanes: int, chip: int, r: int, c: int) -> u8 {
    let base = chip * bitplanes * 8 + 2 * r;
    let low = plane_bit(d[base], c) + 2 * plane_bit(d[base + 1], c);
    if bitplanes == 4 {
        (low + 4 * plane_bit(d[base + 16], c) + 8 * plane_bit(d[base + 17], c)) as u8
    } else {
        low as u8
    }
}

/// The number of whole chips in planar data.
pub open spec fn chip_count_of(len: int, bitplanes: int) -> int {
    len / (bitplanes * 8)
}

/// The number of pixels of the linear image of `chips` chips: 16 chips of 8 by 8 pixels to a
/// row of 128 pixels, the last row of chips filled up.
pub open spec fn linear_len(chips: int) -> int {
    128 * ((chips + 15) / 16 * 8)
}

/// Pixel `idx` of the linear image: the chip under it, counted 16 to a row, gives its color
/// index; where no chip lies the pixel is 0.
pub open spec fn linear_pixel(d: Seq<u8>, bitplanes: int, idx: int) -> u8 {
    let y = idx / 128;
    let x = idx % 128;
    let chip = (y / 8) * 16 + x / 8;
    if chip < chip_count_of(d.len() as int, bitplanes) {
        planar_pixel(d, bitplanes, chip, y % 8, x % 8)
    } else {
        0
    }
}

/// Bit `7 - c` of a byte, as 0 or 1: the bit of pixel column `c` of a bitplane row, the
/// leftmost pixel in the top bit.
pub open spec fn column_bit(b: u8, c: int) -> int {
    ((b >> ((7 - c) as u8)) & 1u8) as int
}

proof fn lemma_column_bit(b: u8, c: int)
    requires
        0 <= c < 8,
    ensures
        plane_bit(b, c) as int == column_bit(b, c),
        0 <= column_bit(b, c) <= 1,
{
    let cu = c as u8;
    let sh = (7 - c) as u8;
    assert(sh + cu == 7);
    assert((if b & (0x80u8 >> cu) != 0 { 1u8 } else { 0u8 }) == (b >> sh) & 1u8 && (b >> sh) & 1u8 <= 1) by (bit_vector)
        requires
            cu < 8,
            sh + cu == 7,
    ;
}

proof fn lemma_linear_position(chip: int, r: int, c: int)
    requires
        0 <= chip,
        0 <= r < 8,
        0 <= c < 8,
    ensures
        ({
            let idx = ((chip / 16) * 8 + r) * 128 + (chip % 16) * 8 + c;
            let y = idx / 128;
            let x = idx % 128;
            &&& (y / 8) * 16 + x / 8 == chip
            &&& y % 8 == r
            &&& x % 8 == c
        }),
{
    let q = chip / 16;
    let m = chip % 16;
    assert(0 <= m < 16);
    assert(chip == q * 16 + m) by (nonlinear_arith)
        requires
            q == chip / 16,
            m == chip % 16,
    ;
    let y = q * 8 + r;
    let x = m * 8 + c;
    assert(0 <= x < 128) by (nonlinear_arith)
        requires
            0 <= m < 16,
            0 <= c < 8,
            x == m * 8 + c,
    ;
    let idx = y * 128 + x;
    assert(idx == ((chip / 16) * 8 + r) * 128 + (chip % 16) * 8 + c);
    lemma_fundamental_div_mod_converse(idx, 128, y, x);
    lemma_fundamental_div_mod_converse(y, 8, q, r);
    lemma_fundamental_div_mod_converse(x, 8, m, c);
}

/// The color index of every pixel of a 4 bitplane image: pixel `(c, r)` of chip `chip`, which
/// lies 16 chips to a row of 128 pixels, has bit `k` from plane `k`: planes 0 and 1 in bytes
/// `2r` and `2r + 1` of the chip's 32 bytes, planes 2 and 3 in bytes `16 + 2r` and `17 + 2r`,
/// the leftmost pixel in the top bit of each.
pub proof fn law_planar_color_index_4bpp(d: Seq<u8>, chip: int, r: int, c: int)
    requires
        0 <= chip < chip_count_of(d.len() as int, 4),
        0 <= r < 8,
        0 <= c < 8,
    ensures
        linear_pixel(d, 4, ((chip / 16) * 8 + r) * 128 + (chip % 16) * 8 + c) as int == column_bit(d[32 * chip + 2 * r], c)
            + 2 * column_bit(d[32 * chip + 2 * r + 1], c) + 4 * column_bit(d[32 * chip + 2 * r + 16], c) + 8
            * column_bit(d[32 * chip + 2 * r + 17], c),
{
    lemma_linear_position(chip, r, c);
    let base = 32 * chip + 2 * r;
    assert(chip * 4 * 8 + 2 * r == base) by (nonlinear_arith)
        requires
            base == 32 * chip + 2 * r,
    ;
    lemma_column_bit(d[base], c);
    lemma_column_bit(d[base + 1], c);
    lemma_column_bit(d[base + 16], c);
    lemma_column_bit(d[base + 17], c);
}

/// The color index of every pixel of a 2 bitplane image: pixel `(c, r)` of chip `chip` has bit
/// 0 from byte `2r` and bit 1 from byte `2r + 1` of the chip's 16 bytes.
pub proof fn law_planar_color_index_2bpp(d: Seq<u8>, chip: int, r: int, c: int)
    requires
        0 <= chip < chip_count_of(d.len() as int, 2),
        0 <= r < 8,
        0 <= c < 8,
    ensures
        linear_pixel(d, 2, ((chip / 16) * 8 + r) * 128 + (chip % 16) * 8 + c) as int == column_bit(d[16 * chip + 2 * r], c)
            + 2 * column_bit(d[16 * chip + 2 * r + 1], c),
{
    lemma_linear_position(chip, r, c);
    let base = 16 * chip + 2 * r;
    assert(chip * 2 * 8 + 2 * r == base) by (nonlinear_arith)
        requires
            base == 16 * chip + 2 * r,
    ;
    lemma_column_bit(d[base], c);
    lemma_column_bit(d[base + 1], c);
}

/// Bit `c` of a bitplane byte, counted from the most significant bit.
fn read_plane_bit(byte: u8, c: usize) -> (b: u8)
    requires
        c < 8,
    ensures
        b == plane_bit(byte, c as int),
{
    let bit: u8 = 0x80u8 >> (c as u8);
    if byte & bit != 0 { 1 } else { 0 }
}

proof fn lemma_chip_bytes_in_bounds(len: int, per_chip: int, chip: int)
    requires
        per_chip > 0,
        0 <= chip < len / per_chip,
        len >= 0,
    ensures
        chip * per_chip + per_chip <= len,
{
    assert(chip * per_chip + per_chip == (chip + 1) * per_chip) by (nonlinear_arith);
    assert((chip + 1) * per_chip <= (len / per_chip) * per_chip) by (nonlinear_arith)
        requires
            chip + 1 <= len / per_chip,
            per_chip > 0,
    ;
    assert((len / per_chip) * per_chip <= len) by (nonlinear_arith)
        requires
            per_chip > 0,
            len >= 0,
    ;
}

/// Converts planar chips of 2 or 4 bitplanes to a linear image 128 pixels wide, one byte per
/// pixel, 16 chips to a row of chips.
pub fn convert_planar_chips_to_linear(data: &Vec<u8>, bitplanes: usize) -> (pixels: Vec<u8>)
    requires
        bitplanes == 2 || bitplanes == 4,
        4 * data@.len() + 1024 <= usize::MAX,
    ensures
        pixels@.len() == linear_len(chip_count_of(data@.len() as int, bitplanes as int)),
        forall|i: int| 0 <= i < pixels@.len() ==> #[trigger] pixels@[i] == linear_pixel(data@, bitplanes as int, i),
{
    let per_chip = bitplanes * 8;
    let chip_count = data.len() / per_chip;
    assert(chip_count <= data@.len() / 16) by (nonlinear_arith)
        requires
            chip_count == (data@.len() as int) / (per_chip as int),
            per_chip >= 16,
    ;
    let height = (chip_count + 15) / 16 * 8;
    let total = 128 * height;
    let mut pixels: Vec<u8> = Vec::with_capacity(total);
    let mut idx: usize = 0;
    while idx < total
        invariant
            idx <= total,
            total == linear_len(chip_count as int),
            chip_count == chip_count_of(data@.len() as int, bitplanes as int),
            per_chip == bitplanes * 8,
            bitplanes == 2 || bitplanes == 4,
            pixels@.len() == idx,
            forall|i: int| 0 <= i < idx ==> #[trigger] pixels@[i] == linear_pixel(data@, bitplanes as int, i),
        decreases total - idx,
    {
        let y = idx / 128;
        let x = idx % 128;
        let chip = (y / 8) * 16 + x / 8;
        let mut v: u8 = 0;
        if chip < chip_count {
            proof {
                lemma_chip_bytes_in_bounds(data@.len() as int, per_chip as int, chip as int);
            }
            let r = y % 8;
            let c = x % 8;
            let base = chip * per_chip + 2 * r;
            let low = read_plane_bit(data[base], c) + 2 * read_plane_bit(data[base + 1], c);
            if bitplanes == 4 {
                v = low + 4 * read_plane_bit(data[base + 16], c) + 8 * read_plane_bit(data[base + 17], c);
            } else {
                v = low;
            }
        }
        pixels.push(v);
        idx = idx + 1;
    }
    pixels
}


/// The game title in the ROM header, padded with spaces.
pub open spec fn rom_title() -> Seq<char> {
    "CHRONO TRIGGER       "@
}

/// Where the ROM header of a Chrono Trigger ROM is: the title at 0x101C0 means a 0x200 byte
/// copier header precedes the ROM; only where those bytes are not valid UTF-8 is the title
/// looked for at 0xFFC0.
pub open spec fn rom_header_at(d: Seq<u8>) -> Option<usize> {
    let first = utf8_text(d.subrange(0x101C0, 0x101D5));
    if first is Some {
        if first == Some(rom_title()) { Some(0x101C0usize) } else { None }
    } else if utf8_text(d.subrange(0xFFC0, 0xFFD5)) == Some(rom_title()) {
        Some(0xFFC0usize)
    } else {
        None
    }
}

/// Finds the ROM header of a Chrono Trigger ROM; `None` where the data is not one.
pub fn find_rom_header(data: &Vec<u8>) -> (header: Option<usize>)
    requires
        data@.len() >= 0x101D5,
    ensures
        header == rom_header_at(data@),
{
    let title = string_from("CHRONO TRIGGER       ");
    let first = slice_bytes(data, 0x101C0, 0x15);
    match utf8_string(&first) {
        Some(id) => {
            if id == title { Some(0x101C0) } else { None }
        },
        None => {
            let second = slice_bytes(data, 0xFFC0, 0x15);
            match utf8_string(&second) {
                Some(id) => {
                    if id == title { Some(0xFFC0) } else { None }
                },
                None => None,
            }
        },
    }
}

/// A copy of `len` bytes of the data from `start` on.
pub fn slice_bytes(data: &Vec<u8>, start: usize, len: usize) -> (out: Vec<u8>)
    requires
        start + len <= data@.len(),
    ensures
        out@ == data@.subrange(start as int, start + len),
{
    let mut out: Vec<u8> = Vec::with_capacity(len);
    let mut i: usize = 0;
    while i < len
        invariant
            i <= len,
            start + len <= data@.len(),
            data@.len() == data.len(),
            out@ == data@.subrange(start as int, start + i),
        decreases len - i,
    {
        out.push(data[start + i]);
        i = i + 1;
    }
    out
}


/// Whether a table of three byte pointers can be read into entries ending by
/// `last_entry_end_address`.
pub open spec fn long_table_ok(d: Seq<u8>, addr: int, count: int, end: int) -> bool {
    &&& addr + 3 * count <= d.len()
    &&& forall|i: int| 0 <= i < count ==> #[trigger] long_pointer_ok(d, addr + 3 * i)
    &&& forall|i: int| 0 <= i < count ==> #[trigger] long_pointer_address(d, addr + 3 * i) <= end
}

/// Whether `e` holds the entries of a table of three byte pointers.
pub open spec fn long_entries(d: Seq<u8>, addr: int, count: int, end: int, e: Seq<Entry>) -> bool {
    &&& e.len() == count
    &&& forall|i: int| 0 <= i < count ==> (#[trigger] e[i]).address == long_pointer_address(d, addr + 3 * i)
    &&& forall|j: int| 0 <= j < count ==> is_next_bound(addresses(e), e[j].address, end as usize, e[j].address + (#[trigger] e[j]).length)
}

/// Whether a table of 16 bit pointers within its 64 KiB page can be read into entries.
pub open spec fn local_table_ok(d: Seq<u8>, addr: int, count: int, end: int, ordered: bool) -> bool {
    &&& addr + 2 * count <= d.len()
    &&& ordered ==> count > 0 && forall|i: int| 0 <= i < count - 1 ==> #[trigger] le16(d, addr + 2 * i) <= le16(d, addr + 2 * (i + 1))
    &&& !ordered ==> forall|i: int| 0 <= i < count ==> (addr as usize & 0xFF0000) + #[trigger] le16(d, addr + 2 * i) <= end
}

/// Whether `e` holds the entries of a table of 16 bit pointers within its page.
pub open spec fn local_entries(d: Seq<u8>, addr: int, count: int, end: int, ordered: bool, e: Seq<Entry>) -> bool {
    &&& e.len() == count
    &&& forall|i: int| 0 <= i < count ==> (#[trigger] e[i]).address == (addr as usize & 0xFF0000) + le16(d, addr + 2 * i)
    &&& ordered ==> forall|j: int| 0 <= j < count - 1 ==> (#[trigger] e[j]).length == e[j + 1].address - e[j].address
    &&& ordered ==> e.last().length == 0
    &&& !ordered ==> forall|j: int| 0 <= j < count ==> is_next_bound(addresses(e), e[j].address, end as usize, e[j].address + (#[trigger] e[j]).length)
}

/// Whether a table of 16 bit pointers relative to `rel` can be read into entries.
pub open spec fn relative_table_ok(d: Seq<u8>, addr: int, count: int, rel: int, end: int) -> bool {
    &&& addr + 2 * count <= d.len()
    &&& forall|i: int| 0 <= i < count ==> rel + #[trigger] le16(d, addr + 2 * i) <= end
}

/// Whether `e` holds the entries of a table of 16 bit pointers relative to `rel`.
pub open spec fn relative_entries(d: Seq<u8>, addr: int, count: int, rel: int, end: int, e: Seq<Entry>) -> bool {
    &&& e.len() == count
    &&& forall|i: int| 0 <= i < count ==> (#[trigger] e[i]).address == rel + le16(d, addr + 2 * i)
    &&& forall|j: int| 0 <= j < count ==> is_next_bound(addresses(e), e[j].address, end as usize, e[j].address + (#[trigger] e[j]).length)
}

/// Whether a table of three byte pointers can be read.
fn check_long_table(data: &Vec<u8>, addr: usize, count: usize, end: usize) -> (ok: bool)
    requires
        addr <= 0x1000000,
        count <= 0x1000,
    ensures
        ok == long_table_ok(data@, addr as int, count as int, end as int),
{
    if addr + 3 * count > data.len() {
        return false;
    }
    let mut reader = ByteReader::new(data.clone());
    let mut i: usize = 0;
    while i < count
        invariant
            reader.data@ == data@,
            addr <= 0x1000000,
            count <= 0x1000,
            addr + 3 * count <= data@.len(),
            i <= count,
            forall|k: int| 0 <= k < i ==> #[trigger] long_pointer_ok(data@, addr + 3 * k),
            forall|k: int| 0 <= k < i ==> #[trigger] long_pointer_address(data@, addr + 3 * k) <= end,
        decreases count - i,
    {
        reader.seek(addr + 3 * i);
        let pointer = reader.read_u16_le() as usize;
        let bank = reader.read_u8() as usize;
        if bank == 0 && pointer == 0 {
        } else if bank >= 0xC0 {
            if 0x10000 * (bank - 0xC0) + pointer > end {
                assert(long_pointer_address(data@, addr + 3 * i) > end);
                return false;
            }
        } else {
            assert(!long_pointer_ok(data@, addr + 3 * i));
            return false;
        }
        i = i + 1;
    }
    true
}

/// Whether a table of 16 bit pointers within its page can be read.
#[verifier::spinoff_prover]
fn check_local_table(data: &Vec<u8>, addr: usize, count: usize, end: usize, ordered: bool) -> (ok: bool)
    requires
        addr <= 0x1000000,
        count <= 0x1000,
    ensures
        ok == local_table_ok(data@, addr as int, count as int, end as int, ordered),
{
    if addr + 2 * count > data.len() {
        return false;
    }
    let page = addr & 0xFF0000;
    assert(page <= 0xFF0000) by (bit_vector)
        requires
            page == addr & 0xFF0000,
    ;
    if ordered && count == 0 {
        return false;
    }
    let mut reader = ByteReader::new(data.clone());
    let mut i: usize = 0;
    while i < count
        invariant
            reader.data@ == data@,
            addr <= 0x1000000,
            count <= 0x1000,
            page == addr & 0xFF0000,
            page <= 0xFF0000,
            addr + 2 * count <= data@.len(),
            ordered ==> count > 0,
            i <= count,
            ordered ==> forall|k: int| 0 <= k < i && k < count - 1 ==> #[trigger] le16(data@, addr + 2 * k) <= le16(data@, addr + 2 * (k + 1)),
            !ordered ==> forall|k: int| 0 <= k < i ==> page + #[trigger] le16(data@, addr + 2 * k) <= end,
        decreases count - i,
    {
        reader.seek(addr + 2 * i);
        let value = reader.read_u16_le() as usize;
        if ordered {
            if i + 1 < count {
                let next = reader.read_u16_le() as usize;
                if value > next {
                    return false;
                }
            }
        } else if page + value > end {
            return false;
        }
        i = i + 1;
    }
    true
}

/// Whether a table of 16 bit pointers relative to `rel` can be read.
fn check_relative_table(data: &Vec<u8>, addr: usize, count: usize, rel: usize, end: usize) -> (ok: bool)
    requires
        addr <= 0x1000000,
        count <= 0x1000,
        rel <= 0x1000000,
    ensures
        ok == relative_table_ok(data@, addr as int, count as int, rel as int, end as int),
{
    if addr + 2 * count > data.len() {
        return false;
    }
    let mut reader = ByteReader::new(data.clone());
    let mut i: usize = 0;
    while i < count
        invariant
            reader.data@ == data@,
            addr <= 0x1000000,
            count <= 0x1000,
            rel <= 0x1000000,
            addr + 2 * count <= data@.len(),
            i <= count,
            forall|k: int| 0 <= k < i ==> rel + #[trigger] le16(data@, addr + 2 * k) <= end,
        decreases count - i,
    {
        reader.seek(addr + 2 * i);
        let value = reader.read_u16_le() as usize;
        if rel + value > end {
            return false;
        }
        i = i + 1;
    }
    true
}


/// Why ROM data cannot be used.
#[derive(Clone, Copy, PartialEq, Eq, Structural, Debug)]
pub enum SnesRomError {
    /// More than 6 MiB.
    TooLarge,
    /// No Chrono Trigger ROM header.
    NotChronoTrigger,
    /// A pointer table or the dictionary lies outside the data or points outside it.
    BadData,
}

/// The ROM without the 0x200 byte copier header that a header at 0x101C0 reveals.
pub open spec fn stripped_rom(d: Seq<u8>) -> Seq<u8> {
    if rom_header_at(d) == Some(0x101C0usize) { d.subrange(0x200, d.len() as int) } else { d }
}

/// A ROM image with a copier header of 512 bytes in front is found as a Chrono Trigger ROM
/// and reads as the same ROM without the header.
pub proof fn law_copier_header_ignored(rom: Seq<u8>, copier_header: Seq<u8>)
    requires
        copier_header.len() == 0x200,
        rom.len() >= 0xFFD5,
        rom_header_at(rom) == Some(0xFFC0usize),
    ensures
        rom_header_at(copier_header + rom) == Some(0x101C0usize),
        stripped_rom(copier_header + rom) == stripped_rom(rom),
        stripped_rom(rom) == rom,
{
    let headered = copier_header + rom;
    assert(headered.subrange(0x101C0, 0x101D5) =~= rom.subrange(0xFFC0, 0xFFD5));
    assert(headered.subrange(0x200, headered.len() as int) =~= rom);
}

/// The address that sprite pointer `k` gives: within the page of the sprite pointer table.
pub open spec fn sprite_table_address(d: Seq<u8>, k: int) -> int {
    0x240000 + le16(d, 0x24FFE0 + 2 * k)
}

/// The dictionary area of the ROM.
pub open spec fn dictionary_area(d: Seq<u8>) -> Seq<u8> {
    d.subrange(0x1EFA00, 0x1EFF00)
}

/// Whether every pointer table and the dictionary of a ROM can be read.
pub open spec fn snes_tables_ok(d: Seq<u8>) -> bool {
    &&& d.len() >= 0x1EFF00
    &&& dictionary_readable(dictionary_area(d), 0, 128, 0xFA00)
    &&& local_table_ok(d, 0x6FD00, 8, 0x6FDF0, false)
    &&& long_table_ok(d, 0x6FF20, 8, 0x6C7F7)
    &&& long_table_ok(d, 0x6FF80, 8, 0x6DA76)
    &&& long_table_ok(d, 0x6FE20, 42, 0x59A56)
    &&& long_table_ok(d, 0x6FF00, 6, 0x66A39)
    &&& long_table_ok(d, 0x6FF40, 6, 0x6D410)
    &&& long_table_ok(d, 0x6FFA0, 3, 0x6DD06)
    &&& long_table_ok(d, 0x6FFC0, 8, 0x629EC)
    &&& long_table_ok(d, 0x6FDF0, 16, 0x61E73)
    &&& long_table_ok(d, 0x6FEA0, 32, 0x3E000)
    &&& long_table_ok(d, 0x361E00, 202, 0x35EE02)
    &&& long_table_ok(d, 0x362220, 204, 0x3D8E64)
    &&& long_table_ok(d, 0x362100, 64, 0x2F7F41)
    &&& relative_table_ok(d, 0x3DF290, 64, 0x3DF310, 0x3DF9CC)
    &&& long_table_ok(d, 0x3621C0, 19, 0x2FB168)
    &&& local_table_ok(d, 0x250000, 512, 0x251A44, true)
    &&& local_table_ok(d, 0x24FFE0, 7, 0x24FFEE, false)
    &&& long_table_ok(d, sprite_table_address(d, 0), 248, 0x21DDB2)
    &&& long_table_ok(d, sprite_table_address(d, 1), 231, 0x23F8C0)
    &&& local_table_ok(d, sprite_table_address(d, 2), 194, 0x24A800, false)
    &&& local_table_ok(d, sprite_table_address(d, 3), 194, 0x24F000, false)
    &&& local_table_ok(d, sprite_table_address(d, 4), 253, 0x243000, false)
}

/// The SNES ROM with the entries of its pointer tables and its text dictionary.
pub struct FileSystemBackendSnes {
    pub data: Vec<u8>,
    pub text_decoder: TextDecoder,
    pub world_header_entries: Vec<Entry>,
    pub world_map_tile_entries: Vec<Entry>,
    pub world_map_props_entries: Vec<Entry>,
    pub world_tileset_entries: Vec<Entry>,
    pub world_tileset12_assembly_entries: Vec<Entry>,
    pub world_tileset3_assembly_entries: Vec<Entry>,
    pub world_music_entries: Vec<Entry>,
    pub world_exit_entries: Vec<Entry>,
    pub world_sprite_entries: Vec<Entry>,
    pub world_palette_entries: Vec<Entry>,
    pub scene_map_entries: Vec<Entry>,
    pub scene_tileset_entries: Vec<Entry>,
    pub scene_tileset12_assembly_entries: Vec<Entry>,
    pub scene_tileset12_animation_entries: Vec<Entry>,
    pub scene_tileset3_assembly_entries: Vec<Entry>,
    pub scene_exit_entries: Vec<Entry>,
    pub sprite_entries: Vec<Entry>,
    pub sprite_assembly_entries: Vec<Entry>,
    pub sprite_anim_frame_entries: Vec<Entry>,
    pub sprite_anim_duration_entries: Vec<Entry>,
    pub sprite_palette_entries: Vec<Entry>,
    pub sprite_anim_frame_data_entry: Entry,
    pub sprite_anim_duration_data_entry: Entry,
}

/// Whether a backend holds ROM `d` with its tables and dictionary read.
pub open spec fn backend_reads(d: Seq<u8>, b: FileSystemBackendSnes) -> bool {
    let dict = dictionary_area(d);
    &&& b.data@ == d
    &&& b.text_decoder.word_texts().len() == 128
    &&& forall|i: int| 0 <= i < 128 ==> b.text_decoder.word_texts()[i] == stored_word(dict, word_pointer(dict, 0, 0xFA00, i)).unwrap().0
    &&& local_entries(d, 0x6FD00, 8, 0x6FDF0, false, b.world_header_entries@)
    &&& long_entries(d, 0x6FF20, 8, 0x6C7F7, b.world_map_tile_entries@)
    &&& long_entries(d, 0x6FF80, 8, 0x6DA76, b.world_map_props_entries@)
    &&& long_entries(d, 0x6FE20, 42, 0x59A56, b.world_tileset_entries@)
    &&& long_entries(d, 0x6FF00, 6, 0x66A39, b.world_tileset12_assembly_entries@)
    &&& long_entries(d, 0x6FF40, 6, 0x6D410, b.world_tileset3_assembly_entries@)
    &&& long_entries(d, 0x6FFA0, 3, 0x6DD06, b.world_music_entries@)
    &&& long_entries(d, 0x6FFC0, 8, 0x629EC, b.world_exit_entries@)
    &&& long_entries(d, 0x6FDF0, 16, 0x61E73, b.world_sprite_entries@)
    &&& long_entries(d, 0x6FEA0, 32, 0x3E000, b.world_palette_entries@)
    &&& long_entries(d, 0x361E00, 202, 0x35EE02, b.scene_map_entries@)
    &&& long_entries(d, 0x362220, 204, 0x3D8E64, b.scene_tileset_entries@)
    &&& long_entries(d, 0x362100, 64, 0x2F7F41, b.scene_tileset12_assembly_entries@)
    &&& relative_entries(d, 0x3DF290, 64, 0x3DF310, 0x3DF9CC, b.scene_tileset12_animation_entries@)
    &&& long_entries(d, 0x3621C0, 19, 0x2FB168, b.scene_tileset3_assembly_entries@)
    &&& local_entries(d, 0x250000, 512, 0x251A44, true, b.scene_exit_entries@)
    &&& long_entries(d, sprite_table_address(d, 0), 248, 0x21DDB2, b.sprite_entries@)
    &&& long_entries(d, sprite_table_address(d, 1), 231, 0x23F8C0, b.sprite_assembly_entries@)
    &&& local_entries(d, sprite_table_address(d, 2), 194, 0x24A800, false, b.sprite_anim_frame_entries@)
    &&& local_entries(d, sprite_table_address(d, 3), 194, 0x24F000, false, b.sprite_anim_duration_entries@)
    &&& local_entries(d, sprite_table_address(d, 4), 253, 0x243000, false, b.sprite_palette_entries@)
    &&& b.sprite_anim_frame_data_entry == (Entry { address: sprite_table_address(d, 5) as usize, length: 30208 })
    &&& b.sprite_anim_duration_data_entry == (Entry { address: sprite_table_address(d, 6) as usize, length: 9312 })
}

/// The largest ROM accepted, 6 MiB.
pub const MAX_ROM_SIZE: usize = 0x600000;

impl FileSystemBackendSnes {
    /// Opens ROM data: finds the Chrono Trigger header, drops a copier header, reads the text
    /// dictionary and every pointer table.
    #[verifier::spinoff_prover]
    #[verifier::rlimit(50)]
    pub fn new(data: Vec<u8>) -> (r: Result<FileSystemBackendSnes, SnesRomError>)
        ensures
            r == Err::<FileSystemBackendSnes, SnesRomError>(SnesRomError::TooLarge) <==> data@.len() > MAX_ROM_SIZE,
            data@.len() <= MAX_ROM_SIZE ==> (r == Err::<FileSystemBackendSnes, SnesRomError>(SnesRomError::NotChronoTrigger) <==> (data@.len() < 0x101D5 || rom_header_at(data@) is None)),
            data@.len() <= MAX_ROM_SIZE && data@.len() >= 0x101D5 && rom_header_at(data@) is Some ==> (r == Err::<FileSystemBackendSnes, SnesRomError>(SnesRomError::BadData) <==> !snes_tables_ok(stripped_rom(data@))),
            r matches Ok(b) ==> backend_reads(stripped_rom(data@), b),
    {
        if data.len() > MAX_ROM_SIZE {
            return Err(SnesRomError::TooLarge);
        }
        if data.len() < 0x101D5 {
            return Err(SnesRomError::NotChronoTrigger);
        }
        let header = find_rom_header(&data);
        let data = match header {
            None => {
                return Err(SnesRomError::NotChronoTrigger);
            },
            Some(h) => {
                if h == 0x101C0 {
                    slice_bytes(&data, 0x200, data.len() - 0x200)
                } else {
                    data
                }
            },
        };
        let ghost d = data@;
        if data.len() < 0x1EFF00 {
            return Err(SnesRomError::BadData);
        }
        let dictionary = slice_bytes(&data, 0x1EFA00, 0x500);
        assert(dictionary@ =~= dictionary_area(d));
        if !check_dictionary(&dictionary, 0, 128, 0xFA00) {
            return Err(SnesRomError::BadData);
        }
        if !(check_local_table(&data, 0x6FD00, 8, 0x6FDF0, false) && check_long_table(&data, 0x6FF20, 8, 0x6C7F7)
            && check_long_table(&data, 0x6FF80, 8, 0x6DA76) && check_long_table(&data, 0x6FE20, 42, 0x59A56)
            && check_long_table(&data, 0x6FF00, 6, 0x66A39) && check_long_table(&data, 0x6FF40, 6, 0x6D410)
            && check_long_table(&data, 0x6FFA0, 3, 0x6DD06) && check_long_table(&data, 0x6FFC0, 8, 0x629EC)
            && check_long_table(&data, 0x6FDF0, 16, 0x61E73) && check_long_table(&data, 0x6FEA0, 32, 0x3E000)
            && check_long_table(&data, 0x361E00, 202, 0x35EE02) && check_long_table(&data, 0x362220, 204, 0x3D8E64)
            && check_long_table(&data, 0x362100, 64, 0x2F7F41) && check_relative_table(&data, 0x3DF290, 64, 0x3DF310, 0x3DF9CC)
            && check_long_table(&data, 0x3621C0, 19, 0x2FB168) && check_local_table(&data, 0x250000, 512, 0x251A44, true)
            && check_local_table(&data, 0x24FFE0, 7, 0x24FFEE, false)) {
            return Err(SnesRomError::BadData);
        }
        let sprite_pointer_entries = get_local_entries(&data, 0x24FFE0, 7, 0x24FFEE, false);
        let sprite_address_0 = sprite_pointer_entries[0].address;
        let sprite_address_1 = sprite_pointer_entries[1].address;
        let sprite_address_2 = sprite_pointer_entries[2].address;
        let sprite_address_3 = sprite_pointer_entries[3].address;
        let sprite_address_4 = sprite_pointer_entries[4].address;
        assert(0x24FFE0usize & 0xFF0000 == 0x240000) by (bit_vector);
        if !(check_long_table(&data, sprite_address_0, 248, 0x21DDB2) && check_long_table(&data, sprite_address_1, 231, 0x23F8C0)
            && check_local_table(&data, sprite_address_2, 194, 0x24A800, false)
            && check_local_table(&data, sprite_address_3, 194, 0x24F000, false)
            && check_local_table(&data, sprite_address_4, 253, 0x243000, false)) {
            return Err(SnesRomError::BadData);
        }
        let mut dictionary_reader = ByteReader::new(dictionary);
        let text_decoder = TextDecoder::from_cursor(&mut dictionary_reader, 128, 0xFA00);
        let world_header_entries = get_local_entries(&data, 0x6FD00, 8, 0x6FDF0, false);
        let world_map_tile_entries = get_entries(&data, 0x6FF20, 8, 0x6C7F7);
        let world_map_props_entries = get_entries(&data, 0x6FF80, 8, 0x6DA76);
        let world_tileset_entries = get_entries(&data, 0x6FE20, 42, 0x59A56);
        let world_tileset12_assembly_entries = get_entries(&data, 0x6FF00, 6, 0x66A39);
        let world_tileset3_assembly_entries = get_entries(&data, 0x6FF40, 6, 0x6D410);
        let world_music_entries = get_entries(&data, 0x6FFA0, 3, 0x6DD06);
        let world_exit_entries = get_entries(&data, 0x6FFC0, 8, 0x629EC);
        let world_sprite_entries = get_entries(&data, 0x6FDF0, 16, 0x61E73);
        let world_palette_entries = get_entries(&data, 0x6FEA0, 32, 0x3E000);
        let scene_map_entries = get_entries(&data, 0x361E00, 202, 0x35EE02);
        let scene_tileset_entries = get_entries(&data, 0x362220, 204, 0x3D8E64);
        let scene_tileset12_assembly_entries = get_entries(&data, 0x362100, 64, 0x2F7F41);
        let scene_tileset12_animation_entries = get_relative_entries(&data, 0x3DF290, 64, 0x3DF310, 0x3DF9CC);
        let scene_tileset3_assembly_entries = get_entries(&data, 0x3621C0, 19, 0x2FB168);
        let scene_exit_entries = get_local_entries(&data, 0x250000, 512, 0x251A44, true);
        let sprite_entries = get_entries(&data, sprite_address_0, 248, 0x21DDB2);
        let sprite_assembly_entries = get_entries(&data, sprite_address_1, 231, 0x23F8C0);
        let sprite_anim_frame_entries = get_local_entries(&data, sprite_address_2, 194, 0x24A800, false);
        let sprite_anim_duration_entries = get_local_entries(&data, sprite_address_3, 194, 0x24F000, false);
        let sprite_palette_entries = get_local_entries(&data, sprite_address_4, 253, 0x243000, false);
        let sprite_anim_frame_data_entry = Entry { address: sprite_pointer_entries[5].address, length: 30208 };
        let sprite_anim_duration_data_entry = Entry { address: sprite_pointer_entries[6].address, length: 9312 };
        Ok(FileSystemBackendSnes {
            data,
            text_decoder,
            world_header_entries,
            world_map_tile_entries,
            world_map_props_entries,
            world_tileset_entries,
            world_tileset12_assembly_entries,
            world_tileset3_assembly_entries,
            world_music_entries,
            world_exit_entries,
            world_sprite_entries,
            world_palette_entries,
            scene_map_entries,
            scene_tileset_entries,
            scene_tileset12_assembly_entries,
            scene_tileset12_animation_entries,
            scene_tileset3_assembly_entries,
            scene_exit_entries,
            sprite_entries,
            sprite_assembly_entries,
            sprite_anim_frame_entries,
            sprite_anim_duration_entries,
            sprite_palette_entries,
            sprite_anim_frame_data_entry,
            sprite_anim_duration_data_entry,
        })
    }
}


proof fn lemma_palette_sets_len(d: Seq<u8>, set_size: nat, set_count: nat, set_start: nat, set_pad: nat)
    ensures
        palette_sets(d, set_count, set_size, set_start, set_pad).len() == set_count * (set_start + set_size + set_pad),
    decreases set_count,
{
    if set_count == 0 {
        assert(set_count * (set_start + set_size + set_pad) == 0) by (nonlinear_arith)
            requires
                set_count == 0,
        ;
    } else {
        lemma_palette_sets_len(d, set_size, (set_count - 1) as nat, set_start, set_pad);
        assert(set_count * (set_start + set_size + set_pad) == (set_count - 1) * (set_start + set_size + set_pad) + (set_start + set_size + set_pad)) by (nonlinear_arith)
            requires
                set_count > 0,
        ;
    }
}

/// An SNES palette has `skip` colors, then `set_start + set_size + set_pad` colors per set.
pub proof fn law_palette_length(d: Seq<u8>, skip: nat, set_size: nat, set_count: nat, set_start: nat, set_pad: nat)
    ensures
        (blacks(skip) + palette_sets(d, set_count, set_size, set_start, set_pad)).len() == skip + set_count * (set_start + set_size + set_pad),
{
    lemma_palette_sets_len(d, set_size, set_count, set_start, set_pad);
}


/// Where the header of a sprite is in the ROM, and how long it is: five bytes per regular
/// sprite, ten per enemy sprite from index 256 on.
pub fn sprite_header_location(sprite_index: usize) -> (location: (usize, usize))
    requires
        sprite_index <= 0x10000,
    ensures
        location == (if sprite_index < 0x100 {
            ((0x24F000 + sprite_index * 5) as usize, 5usize)
        } else {
            ((0x24F600 + (sprite_index - 256) * 10) as usize, 10usize)
        }),
{
    if sprite_index < 0x100 {
        (0x24F000 + sprite_index * 5, 5)
    } else {
        (0x24F600 + (sprite_index - 256) * 10, 10)
    }
}

/// The treasure pointers of the SNES ROM: 513 little-endian words made relative to the treasure
/// data after them; `None` where a word points before it.
pub fn snes_treasure_pointers(pointer_data: &Vec<u8>) -> (pointers: Option<Vec<u32>>)
    requires
        pointer_data@.len() >= 0x402,
    ensures
        match pointers {
            Some(p) => p@.len() == 513 && forall|i: int| 0 <= i < 513 ==> #[trigger] p@[i] == le16(pointer_data@, 2 * i) - 0xF402,
            None => exists|i: int| 0 <= i < 513 && #[trigger] le16(pointer_data@, 2 * i) < 0xF402,
        },
{
    let mut reader = ByteReader::new(pointer_data.clone());
    let mut pointers: Vec<u32> = Vec::with_capacity(513);
    let mut i: usize = 0;
    while i < 513
        invariant
            reader.data@ == pointer_data@,
            pointer_data@.len() >= 0x402,
            i <= 513,
            reader.pos == 2 * i,
            pointers@.len() == i,
            forall|k: int| 0 <= k < i ==> #[trigger] pointers@[k] == le16(pointer_data@, 2 * k) - 0xF402,
        decreases 513 - i,
    {
        let v = reader.read_u16_le() as u32;
        if v < 0xF402 {
            return None;
        }
        pointers.push(v - 0xF402);
        i = i + 1;
    }
    Some(pointers)
}

/// The 64 KiB bank of the ROM that holds an address.
pub open spec fn bank_of(d: Seq<u8>, address: usize) -> Seq<u8> {
    d.subrange((address & 0xFF0000) as int, (address & 0xFF0000) + 0x10000)
}

/// Whether each pointer of a table of `count` 16 bit pointers at `start` leads to a dialogue
/// string in the table's bank.
pub open spec fn string_list_readable(b: FileSystemBackendSnes, start: usize, count: usize) -> bool {
    &&& (start & 0xFF0000) + 0x10000 <= b.data@.len()
    &&& start + 2 * count <= b.data@.len()
    &&& forall|i: int| 0 <= i < count ==> huffman_text(b.text_decoder.word_texts(), bank_of(b.data@, start), #[trigger] le16(b.data@, start + 2 * i)) is Some
}

/// The string that pointer `i` of a table at `start` leads to.
pub open spec fn listed_string(b: FileSystemBackendSnes, start: usize, i: int) -> Seq<char> {
    huffman_text(b.text_decoder.word_texts(), bank_of(b.data@, start), le16(b.data@, start + 2 * i)).unwrap().0
}

/// Where the world names' pointer table is.
pub const WORLD_NAMES_POINTERS: usize = 0x6F4D4;

/// Where the item names are, and how many bytes they take.
pub const ITEM_NAMES_ADDRESS: usize = 0xC0B5E;
pub const ITEM_NAMES_LENGTH: usize = 0xA71;

impl FileSystemBackendSnes {
    /// The dialogue strings that a table of 16 bit pointers leads to, each pointer relative to
    /// the start of the 64 KiB bank that holds the table.
    pub fn read_string_list(&self, pointers_start: usize, count: usize) -> (strings: Vec<String>)
        requires
            string_list_readable(*self, pointers_start, count),
        ensures
            strings@.len() == count,
            forall|i: int| 0 <= i < count ==> (#[trigger] strings@[i])@ == listed_string(*self, pointers_start, i),
    {
        let segment = pointers_start & 0xFF0000;
        let segment_data = slice_bytes(&self.data, segment, 0x10000);
        let ghost bank = segment_data@;
        assert(bank == bank_of(self.data@, pointers_start));
        let mut reader = ByteReader::new(segment_data);
        assert forall|i: int| 0 <= i < count implies 0 + #[trigger] le16(self.data@, pointers_start + 2 * i) <= 0x10000 by {
            let lo = self.data@[pointers_start + 2 * i];
            let hi = self.data@[pointers_start + 2 * i + 1];
            assert(lo < 256 && hi < 256);
        }
        let entries = get_relative_entries(&self.data, pointers_start, count, 0, 0x10000);
        let mut strings: Vec<String> = Vec::with_capacity(count);
        let mut i: usize = 0;
        while i < count
            invariant
                i <= count,
                entries@.len() == count,
                reader.data@ == bank,
                bank == bank_of(self.data@, pointers_start),
                string_list_readable(*self, pointers_start, count),
                forall|k: int| 0 <= k < count ==> (#[trigger] entries@[k]).address == 0 + le16(self.data@, pointers_start + 2 * k),
                strings@.len() == i,
                forall|k: int| 0 <= k < i ==> (#[trigger] strings@[k])@ == listed_string(*self, pointers_start, k),
            decreases count - i,
        {
            let address = entries[i].address;
            assert(address == le16(self.data@, pointers_start + 2 * i));
            reader.seek(address);
            let text = self.text_decoder.decode_huffman_string(&mut reader);
            strings.push(text);
            i = i + 1;
        }
        strings
    }

    /// The stored world names, in their stored order.
    pub fn get_world_names(&self) -> (names: Vec<String>)
        requires
            string_list_readable(*self, WORLD_NAMES_POINTERS, 6),
        ensures
            names@.len() == 6,
            forall|i: int| 0 <= i < 6 ==> (#[trigger] names@[i])@ == listed_string(*self, WORLD_NAMES_POINTERS, i),
    {
        self.read_string_list(WORLD_NAMES_POINTERS, 6)
    }

    /// The item names: 11 bytes per name in the menu font, trailing spaces dropped.
    pub fn get_item_names(&self) -> (names: Vec<String>)
        requires
            ITEM_NAMES_ADDRESS + ITEM_NAMES_LENGTH <= self.data@.len(),
        ensures
            ({
                let items = self.data@.subrange(ITEM_NAMES_ADDRESS as int, ITEM_NAMES_ADDRESS + ITEM_NAMES_LENGTH);
                &&& names@.len() == ITEM_NAMES_LENGTH / 11
                &&& forall|i: int| 0 <= i < names@.len() ==> (#[trigger] names@[i])@ == trim_end(font8_concat(items.subrange(11 * i, 11 * i + 11)))
            }),
    {
        let items = slice_bytes(&self.data, ITEM_NAMES_ADDRESS, ITEM_NAMES_LENGTH);
        read_item_names(&self.text_decoder, &items)
    }

    /// A sprite's palette: twelve colors after four unstored ones, none where its pointer is 0.
    pub fn get_sprite_palette(&self, sprite_index: usize) -> (palette: Option<Palette>)
        requires
            sprite_index < self.sprite_palette_entries@.len(),
            self.sprite_palette_entries@[sprite_index as int].address != 0 ==> self.sprite_palette_entries@[sprite_index as int].address + 24 <= self.data@.len(),
        ensures
            ({
                let a = self.sprite_palette_entries@[sprite_index as int].address;
                match palette {
                    None => a == 0,
                    Some(p) => a != 0 && p.colors@ == blacks(0) + palette_sets(self.data@.subrange(a as int, a + 24), 1, 12, 1, 3),
                }
            }),
    {
        let address = self.sprite_palette_entries[sprite_index].address;
        if address == 0 {
            return None;
        }
        let data = slice_bytes(&self.data, address, 24);
        Some(read_palette(&data, 0, 12, 1, 1, 3))
    }

    /// The header bytes of a sprite.
    pub fn get_sprite_header_data(&self, sprite_index: usize) -> (data: Vec<u8>)
        requires
            sprite_index <= 0x10000,
            ({
                let (start, len) = if sprite_index < 0x100 {
                    (0x24F000 + sprite_index * 5, 5int)
                } else {
                    (0x24F600 + (sprite_index - 256) * 10, 10int)
                };
                start + len <= self.data@.len()
            }),
        ensures
            data@ == if sprite_index < 0x100 {
                self.data@.subrange(0x24F000 + sprite_index * 5, 0x24F000 + sprite_index * 5 + 5)
            } else {
                self.data@.subrange(0x24F600 + (sprite_index - 256) * 10, 0x24F600 + (sprite_index - 256) * 10 + 10)
            },
    {
        let (start, len) = sprite_header_location(sprite_index);
        slice_bytes(&self.data, start, len)
    }

    /// The sprite animation data: the frame pointers, relative to the first, and the frame
    /// data; the duration pointers, likewise, and the duration data.
    pub fn get_sprite_animation_data(&self) -> (result: (Vec<usize>, Vec<u8>, Vec<usize>, Vec<u8>))
        requires
            self.sprite_anim_frame_entries@.len() > 0,
            self.sprite_anim_duration_entries@.len() > 0,
            forall|i: int| 0 <= i < self.sprite_anim_frame_entries@.len() ==> self.sprite_anim_frame_entries@[0].address <= #[trigger] self.sprite_anim_frame_entries@[i].address,
            forall|i: int| 0 <= i < self.sprite_anim_duration_entries@.len() ==> self.sprite_anim_duration_entries@[0].address <= #[trigger] self.sprite_anim_duration_entries@[i].address,
            self.sprite_anim_frame_data_entry.address + self.sprite_anim_frame_data_entry.length <= self.data@.len(),
            self.sprite_anim_duration_data_entry.address + self.sprite_anim_duration_data_entry.length <= self.data@.len(),
        ensures
            ({
                let (frame_ptrs, frame_data, duration_ptrs, duration_data) = result;
                let fe = self.sprite_anim_frame_entries@;
                let de = self.sprite_anim_duration_entries@;
                let f = self.sprite_anim_frame_data_entry;
                let d = self.sprite_anim_duration_data_entry;
                &&& frame_ptrs@ == Seq::new(fe.len(), |i: int| (fe[i].address - fe[0].address) as usize)
                &&& duration_ptrs@ == Seq::new(de.len(), |i: int| (de[i].address - de[0].address) as usize)
                &&& frame_data@ == self.data@.subrange(f.address as int, f.address + f.length)
                &&& duration_data@ == self.data@.subrange(d.address as int, d.address + d.length)
            }),
    {
        let frame_ptrs = relative_addresses(&self.sprite_anim_frame_entries);
        let duration_ptrs = relative_addresses(&self.sprite_anim_duration_entries);
        let frame_data = slice_bytes(&self.data, self.sprite_anim_frame_data_entry.address, self.sprite_anim_frame_data_entry.length);
        let duration_data = slice_bytes(&self.data, self.sprite_anim_duration_data_entry.address, self.sprite_anim_duration_data_entry.length);
        (frame_ptrs, frame_data, duration_ptrs, duration_data)
    }
}

/// The addresses of entries made relative to the first.
fn relative_addresses(entries: &Vec<Entry>) -> (pointers: Vec<usize>)
    requires
        entries@.len() > 0,
        forall|i: int| 0 <= i < entries@.len() ==> entries@[0].address <= #[trigger] entries@[i].address,
    ensures
        pointers@ == Seq::new(entries@.len(), |i: int| (entries@[i].address - entries@[0].address) as usize),
{
    let offset = entries[0].address;
    let mut pointers: Vec<usize> = Vec::with_capacity(entries.len());
    let mut i: usize = 0;
    while i < entries.len()
        invariant
            i <= entries@.len(),
            offset == entries@[0].address,
            forall|k: int| 0 <= k < entries@.len() ==> entries@[0].address <= #[trigger] entries@[k].address,
            pointers@ == Seq::new(i as nat, |k: int| (entries@[k].address - entries@[0].address) as usize),
        decreases entries@.len() - i,
    {
        pointers.push(entries[i].address - offset);
        i = i + 1;
        assert(pointers@ =~= Seq::new(i as nat, |k: int| (entries@[k].address - entries@[0].address) as usize));
    }
    pointers
}

} // verus!
