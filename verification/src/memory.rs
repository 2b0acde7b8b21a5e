//! Emulated game memory: the regions that scripts read and write, and the data sources and
//! destinations of script operations.
use vstd::prelude::*;
use crate::fmt::{digits, push_decimal, push_hex, push_signed_decimal, signed_decimal, zero_padded};
use crate::reader::le16;
use crate::scene::ops::{ActorRef, InputBinding};
use crate::scene::actor::{class_index, SceneActorClass};
use std::collections::HashMap;

verus! {

/// The bytes after writing a 16 bit value in little-endian order at `a`.
pub open spec fn put16(s: Seq<u8>, a: int, v: int) -> Seq<u8> {
    s.update(a, (v % 256) as u8).update(a + 1, (v / 256 % 256) as u8)
}

/// The bytes after writing the low 24 bits of a value in little-endian order at `a`.
pub open spec fn put24(s: Seq<u8>, a: int, v: int) -> Seq<u8> {
    put16(s, a, v % 65536).update(a + 2, (v / 65536 % 256) as u8)
}

/// The bytes after writing a 32 bit value in little-endian order at `a`.
pub open spec fn put32(s: Seq<u8>, a: int, v: int) -> Seq<u8> {
    put24(s, a, v).update(a + 3, (v / 16777216 % 256) as u8)
}

/// The unsigned value of three bytes in little-endian order.
pub open spec fn le24(s: Seq<u8>, i: int) -> int {
    s[i] + 256 * s[i + 1] + 65536 * s[i + 2]
}

/// The unsigned value of four bytes in little-endian order.
pub open spec fn le32(s: Seq<u8>, i: int) -> int {
    le24(s, i) + 16777216 * s[i + 3]
}

/// A block of byte-addressed memory.
#[derive(Clone)]
pub struct MemoryRegion {
    data: Vec<u8>,
}

impl View for MemoryRegion {
    type V = Seq<u8>;

    closed spec fn view(&self) -> Seq<u8> {
        self.data@
    }
}

impl MemoryRegion {
    /// A region of `size` zero bytes.
    pub fn new(size: usize) -> (r: MemoryRegion)
        ensures
            r@ == Seq::new(size as nat, |i: int| 0u8),
    {
        let r = MemoryRegion { data: vec![0; size] };
        assert(r@ =~= Seq::new(size as nat, |i: int| 0u8));
        r
    }

    /// Sets every byte to zero.
    pub fn clear(&mut self)
        ensures
            final(self)@ == Seq::new(old(self)@.len(), |i: int| 0u8),
    {
        let len = self.data.len();
        let mut i: usize = 0;
        while i < len
            invariant
                i <= len,
                self.data@.len() == len,
                len == old(self)@.len(),
                forall|j: int| 0 <= j < i ==> self.data@[j] == 0u8,
            decreases len - i,
        {
            self.data.set(i, 0);
            i = i + 1;
        }
        assert(self@ =~= Seq::new(old(self)@.len(), |i: int| 0u8));
    }

    pub fn put_u8(&mut self, address: usize, value: u8)
        requires
            address < old(self)@.len(),
        ensures
            final(self)@ == old(self)@.update(address as int, value),
    {
        self.data.set(address, value);
    }

    /// Stores a signed byte in two's complement.
    pub fn put_i8(&mut self, address: usize, value: i8)
        requires
            address < old(self)@.len(),
        ensures
            final(self)@ == old(self)@.update(address as int, value as u8),
    {
        self.data.set(address, value as u8);
    }

    pub fn get_u8(&self, address: usize) -> (v: u8)
        requires
            address < self@.len(),
        ensures
            v == self@[address as int],
    {
        self.data[address]
    }

    /// Reads a byte as a signed number in two's complement.
    pub fn get_i8(&self, address: usize) -> (v: i8)
        requires
            address < self@.len(),
        ensures
            v == self@[address as int] as i8,
    {
        self.data[address] as i8
    }

    /// Stores a 16 bit value in little-endian order.
    pub fn put_u16(&mut self, address: usize, value: u16)
        requires
            address + 2 <= old(self)@.len(),
        ensures
            final(self)@ == put16(old(self)@, address as int, value as int),
    {
        let _n = self.data.len();
        let lo = (value & 0xFF) as u8;
        let hi = ((value >> 8) & 0xFF) as u8;
        assert((value & 0xFF) as u8 == value % 256 && ((value >> 8) & 0xFF) as u8 == value / 256 % 256) by (bit_vector);
        self.data.set(address + 0, lo);
        self.data.set(address + 1, hi);
    }

    /// Reads a 16 bit value in little-endian order.
    pub fn get_u16(&self, address: usize) -> (v: u16)
        requires
            address + 2 <= self@.len(),
        ensures
            v == le16(self@, address as int),
    {
        let _n = self.data.len();
        let a = self.data[address + 0];
        let b = self.data[address + 1];
        assert(a as u16 | (b as u16) << 8 == a + 256 * b) by (bit_vector);
        a as u16 | (b as u16) << 8
    }

    /// Stores the low 24 bits of a value in little-endian order.
    pub fn put_u24(&mut self, address: usize, value: u32)
        requires
            address + 3 <= old(self)@.len(),
        ensures
            final(self)@ == put24(old(self)@, address as int, value as int),
    {
        let _n = self.data.len();
        assert((value & 0xFF) as u8 == (value % 65536) % 256 && ((value >> 8) & 0xFF) as u8 == (value % 65536) / 256 % 256
            && ((value >> 16) & 0xFF) as u8 == value / 65536 % 256) by (bit_vector);
        self.data.set(address + 0, (value & 0xFF) as u8);
        self.data.set(address + 1, ((value >> 8) & 0xFF) as u8);
        self.data.set(address + 2, ((value >> 16) & 0xFF) as u8);
    }

    /// Reads a 24 bit value in little-endian order.
    pub fn get_u24(&self, address: usize) -> (v: u32)
        requires
            address + 3 <= self@.len(),
        ensures
            v == le24(self@, address as int),
    {
        let _n = self.data.len();
        let a = self.data[address + 0];
        let b = self.data[address + 1];
        let c = self.data[address + 2];
        assert(a as u32 | (b as u32) << 8 | (c as u32) << 16 == a + 256 * b + 65536 * c)
            by (bit_vector);
        a as u32 | (b as u32) << 8 | (c as u32) << 16
    }

    /// Stores a 32 bit value in little-endian order.
    pub fn put_u32(&mut self, address: usize, value: u32)
        requires
            address + 4 <= old(self)@.len(),
        ensures
            final(self)@ == put32(old(self)@, address as int, value as int),
    {
        let _n = self.data.len();
        assert((value & 0xFF) as u8 == (value % 65536) % 256 && ((value >> 8) & 0xFF) as u8 == (value % 65536) / 256 % 256
            && ((value >> 16) & 0xFF) as u8 == value / 65536 % 256 && ((value >> 24) & 0xFF) as u8 == value / 16777216 % 256)
            by (bit_vector);
        self.data.set(address + 0, (value & 0xFF) as u8);
        self.data.set(address + 1, ((value >> 8) & 0xFF) as u8);
        self.data.set(address + 2, ((value >> 16) & 0xFF) as u8);
        self.data.set(address + 3, ((value >> 24) & 0xFF) as u8);
    }

    /// Reads a 32 bit value in little-endian order.
    pub fn get_u32(&self, address: usize) -> (v: u32)
        requires
            address + 4 <= self@.len(),
        ensures
            v == le32(self@, address as int),
    {
        let _n = self.data.len();
        let a = self.data[address + 0];
        let b = self.data[address + 1];
        let c = self.data[address + 2];
        let d = self.data[address + 3];
        assert(a as u32 | (b as u32) << 8 | (c as u32) << 16 | (d as u32) << 24 == a + 256 * b
            + 65536 * c + 16777216 * d) by (bit_vector);
        a as u32 | (b as u32) << 8 | (c as u32) << 16 | (d as u32) << 24
    }
}

/// A 16 bit write followed by a 16 bit read at the same place gives back the value, and
/// leaves every other byte as it was.
pub proof fn law_region_u16_roundtrip(s: Seq<u8>, a: int, v: u16)
    requires
        0 <= a,
        a + 2 <= s.len(),
    ensures
        le16(put16(s, a, v as int), a) == v,
        put16(s, a, v as int).len() == s.len(),
        forall|i: int| 0 <= i < s.len() && i != a && i != a + 1 ==> put16(s, a, v as int)[i] == s[i],
{
}

/// A 24 bit write followed by a 24 bit read at the same place gives back the value.
pub proof fn law_region_u24_roundtrip(s: Seq<u8>, a: int, v: u32)
    requires
        0 <= a,
        a + 3 <= s.len(),
        v < 0x100_0000,
    ensures
        le24(put24(s, a, v as int), a) == v,
{
}

/// A 32 bit write followed by a 32 bit read at the same place gives back the value.
pub proof fn law_region_u32_roundtrip(s: Seq<u8>, a: int, v: u32)
    requires
        0 <= a,
        a + 4 <= s.len(),
    ensures
        le32(put32(s, a, v as int), a) == v,
{
}

} // verus!

verus! {

/// Whether an address falls in one of the four memory regions.
pub open spec fn mapped(a: int) -> bool {
    (0x7E0000 <= a < 0x7F0000) || (0x7F0000 <= a < 0x7F0200) || (0x7F0200 <= a < 0x7F0400) || (
    0x9F0200 <= a < 0x9F0400)
}

/// The first address after the region that holds `a`.
pub open spec fn region_end(a: int) -> int {
    if 0x7E0000 <= a < 0x7F0000 {
        0x7F0000
    } else if 0x7F0000 <= a < 0x7F0200 {
        0x7F0200
    } else if 0x7F0200 <= a < 0x7F0400 {
        0x7F0400
    } else {
        0x9F0400
    }
}

/// Game memory: system RAM, global and local script storage, and extended storage.
pub struct Memory {
    pub system: MemoryRegion,
    pub global: MemoryRegion,
    pub local: MemoryRegion,
    pub extended: MemoryRegion,
}

impl Memory {
    /// The regions have their fixed sizes.
    pub open spec fn wf(&self) -> bool {
        &&& self.system@.len() == 0x10000
        &&& self.global@.len() == 0x200
        &&& self.local@.len() == 0x200
        &&& self.extended@.len() == 0x200
    }

    /// The byte at an address; addresses outside the regions read as zero.
    pub open spec fn byte(&self, a: int) -> u8 {
        if 0x7E0000 <= a < 0x7F0000 {
            self.system@[a - 0x7E0000]
        } else if 0x7F0000 <= a < 0x7F0200 {
            self.global@[a - 0x7F0000]
        } else if 0x7F0200 <= a < 0x7F0400 {
            self.local@[a - 0x7F0200]
        } else if 0x9F0200 <= a < 0x9F0400 {
            self.extended@[a - 0x9F0200]
        } else {
            0
        }
    }

    /// The bytes from `a` on.
    pub open spec fn bytes(&self, a: int, count: int) -> Seq<u8> {
        Seq::new(count as nat, |i: int| self.byte(a + i))
    }

    /// All regions zeroed.
    pub fn new() -> (m: Memory)
        ensures
            m.wf(),
            forall|a: int| #[trigger] m.byte(a) == 0,
    {
        Memory {
            system: MemoryRegion::new(0x10000),
            global: MemoryRegion::new(0x200),
            local: MemoryRegion::new(0x200),
            extended: MemoryRegion::new(0x200),
        }
    }

    /// Zeroes the local script storage.
    pub fn clear_local(&mut self)
        requires
            old(self).wf(),
        ensures
            final(self).wf(),
            forall|a: int|
                #[trigger] final(self).byte(a) == if 0x7F0200 <= a < 0x7F0400 {
                    0
                } else {
                    old(self).byte(a)
                },
    {
        self.local.clear()
    }

    /// Writes a byte; writes outside the regions are ignored.
    pub fn put_u8(&mut self, address: usize, value: u8)
        requires
            old(self).wf(),
        ensures
            final(self).wf(),
            forall|a: int|
                #[trigger] final(self).byte(a) == if a == address && mapped(a) {
                    value
                } else {
                    old(self).byte(a)
                },
    {
        if address >= 0x7E0000 && address < 0x7F0000 {
            self.system.put_u8(address - 0x7E0000, value);
        } else if address >= 0x7F0000 && address < 0x7F0200 {
            self.global.put_u8(address - 0x7F0000, value);
        } else if address >= 0x7F0200 && address < 0x7F0400 {
            self.local.put_u8(address - 0x7F0200, value);
        } else if address >= 0x9F0200 && address < 0x9F0400 {
            self.extended.put_u8(address - 0x9F0200, value);
        }
    }

    /// Writes a byte from a scene script. Writes to the battle music, screen enable flags, menu
    /// and pause switches and current music are intercepted and have no effect; others go to
    /// memory.
    pub fn put_scene_u8(&mut self, address: usize, value: u8)
        requires
            old(self).wf(),
        ensures
            final(self).wf(),
            forall|a: int|
                #[trigger] final(self).byte(a) == if a == address && mapped(a)
                    && !scene_intercepted(address) {
                    value
                } else {
                    old(self).byte(a)
                },
    {
        if address == 0x0001FA || address == 0x7E0BD7 || address == 0x7E0BD8 || address == 0x7F1520
            || address == 0x7F1521 || address == 0x110 || address == 0x111 || address == 0x7E29AE {
            // Battle music, screen enable flags, menu, pause and music changes are not emulated.
        } else {
            self.put_u8(address, value);
        }
    }

    /// Reads a byte; addresses outside the regions read as zero.
    pub fn get_u8(&self, address: usize) -> (v: u8)
        requires
            self.wf(),
        ensures
            v == self.byte(address as int),
    {
        if address >= 0x7E0000 && address < 0x7F0000 {
            return self.system.get_u8(address - 0x7E0000);
        } else if address >= 0x7F0000 && address < 0x7F0200 {
            return self.global.get_u8(address - 0x7F0000);
        } else if address >= 0x7F0200 && address < 0x7F0400 {
            return self.local.get_u8(address - 0x7F0200);
        } else if address >= 0x9F0200 && address < 0x9F0400 {
            return self.extended.get_u8(address - 0x9F0200);
        }
        0
    }

    /// Writes a 16 bit value in little-endian order; writes outside the regions are ignored.
    pub fn put_u16(&mut self, address: usize, value: u16)
        requires
            old(self).wf(),
            mapped(address as int) ==> address + 2 <= region_end(address as int),
        ensures
            final(self).wf(),
            forall|a: int|
                #[trigger] final(self).byte(a) == if mapped(address as int) && a == address {
                    (value % 256) as u8
                } else if mapped(address as int) && a == address + 1 {
                    (value / 256) as u8
                } else {
                    old(self).byte(a)
                },
    {
        if address >= 0x7E0000 && address < 0x7F0000 {
            self.system.put_u16(address - 0x7E0000, value);
        } else if address >= 0x7F0000 && address < 0x7F0200 {
            self.global.put_u16(address - 0x7F0000, value);
        } else if address >= 0x7F0200 && address < 0x7F0400 {
            self.local.put_u16(address - 0x7F0200, value);
        } else if address >= 0x9F0200 && address < 0x9F0400 {
            self.extended.put_u16(address - 0x9F0200, value);
        }
    }

    /// Reads a 16 bit value in little-endian order; addresses outside the regions read as zero.
    pub fn get_u16(&self, address: usize) -> (v: u16)
        requires
            self.wf(),
            mapped(address as int) ==> address + 2 <= region_end(address as int),
        ensures
            v == if mapped(address as int) {
                self.byte(address as int) + 256 * self.byte(address + 1)
            } else {
                0
            },
    {
        if address >= 0x7E0000 && address < 0x7F0000 {
            return self.system.get_u16(address - 0x7E0000);
        } else if address >= 0x7F0000 && address < 0x7F0200 {
            return self.global.get_u16(address - 0x7F0000);
        } else if address >= 0x7F0200 && address < 0x7F0400 {
            return self.local.get_u16(address - 0x7F0200);
        } else if address >= 0x9F0200 && address < 0x9F0400 {
            return self.extended.get_u16(address - 0x9F0200);
        }
        0
    }

    /// Writes bytes one by one from `address` on.
    pub fn put_bytes(&mut self, address: usize, bytes: &[u8])
        requires
            old(self).wf(),
            address + bytes@.len() <= usize::MAX,
        ensures
            final(self).wf(),
            forall|a: int|
                #[trigger] final(self).byte(a) == if address <= a < address + bytes@.len()
                    && mapped(a) {
                    bytes@[a - address]
                } else {
                    old(self).byte(a)
                },
    {
        let mut index: usize = 0;
        while index < bytes.len()
            invariant
                self.wf(),
                index <= bytes@.len(),
                address + bytes@.len() <= usize::MAX,
                forall|a: int|
                    #[trigger] self.byte(a) == if address <= a < address + index && mapped(a) {
                        bytes@[a - address]
                    } else {
                        old(self).byte(a)
                    },
            decreases bytes@.len() - index,
        {
            self.put_u8(address + index, bytes[index]);
            index = index + 1;
        }
    }

    /// Reads `count` bytes from `address` on.
    pub fn get_bytes(&mut self, address: usize, count: usize) -> (out: Vec<u8>)
        requires
            old(self).wf(),
            address + count <= usize::MAX,
        ensures
            *final(self) == *old(self),
            out@ == old(self).bytes(address as int, count as int),
    {
        let mut out: Vec<u8> = Vec::with_capacity(count);
        let mut index: usize = 0;
        while index < count
            invariant
                self.wf(),
                *self == *old(self),
                index <= count,
                address + count <= usize::MAX,
                out@ == self.bytes(address as int, index as int),
            decreases count - index,
        {
            let v = self.get_u8(address + index);
            out.push(v);
            index = index + 1;
            assert(out@ =~= self.bytes(address as int, index as int));
        }
        out
    }
}

/// What a scene read of memory gives: at 0x7E1100 on, two addresses per actor, the actor's
/// class number ANDed with 0x80 where it is dead and with 0 otherwise, which leaves 0 for every
/// class; at 0x7E2980 to 0x7E2982 the low byte of the actor index of each party member, or 0
/// for a party slot without one; elsewhere the memory.
pub open spec fn scene_byte(m: Memory, address: usize, actors: Seq<(SceneActorClass, bool)>, player_actors: Map<usize, usize>) -> u8 {
    if 0x7E1100 <= address < 0x7E1180 {
        let (class, dead) = actors[(address - 0x7E1100) / 2];
        class_index(class) & (if dead { 0x80u8 } else { 0u8 })
    } else if 0x7E2980 <= address <= 0x7E2982 {
        let slot = (address - 0x7E2980) as usize;
        if player_actors.contains_key(slot) { player_actors[slot] as u8 } else { 0 }
    } else {
        m.byte(address as int)
    }
}

impl Memory {
    /// Reads a byte as a scene script sees it: actor classes and the party's actors are read
    /// from the scene, each actor given by its class and whether it is dead, each party slot by
    /// the index of its actor.
    pub fn get_scene_u8(&self, address: usize, actors: &Vec<(SceneActorClass, bool)>, player_actors: &HashMap<usize, usize>) -> (v: u8)
        requires
            self.wf(),
            0x7E1100 <= address < 0x7E1180 ==> (address - 0x7E1100) / 2 < actors@.len(),
        ensures
            v == scene_byte(*self, address, actors@, player_actors@),
            0x7E1100 <= address < 0x7E1180 ==> v == 0,
    {
        if address >= 0x7E1100 && address < 0x7E1180 {
            let (class, dead) = actors[(address - 0x7E1100) / 2];
            let class_number = class.to_index();
            let dead_bit: u8 = if dead { 0x80 } else { 0 };
            assert(class_number < 8 && (dead_bit == 0x80 || dead_bit == 0) ==> class_number & dead_bit == 0) by (bit_vector);
            return class_number & dead_bit;
        } else if address >= 0x7E2980 && address <= 0x7E2982 {
            let slot = address - 0x7E2980;
            return match player_actors.get(&slot) {
                Some(actor) => *actor as u8,
                None => 0,
            };
        }
        self.get_u8(address)
    }
}

/// The scene memory writes that have no effect.
pub open spec fn scene_intercepted(address: usize) -> bool {
    address == 0x0001FA || address == 0x7E0BD7 || address == 0x7E0BD8 || address == 0x7F1520
        || address == 0x7F1521 || address == 0x110 || address == 0x111 || address == 0x7E29AE
}

/// Bytes written one by one are read back as written wherever the addresses fall in the
/// memory regions, and nothing outside the written range changes.
pub proof fn law_memory_bytes_roundtrip(before: Memory, after: Memory, address: int, bytes: Seq<u8>)
    requires
        forall|a: int|
            #[trigger] after.byte(a) == if address <= a < address + bytes.len() && mapped(a) {
                bytes[a - address]
            } else {
                before.byte(a)
            },
        forall|i: int| 0 <= i < bytes.len() ==> mapped(#[trigger] (address + i)),
    ensures
        after.bytes(address, bytes.len() as int) == bytes,
        forall|a: int| !(address <= a < address + bytes.len()) ==> #[trigger] after.byte(a) == before.byte(a),
{
    assert(after.bytes(address, bytes.len() as int) =~= bytes) by {
        assert forall|i: int| 0 <= i < bytes.len() implies after.bytes(address, bytes.len() as int)[i]
            == bytes[i] by {
            assert(mapped(address + i));
            assert(after.byte(address + i) == bytes[i]);
        }
    }
}

/// A 16 bit write followed by a 16 bit read at the same mapped address gives back the value.
pub proof fn law_memory_u16_roundtrip(before: Memory, after: Memory, address: int, value: u16)
    requires
        mapped(address),
        address + 2 <= region_end(address),
        forall|a: int|
            #[trigger] after.byte(a) == if a == address {
                (value % 256) as u8
            } else if a == address + 1 {
                (value / 256) as u8
            } else {
                before.byte(a)
            },
    ensures
        after.byte(address) + 256 * after.byte(address + 1) == value,
        mapped(address + 1),
{
}

} // verus!

verus! {

/// Identifies a playable character.
pub type CharacterId = usize;

/// Source values for data operations.
#[derive(Copy, Clone, PartialEq, Eq, Debug)]
pub enum DataSource {
    /// Immediate value.
    Immediate(i32),
    /// From memory.
    Memory(usize),
    /// The result value of an actor.
    ActorResult(ActorRef),
    /// The current character at the party index.
    PartyCharacter(usize),
    /// Flags of an actor.
    ActorFlag(ActorRef, u32),
    /// Button state; whether it changed since the last check.
    CurrentInput(bool),
    /// A specific input.
    Input(InputBinding),
    /// Number of items of a type in the inventory.
    ItemCount(usize),
    /// Amount of gold in the inventory.
    GoldCount,
    /// Player character is recruited or active.
    PCIsActiveOrReserve(CharacterId),
    /// Player character is active.
    PCIsActive(CharacterId),
    /// World actor memory.
    WorldActor(usize),
}

/// Destination values for data operations.
#[derive(Copy, Clone, PartialEq, Eq, Debug)]
pub enum DataDest {
    Memory(usize),
    WorldActor(usize),
}

impl DataSource {
    pub fn for_system_memory(address: usize) -> (d: DataSource)
        requires
            address + 0x7E0000 <= usize::MAX,
        ensures
            d == DataSource::Memory((address + 0x7E0000) as usize),
    {
        DataSource::Memory(address + 0x7E0000)
    }

    pub fn for_global_memory(address: usize) -> (d: DataSource)
        requires
            address + 0x7F0000 <= usize::MAX,
        ensures
            d == DataSource::Memory((address + 0x7F0000) as usize),
    {
        DataSource::Memory(address + 0x7F0000)
    }

    pub fn for_local_memory(address: usize) -> (d: DataSource)
        requires
            address + 0x7F0200 <= usize::MAX,
        ensures
            d == DataSource::Memory((address + 0x7F0200) as usize),
    {
        DataSource::Memory(address + 0x7F0200)
    }

    pub fn for_upper_memory(address: usize) -> (d: DataSource)
        requires
            address + 0x7F0000 <= usize::MAX,
        ensures
            d == DataSource::Memory((address + 0x7F0000) as usize),
    {
        DataSource::Memory(address + 0x7F0000)
    }

    pub fn for_extended_memory(address: usize) -> (d: DataSource)
        requires
            address + 0x9F0000 <= usize::MAX,
        ensures
            d == DataSource::Memory((address + 0x9F0000) as usize),
    {
        DataSource::Memory(address + 0x9F0000)
    }

    pub fn for_world_actor_memory(address: usize) -> (d: DataSource)
        ensures
            d == DataSource::WorldActor(address),
    {
        DataSource::WorldActor(address)
    }

    /// A readable description of the source, as shown in script listings.
    pub fn as_string(&self) -> (s: String)
        ensures
            s@ == data_source_text(*self),
    {
        let mut s = String::new();
        match self {
            DataSource::Immediate(value) => push_signed_decimal(&mut s, *value as i64),
            DataSource::Memory(address) => {
                s = address_to_variable(*address);
            },
            DataSource::ActorResult(actor) => {
                s.push_str("ActorResult(");
                push_actor_ref(&mut s, *actor);
                s.push_str(")");
            },
            DataSource::GoldCount => s.push_str("Gold"),
            DataSource::ItemCount(item) => {
                s.push_str("ItemCount(");
                push_decimal(&mut s, *item as u64);
                s.push_str(")");
            },
            DataSource::ActorFlag(actor, flags) => {
                s.push_str("ActorFlag(");
                push_actor_ref(&mut s, *actor);
                s.push_str(", 0x");
                push_hex(&mut s, *flags as u64, 2, true);
                s.push_str(")");
            },
            DataSource::PartyCharacter(index) => {
                s.push_str("PC(");
                push_decimal(&mut s, *index as u64);
                s.push_str(")");
            },
            DataSource::Input(binding) => {
                s.push_str("Input(");
                s.push_str(input_binding_name(*binding));
                s.push_str(")");
            },
            DataSource::CurrentInput(is_current) => {
                s.push_str("CurrentInput(");
                crate::fmt::push_bool(&mut s, *is_current);
                s.push_str(")");
            },
            DataSource::PCIsActive(pc) => {
                s.push_str("PCIsActive(");
                push_decimal(&mut s, *pc as u64);
                s.push_str(")");
            },
            DataSource::PCIsActiveOrReserve(pc) => {
                s.push_str("PCIsActive(");
                push_decimal(&mut s, *pc as u64);
                s.push_str(")");
            },
            DataSource::WorldActor(address) => {
                s.push_str("self.0x");
                push_hex(&mut s, *address as u64, 2, true);
            },
        }
        assert(s@ =~= data_source_text(*self));
        s
    }
}

/// The name of an input, as its debug form prints it.
pub fn input_binding_name(binding: InputBinding) -> (name: &'static str)
    ensures
        name@ == input_binding_text(binding),
{
    match binding {
        InputBinding::Dash => "Dash",
        InputBinding::Confirm => "Confirm",
        InputBinding::A => "A",
        InputBinding::B => "B",
        InputBinding::X => "X",
        InputBinding::Y => "Y",
        InputBinding::L => "L",
        InputBinding::R => "R",
    }
}

/// The name of an input, as its debug form prints it.
pub open spec fn input_binding_text(binding: InputBinding) -> Seq<char> {
    match binding {
        InputBinding::Dash => "Dash"@,
        InputBinding::Confirm => "Confirm"@,
        InputBinding::A => "A"@,
        InputBinding::B => "B"@,
        InputBinding::X => "X"@,
        InputBinding::Y => "Y"@,
        InputBinding::L => "L"@,
        InputBinding::R => "R"@,
    }
}

/// An actor reference in its debug form.
pub open spec fn actor_ref_text(actor: ActorRef) -> Seq<char> {
    match actor {
        ActorRef::This => "This"@,
        ActorRef::ScriptActor(n) => "ScriptActor("@ + digits(n as nat, 10, false) + ")"@,
        ActorRef::ScriptActorStoredUpper(n) => "ScriptActorStoredUpper("@ + digits(
            n as nat,
            10,
            false,
        ) + ")"@,
        ActorRef::PartyMember(n) => "PartyMember("@ + digits(n as nat, 10, false) + ")"@,
    }
}

/// Appends an actor reference in its debug form.
fn push_actor_ref(s: &mut String, actor: ActorRef)
    ensures
        final(s)@ == old(s)@ + actor_ref_text(actor),
{
    match actor {
        ActorRef::This => s.push_str("This"),
        ActorRef::ScriptActor(n) => {
            s.push_str("ScriptActor(");
            push_decimal(s, n as u64);
            s.push_str(")");
        },
        ActorRef::ScriptActorStoredUpper(n) => {
            s.push_str("ScriptActorStoredUpper(");
            push_decimal(s, n as u64);
            s.push_str(")");
        },
        ActorRef::PartyMember(n) => {
            s.push_str("PartyMember(");
            push_decimal(s, n as u64);
            s.push_str(")");
        },
    }
    assert(final(s)@ =~= old(s)@ + actor_ref_text(actor));
}

/// A readable description of a data source.
pub open spec fn data_source_text(d: DataSource) -> Seq<char> {
    match d {
        DataSource::Immediate(value) => signed_decimal(value as int),
        DataSource::Memory(address) => address_variable_text(address),
        DataSource::ActorResult(actor) => "ActorResult("@ + actor_ref_text(actor) + ")"@,
        DataSource::GoldCount => "Gold"@,
        DataSource::ItemCount(item) => "ItemCount("@ + digits(item as nat, 10, false) + ")"@,
        DataSource::ActorFlag(actor, flags) => "ActorFlag("@ + actor_ref_text(actor) + ", 0x"@
            + zero_padded(digits(flags as nat, 16, true), 2) + ")"@,
        DataSource::PartyCharacter(index) => "PC("@ + digits(index as nat, 10, false) + ")"@,
        DataSource::Input(binding) => "Input("@ + input_binding_text(binding) + ")"@,
        DataSource::CurrentInput(is_current) => "CurrentInput("@ + crate::fmt::bool_text(
            is_current,
        ) + ")"@,
        DataSource::PCIsActive(pc) => "PCIsActive("@ + digits(pc as nat, 10, false) + ")"@,
        DataSource::PCIsActiveOrReserve(pc) => "PCIsActive("@ + digits(pc as nat, 10, false)
            + ")"@,
        DataSource::WorldActor(address) => "self.0x"@ + zero_padded(
            digits(address as nat, 16, true),
            2,
        ),
    }
}

/// A readable description of a data destination.
pub open spec fn data_dest_text(d: DataDest) -> Seq<char> {
    match d {
        DataDest::Memory(address) => address_variable_text(address),
        DataDest::WorldActor(address) => "self.0x"@ + zero_padded(
            digits(address as nat, 16, true),
            2,
        ),
    }
}

/// Known addresses by name; others as a hexadecimal address.
pub open spec fn address_variable_text(address: usize) -> Seq<char> {
    let hex6 = zero_padded(digits(address as nat, 16, true), 6);
    if 0x7E0000 <= address < 0x7E0080 {
        "Temp"@ + zero_padded(digits((address - 0x7E0000) as nat, 16, true), 2)
    } else if address == 0x7E00E3 {
        "L1ScrollXH"@
    } else if address == 0x7E00E4 {
        "L1ScrollXL"@
    } else if address == 0x7E00E5 {
        "L1ScrollYH"@
    } else if address == 0x7E00E6 {
        "L1ScrollYL"@
    } else if address == 0x7E00E7 {
        "L2ScrollXH"@
    } else if address == 0x7E00E8 {
        "L2ScrollXL"@
    } else if address == 0x7E00E9 {
        "L2ScrollYH"@
    } else if address == 0x7E00EA {
        "L2ScrollYL"@
    } else if address == 0x7E00F0 || address == 0x7E00F1 {
        "Unknown"@ + hex6
    } else if address == 0x7E0104 {
        "DestinationFacing"@
    } else if address == 0x7E0294 {
        "EpochStateFlags"@
    } else if address == 0x7E029E {
        "DactylStateFlags"@
    } else if address == 0x7E027C {
        "WorldMasterAction"@
    } else if address == 0x7E029F {
        "EpochMapX"@
    } else if address == 0x7E02A0 {
        "EpochMapY"@
    } else if address == 0x7E0920 || address == 0x7E0921 || address == 0x7EA214 || address
        == 0x7EA315 || address == 0x7EA418 || address == 0x7EA519 {
        "WorldUnknown"@ + hex6
    } else if address == 0x7E1B48 {
        "WorldUnknown"@ + zero_padded(digits(address as nat, 16, true), 4)
    } else if address == 0x7E1B9B {
        "WorldMusic"@
    } else if address == 0x7E1BA3 {
        "PlayerCharacter1"@
    } else if address == 0x7E1BA4 {
        "PlayerCharacter2"@
    } else if address == 0x7E1BA5 {
        "PlayerCharacter3"@
    } else if 0x7E1BA7 <= address < 0x7E1BBB {
        "WorldStoryFlags"@ + zero_padded(digits((address - 0x7E1BA7) as nat, 16, true), 2)
    } else {
        "0x"@ + hex6
    }
}

/// Names a memory address as a script variable where it is known.
pub fn address_to_variable(address: usize) -> (s: String)
    ensures
        s@ == address_variable_text(address),
{
    let mut s = String::new();
    if address >= 0x7E0000 && address < 0x7E0080 {
        s.push_str("Temp");
        push_hex(&mut s, (address - 0x7E0000) as u64, 2, true);
    } else if address == 0x7E00E3 {
        s.push_str("L1ScrollXH");
    } else if address == 0x7E00E4 {
        s.push_str("L1ScrollXL");
    } else if address == 0x7E00E5 {
        s.push_str("L1ScrollYH");
    } else if address == 0x7E00E6 {
        s.push_str("L1ScrollYL");
    } else if address == 0x7E00E7 {
        s.push_str("L2ScrollXH");
    } else if address == 0x7E00E8 {
        s.push_str("L2ScrollXL");
    } else if address == 0x7E00E9 {
        s.push_str("L2ScrollYH");
    } else if address == 0x7E00EA {
        s.push_str("L2ScrollYL");
    } else if address == 0x7E00F0 || address == 0x7E00F1 {
        s.push_str("Unknown");
        push_hex(&mut s, address as u64, 6, true);
    } else if address == 0x7E0104 {
        s.push_str("DestinationFacing");
    } else if address == 0x7E0294 {
        s.push_str("EpochStateFlags");
    } else if address == 0x7E029E {
        s.push_str("DactylStateFlags");
    } else if address == 0x7E027C {
        s.push_str("WorldMasterAction");
    } else if address == 0x7E029F {
        s.push_str("EpochMapX");
    } else if address == 0x7E02A0 {
        s.push_str("EpochMapY");
    } else if address == 0x7E0920 || address == 0x7E0921 || address == 0x7EA214 || address
        == 0x7EA315 || address == 0x7EA418 || address == 0x7EA519 {
        s.push_str("WorldUnknown");
        push_hex(&mut s, address as u64, 6, true);
    } else if address == 0x7E1B48 {
        s.push_str("WorldUnknown");
        push_hex(&mut s, address as u64, 4, true);
    } else if address == 0x7E1B9B {
        s.push_str("WorldMusic");
    } else if address == 0x7E1BA3 {
        s.push_str("PlayerCharacter1");
    } else if address == 0x7E1BA4 {
        s.push_str("PlayerCharacter2");
    } else if address == 0x7E1BA5 {
        s.push_str("PlayerCharacter3");
    } else if address >= 0x7E1BA7 && address < 0x7E1BBB {
        s.push_str("WorldStoryFlags");
        push_hex(&mut s, (address - 0x7E1BA7) as u64, 2, true);
    } else {
        s.push_str("0x");
        push_hex(&mut s, address as u64, 6, true);
    }
    assert(s@ =~= address_variable_text(address));
    s
}

impl DataDest {
    pub fn for_system_memory(address: usize) -> (d: DataDest)
        requires
            address + 0x7E0000 <= usize::MAX,
        ensures
            d == DataDest::Memory((address + 0x7E0000) as usize),
    {
        DataDest::Memory(address + 0x7E0000)
    }

    pub fn for_global_memory(address: usize) -> (d: DataDest)
        requires
            address + 0x7F0000 <= usize::MAX,
        ensures
            d == DataDest::Memory((address + 0x7F0000) as usize),
    {
        DataDest::Memory(address + 0x7F0000)
    }

    pub fn for_local_memory(address: usize) -> (d: DataDest)
        requires
            address + 0x7F0200 <= usize::MAX,
        ensures
            d == DataDest::Memory((address + 0x7F0200) as usize),
    {
        DataDest::Memory(address + 0x7F0200)
    }

    pub fn for_upper_memory(address: usize) -> (d: DataDest)
        requires
            address + 0x7F0000 <= usize::MAX,
        ensures
            d == DataDest::Memory((address + 0x7F0000) as usize),
    {
        DataDest::Memory(address + 0x7F0000)
    }

    pub fn for_extended_memory(address: usize) -> (d: DataDest)
        requires
            address + 0x9F0000 <= usize::MAX,
        ensures
            d == DataDest::Memory((address + 0x9F0000) as usize),
    {
        DataDest::Memory(address + 0x9F0000)
    }

    pub fn for_world_actor_memory(address: usize) -> (d: DataDest)
        ensures
            d == DataDest::WorldActor(address),
    {
        DataDest::WorldActor(address)
    }

    /// Writes a byte to the destination's memory address. World actor destinations cannot be
    /// written to from here.
    pub fn put_u8(&self, memory: &mut Memory, value: u8)
        requires
            old(memory).wf(),
            self is Memory,
        ensures
            final(memory).wf(),
            forall|a: int|
                #[trigger] final(memory).byte(a) == if a == self->Memory_0 && mapped(a) {
                    value
                } else {
                    old(memory).byte(a)
                },
    {
        match self {
            DataDest::Memory(address) => memory.put_u8(*address, value),
            DataDest::WorldActor(_) => {},
        }
    }

    /// Writes a byte from a scene script; the same as a plain write.
    pub fn put_scene_u8(&self, memory: &mut Memory, value: u8)
        requires
            old(memory).wf(),
            self is Memory,
        ensures
            final(memory).wf(),
            forall|a: int|
                #[trigger] final(memory).byte(a) == if a == self->Memory_0 && mapped(a) {
                    value
                } else {
                    old(memory).byte(a)
                },
    {
        self.put_u8(memory, value)
    }

    /// Writes a 16 bit value; world actor destinations are ignored.
    pub fn put_u16(&self, memory: &mut Memory, value: u16)
        requires
            old(memory).wf(),
            self matches DataDest::Memory(address) ==> (mapped(address as int) ==> address + 2
                <= region_end(address as int)),
        ensures
            final(memory).wf(),
            forall|a: int|
                #[trigger] final(memory).byte(a) == match *self {
                    DataDest::Memory(address) => if mapped(address as int) && a == address {
                        (value % 256) as u8
                    } else if mapped(address as int) && a == address + 1 {
                        (value / 256) as u8
                    } else {
                        old(memory).byte(a)
                    },
                    DataDest::WorldActor(_) => old(memory).byte(a),
                },
    {
        match self {
            DataDest::Memory(address) => memory.put_u16(*address, value),
            DataDest::WorldActor(_) => {},
        }
    }

    /// Writes the first `length` bytes of `bytes`; world actor destinations are ignored.
    pub fn put_bytes(&self, memory: &mut Memory, bytes: [u8; 64], length: usize)
        requires
            old(memory).wf(),
            length <= 64,
            self matches DataDest::Memory(address) ==> address + length <= usize::MAX,
        ensures
            final(memory).wf(),
            forall|a: int|
                #[trigger] final(memory).byte(a) == match *self {
                    DataDest::Memory(address) => if address <= a < address + length && mapped(a) {
                        bytes@[a - address]
                    } else {
                        old(memory).byte(a)
                    },
                    DataDest::WorldActor(_) => old(memory).byte(a),
                },
    {
        match self {
            DataDest::Memory(address) => {
                let mut part: Vec<u8> = Vec::with_capacity(length);
                let mut i: usize = 0;
                while i < length
                    invariant
                        i <= length,
                        length <= 64,
                        part@ == bytes@.subrange(0, i as int),
                    decreases length - i,
                {
                    part.push(bytes[i]);
                    i = i + 1;
                }
                memory.put_bytes(*address, part.as_slice());
            },
            DataDest::WorldActor(_) => {},
        }
    }

    /// A readable description of the destination, as shown in script listings.
    pub fn as_string(&self) -> (s: String)
        ensures
            s@ == data_dest_text(*self),
    {
        match self {
            DataDest::Memory(address) => address_to_variable(*address),
            DataDest::WorldActor(address) => {
                let mut s = String::new();
                s.push_str("self.0x");
                push_hex(&mut s, *address as u64, 2, true);
                assert(s@ =~= data_dest_text(*self));
                s
            },
        }
    }
}

} // verus!
