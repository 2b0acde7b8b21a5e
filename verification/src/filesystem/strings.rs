//! Name lists: world names in world order and item names.
use crate::filesystem::text_decoder::{font8_concat, trim_end, TextDecoder};
use vstd::prelude::*;

verus! {

/// The world names by world index: the six stored names, the fifth standing for worlds 4 to 6.
pub fn world_names_in_order(names: &Vec<String>) -> (ordered: Vec<String>)
    requires
        names@.len() >= 6,
    ensures
        ordered@.len() == 8,
        ordered@[0]@ == names@[0]@,
        ordered@[1]@ == names@[1]@,
        ordered@[2]@ == names@[2]@,
        ordered@[3]@ == names@[3]@,
        ordered@[4]@ == names@[4]@,
        ordered@[5]@ == names@[4]@,
        ordered@[6]@ == names@[4]@,
        ordered@[7]@ == names@[5]@,
{
    let mut ordered: Vec<String> = Vec::with_capacity(8);
    ordered.push(names[0].clone());
    ordered.push(names[1].clone());
    ordered.push(names[2].clone());
    ordered.push(names[3].clone());
    ordered.push(names[4].clone());
    ordered.push(names[4].clone());
    ordered.push(names[4].clone());
    ordered.push(names[5].clone());
    ordered
}

/// The item names of the SNES item name table: 11 bytes per name in the menu font, trailing
/// spaces dropped.
pub fn read_item_names(decoder: &TextDecoder, data: &Vec<u8>) -> (names: Vec<String>)
    ensures
        names@.len() == data@.len() / 11,
        forall|i: int| 0 <= i < names@.len() ==> (#[trigger] names@[i])@ == trim_end(font8_concat(data@.subrange(11 * i, 11 * i + 11))),
{
    let count = data.len() / 11;
    assert(11 * count <= data@.len()) by (nonlinear_arith)
        requires
            count == data@.len() / 11,
    ;
    let mut names: Vec<String> = Vec::with_capacity(count);
    let mut i: usize = 0;
    while i < count
        invariant
            count == data@.len() / 11,
            11 * count <= data@.len(),
            data@.len() == data.len(),
            i <= count,
            names@.len() == i,
            forall|k: int| 0 <= k < i ==> (#[trigger] names@[k])@ == trim_end(font8_concat(data@.subrange(11 * k, 11 * k + 11))),
        decreases count - i,
    {
        let mut item: Vec<u8> = Vec::with_capacity(11);
        let mut j: usize = 0;
        while j < 11
            invariant
                i < count,
                count == data@.len() / 11,
                11 * count <= data@.len(),
                data@.len() == data.len(),
                j <= 11,
                item@ == data@.subrange(11 * i as int, 11 * i + j),
            decreases 11 - j,
        {
            item.push(data[11 * i + j]);
            j = j + 1;
        }
        let name = decoder.decode_mapped_string(item);
        names.push(name);
        i = i + 1;
    }
    names
}

} // verus!
