//! The PC version's resource archive: a scrambled header, a scrambled and compressed directory,
//! and files stored the same way.
use crate::reader::{be32, le32, ByteReader};
use std::collections::HashMap;
use std::io::Read;
use vstd::prelude::*;

verus! {

broadcast use vstd::std_specs::hash::group_hash_axioms;

/// The seed that each block's scrambling starts from, before the block's own seed is added.
pub const BASE_SEED: i32 = 0x19000000;

/// The multiplier of the scrambling generator.
pub const VAL1: i32 = 0x41C64E6D;

/// The increment of the scrambling generator.
pub const VAL2: i32 = 12345;

/// A file in the archive: its path, and where its data is.
pub struct ResourceFile {
    pub path: String,
    pub offset: u64,
    pub size: u64,
}

/// The generator state after `i` steps from a block seed.
#[verifier::opaque]
pub open spec fn keystream(block_seed: i32, i: nat) -> i32
    decreases i,
{
    if i == 0 {
        (BASE_SEED + block_seed) as i32
    } else {
        keystream(block_seed, (i - 1) as nat).wrapping_mul(VAL1).wrapping_add(VAL2)
    }
}

/// One step of the generator.
proof fn lemma_keystream_step(block_seed: i32, i: nat)
    ensures
        keystream(block_seed, i + 1) == keystream(block_seed, i).wrapping_mul(VAL1).wrapping_add(VAL2),
        keystream(block_seed, 0) == (BASE_SEED + block_seed) as i32,
{
    reveal(keystream);
}

/// The next generator state.
fn next_key(num: i32) -> (next: i32)
    ensures
        next == num.wrapping_mul(VAL1).wrapping_add(VAL2),
{
    num.wrapping_mul(VAL1).wrapping_add(VAL2)
}

/// A stored byte unscrambled with a generator state.
fn unscramble(byte: u8, num: i32) -> (b: u8)
    ensures
        b == (byte as i32 ^ (num >> 24i32)) as u8,
{
    (byte as i32 ^ (num >> 24)) as u8
}

/// Byte `i` of a block unscrambled: the stored byte with the top byte of the generator after
/// `i + 1` steps.
pub open spec fn unscrambled(data: Seq<u8>, offset: int, block_seed: i32, i: int) -> u8 {
    (data[offset + i] as i32 ^ (keystream(block_seed, (i + 1) as nat) >> 24i32)) as u8
}

/// Unscrambles `length` bytes of `data` from `offset`, with the generator seeded by the block.
pub fn decode(data: &Vec<u8>, offset: usize, length: usize, block_seed: i32) -> (output: Vec<u8>)
    requires
        offset + length <= data@.len(),
        i32::MIN <= BASE_SEED + block_seed <= i32::MAX,
    ensures
        output@ == Seq::new(length as nat, |i: int| unscrambled(data@, offset as int, block_seed, i)),
{
    let _data_len = data.len();
    let mut output: Vec<u8> = Vec::with_capacity(length);
    let mut num1: i32 = BASE_SEED + block_seed;
    proof {
        lemma_keystream_step(block_seed, 0);
    }
    let mut i: usize = 0;
    while i < length
        invariant
            i <= length,
            offset + length <= data@.len(),
            _data_len == data@.len(),
            num1 == keystream(block_seed, i as nat),
            output@ == Seq::new(i as nat, |k: int| unscrambled(data@, offset as int, block_seed, k)),
        decreases length - i,
    {
        proof {
            lemma_keystream_step(block_seed, i as nat);
        }
        num1 = next_key(num1);
        let b = unscramble(data[offset + i], num1);
        assert(b == unscrambled(data@, offset as int, block_seed, i as int));
        let ghost before = output@;
        output.push(b);
        proof {
            assert forall|k: int| 0 <= k < i + 1 implies #[trigger] output@[k] == unscrambled(data@, offset as int, block_seed, k) by {
                if k < i {
                    assert(output@[k] == before[k]);
                }
            }
        }
        i = i + 1;
        assert(output@ =~= Seq::new(i as nat, |k: int| unscrambled(data@, offset as int, block_seed, k)));
    }
    output
}

/// What one read of at most `len` bytes from a gzip stream over `data` gives: the buffer of `len`
/// bytes after the read, or `None` where the read fails.
pub uninterp spec fn gzip_first_read(data: Seq<u8>, len: nat) -> Option<Seq<u8>>;

/// `flate2::bufread::GzDecoder` over `data` and one `read` into a zeroed buffer of `len` bytes.
/// The decoder is deterministic: the buffer depends on the bytes and the length alone, and has
/// the length asked for; what it holds is named, not stated.
#[verifier::external_body]
fn gzip_read(data: &Vec<u8>, start: usize, len: usize) -> (out: Option<Vec<u8>>)
    requires
        start <= data@.len(),
    ensures
        match out {
            Some(v) => gzip_first_read(data@.skip(start as int), len as nat) == Some(v@) && v@.len() == len,
            None => gzip_first_read(data@.skip(start as int), len as nat) is None,
        },
{
    let mut decoder = flate2::bufread::GzDecoder::new(&data[start..]);
    let mut buf = vec![0u8; len];
    match decoder.read(&mut buf) {
        Ok(_) => Some(buf),
        Err(_) => None,
    }
}


/// Unscrambles a block and decompresses it: the block holds the decompressed length, big-endian,
/// then gzip data, of which one read of that length is kept. `None` where the read fails.
pub fn decode_gz(data: &Vec<u8>, offset: usize, length: usize, block_seed: i32) -> (out: Option<Vec<u8>>)
    requires
        offset + length <= data@.len(),
        length >= 4,
        i32::MIN <= BASE_SEED + block_seed <= i32::MAX,
    ensures
        ({
            let decoded = Seq::new(length as nat, |i: int| unscrambled(data@, offset as int, block_seed, i));
            let len = be32(decoded, 0) as nat;
            match out {
                Some(v) => gzip_first_read(decoded.skip(4), len) == Some(v@),
                None => gzip_first_read(decoded.skip(4), len) is None,
            }
        }),
{
    let decoded = decode(data, offset, length, block_seed);
    let mut reader = ByteReader::new(decoded);
    let len = reader.read_u32_be() as usize;
    gzip_read(&reader.data, 4, len)
}

/// Why an archive is not valid.
#[derive(Clone, Copy, PartialEq, Eq, Structural, Debug)]
pub enum ResourcesError {
    UnknownSignature,
    LengthMismatch,
    DirectoryBeyondEnd,
    DirectoryPastEnd,
}

/// Checks an unscrambled archive header of 16 bytes against the archive's length: the signature
/// `ARC1`, the stored archive length, and a directory that lies within the archive. Gives the
/// directory's offset and length.
pub fn validate_header(header: &Vec<u8>, file_len: u64) -> (result: Result<(u64, u64), ResourcesError>)
    requires
        header@.len() >= 16,
    ensures
        ({
            let h = header@;
            let file_length = le32(h, 4) as u64;
            let directory_offset = le32(h, 8) as u64;
            let directory_length = le32(h, 12) as u64;
            match result {
                Ok((offset, length)) => h.take(4) == seq![0x41u8, 0x52u8, 0x43u8, 0x31u8] && file_len == file_length
                    && directory_offset <= file_len && directory_offset + directory_length <= file_len
                    && offset == directory_offset && length == directory_length,
                Err(ResourcesError::UnknownSignature) => h.take(4) != seq![0x41u8, 0x52u8, 0x43u8, 0x31u8],
                Err(ResourcesError::LengthMismatch) => h.take(4) == seq![0x41u8, 0x52u8, 0x43u8, 0x31u8] && file_len != file_length,
                Err(ResourcesError::DirectoryBeyondEnd) => h.take(4) == seq![0x41u8, 0x52u8, 0x43u8, 0x31u8] && file_len == file_length
                    && directory_offset > file_len,
                Err(ResourcesError::DirectoryPastEnd) => h.take(4) == seq![0x41u8, 0x52u8, 0x43u8, 0x31u8] && file_len == file_length
                    && directory_offset <= file_len && directory_offset + directory_length > file_len,
            }
        }),
{
    let signature_ok = header[0] == 0x41 && header[1] == 0x52 && header[2] == 0x43 && header[3] == 0x31;
    assert(signature_ok == (header@.take(4) == seq![0x41u8, 0x52u8, 0x43u8, 0x31u8])) by {
        if signature_ok {
            assert(header@.take(4) =~= seq![0x41u8, 0x52u8, 0x43u8, 0x31u8]);
        }
    }
    let mut reader = ByteReader::new(header.clone());
    reader.seek(4);
    let file_length = reader.read_u32_le() as u64;
    let directory_offset = reader.read_u32_le() as u64;
    let directory_length = reader.read_u32_le() as u64;
    if !signature_ok {
        return Err(ResourcesError::UnknownSignature);
    }
    if file_len != file_length {
        return Err(ResourcesError::LengthMismatch);
    }
    if directory_offset > file_len {
        return Err(ResourcesError::DirectoryBeyondEnd);
    }
    if directory_offset + directory_length > file_len {
        return Err(ResourcesError::DirectoryPastEnd);
    }
    Ok((directory_offset, directory_length))
}


/// The text of bytes as UTF-8, or `None` where they are not valid UTF-8.
pub uninterp spec fn utf8_text(bytes: Seq<u8>) -> Option<Seq<char>>;

/// `std::str::from_utf8` on the bytes, and the text copied into a `String`; the decoding is a
/// function of the bytes alone, named rather than stated.
#[verifier::external_body]
pub(crate) fn utf8_string(bytes: &Vec<u8>) -> (s: Option<String>)
    ensures
        match s {
            Some(t) => utf8_text(bytes@) == Some(t@),
            None => utf8_text(bytes@) is None,
        },
{
    match std::str::from_utf8(bytes.as_slice()) {
        Ok(text) => Some(text.to_string()),
        Err(_) => None,
    }
}

/// The first zero byte from `i` on, before the end.
pub open spec fn first_zero(d: Seq<u8>, i: int) -> Option<int>
    decreases d.len() - i,
{
    if i < 0 || i >= d.len() {
        None
    } else if d[i] == 0 {
        Some(i)
    } else {
        first_zero(d, i + 1)
    }
}

/// The bytes of the path at `off`: up to its terminating zero, or up to the last byte of the
/// data where there is none.
pub open spec fn path_bytes(d: Seq<u8>, off: int) -> Seq<u8> {
    match first_zero(d, off) {
        Some(j) => d.subrange(off, j),
        None => d.subrange(off, d.len() - 1),
    }
}

/// `first_zero` finds the first zero byte of its range.
proof fn lemma_first_zero(d: Seq<u8>, i: int)
    requires
        0 <= i,
    ensures
        match first_zero(d, i) {
            Some(j) => i <= j < d.len() && d[j] == 0 && forall|k: int| i <= k < j ==> d[k] != 0,
            None => forall|k: int| i <= k < d.len() ==> d[k] != 0,
        },
    decreases d.len() - i,
{
    if i < d.len() && d[i] != 0 {
        lemma_first_zero(d, i + 1);
    }
}

/// The bytes of the zero-terminated path at `off`.
fn read_path_bytes(d: &Vec<u8>, off: usize) -> (bytes: Vec<u8>)
    requires
        off < d@.len(),
    ensures
        bytes@ == path_bytes(d@, off as int),
{
    proof {
        lemma_first_zero(d@, off as int);
    }
    let mut bytes: Vec<u8> = Vec::new();
    let mut i = off;
    while i < d.len() && d[i] != 0
        invariant
            off <= i <= d@.len(),
            first_zero(d@, off as int) == first_zero(d@, i as int),
            bytes@ == d@.subrange(off as int, i as int),
        decreases d@.len() - i,
    {
        bytes.push(d[i]);
        i = i + 1;
    }
    if i == d.len() {
        bytes.pop();
        assert(bytes@ =~= d@.subrange(off as int, d@.len() - 1));
    }
    bytes
}

/// The directory entries of an archive: how many, and for each where its path is, where its data
/// is and how long it is.
pub open spec fn directory_entry(d: Seq<u8>, i: int) -> (int, u64, u64) {
    (le32(d, 4 + 12 * i), le32(d, 8 + 12 * i) as u64, le32(d, 12 + 12 * i) as u64)
}

/// Whether a decompressed directory can be read: its entries lie in it, each path starts in it,
/// and each path is UTF-8.
pub open spec fn directory_readable(d: Seq<u8>) -> bool {
    &&& 4 <= d.len()
    &&& 4 + 12 * le32(d, 0) <= d.len()
    &&& forall|i: int| 0 <= i < le32(d, 0) ==> {
        let e = #[trigger] directory_entry(d, i);
        &&& e.0 < d.len()
        &&& utf8_text(path_bytes(d, e.0)) is Some
    }
}

/// Reads the files of a decompressed archive directory, in the order of its entries.
pub fn parse_directory(directory: &Vec<u8>) -> (files: Vec<ResourceFile>)
    requires
        directory_readable(directory@),
    ensures
        files@.len() == le32(directory@, 0),
        forall|i: int| 0 <= i < files@.len() ==> {
            let e = #[trigger] directory_entry(directory@, i);
            &&& Some(files@[i].path@) == utf8_text(path_bytes(directory@, e.0))
            &&& files@[i].offset == e.1
            &&& files@[i].size == e.2
        },
{
    let ghost d = directory@;
    let mut reader = ByteReader::new(directory.clone());
    let file_count = reader.read_u32_le() as usize;
    let mut files: Vec<ResourceFile> = Vec::new();
    let mut i: usize = 0;
    while i < file_count
        invariant
            d == directory@,
            reader.data@ == d,
            directory_readable(d),
            file_count == le32(d, 0),
            i <= file_count,
            reader.pos == 4 + 12 * i,
            files@.len() == i,
            forall|k: int| 0 <= k < i ==> {
                let e = #[trigger] directory_entry(d, k);
                &&& Some(files@[k].path@) == utf8_text(path_bytes(d, e.0))
                &&& files@[k].offset == e.1
                &&& files@[k].size == e.2
            },
        decreases file_count - i,
    {
        let ghost e = directory_entry(d, i as int);
        assert(e.0 < d.len());
        let path_offset = reader.read_u32_le() as usize;
        let offset = reader.read_u32_le() as u64;
        let size = reader.read_u32_le() as u64;
        let bytes = read_path_bytes(directory, path_offset);
        let path = match utf8_string(&bytes) {
            Some(p) => p,
            None => {
                assert(false);
                String::new()
            },
        };
        files.push(ResourceFile { path, offset, size });
        i = i + 1;
    }
    files
}

/// Reads the files of a decompressed archive directory as `parse_directory` does, or gives
/// `None` where the directory cannot be read: too short for its entry count, a path starting
/// outside it, or a path that is not UTF-8.
pub fn read_directory(directory: &Vec<u8>) -> (files: Option<Vec<ResourceFile>>)
    ensures
        files is Some <==> directory_readable(directory@),
        files matches Some(f) ==> {
            &&& f@.len() == le32(directory@, 0)
            &&& forall|i: int| 0 <= i < f@.len() ==> {
                let e = #[trigger] directory_entry(directory@, i);
                &&& Some(f@[i].path@) == utf8_text(path_bytes(directory@, e.0))
                &&& f@[i].offset == e.1
                &&& f@[i].size == e.2
            }
        },
{
    let ghost d = directory@;
    if directory.len() < 4 {
        return None;
    }
    let mut reader = ByteReader::new(directory.clone());
    let count = reader.read_u32_le() as u64;
    let len = directory.len() as u64;
    if 4 + 12 * count > len {
        return None;
    }
    let mut i: u64 = 0;
    while i < count
        invariant
            d == directory@,
            reader.data@ == d,
            4 <= d.len(),
            count == le32(d, 0),
            len == d.len(),
            4 + 12 * count <= len,
            i <= count,
            reader.pos == 4 + 12 * i,
            forall|k: int| 0 <= k < i ==> {
                let e = #[trigger] directory_entry(d, k);
                &&& e.0 < d.len()
                &&& utf8_text(path_bytes(d, e.0)) is Some
            },
        decreases count - i,
    {
        let ghost e = directory_entry(d, i as int);
        let path_offset = reader.read_u32_le() as usize;
        let _offset = reader.read_u32_le();
        let _size = reader.read_u32_le();
        assert(path_offset == e.0);
        if path_offset >= directory.len() {
            return None;
        }
        let bytes = read_path_bytes(directory, path_offset);
        if utf8_string(&bytes).is_none() {
            return None;
        }
        i = i + 1;
    }
    Some(parse_directory(directory))
}

/// An opened archive: its files by path.
pub struct ResourcesBin {
    pub files: HashMap<String, ResourceFile>,
}

impl ResourcesBin {
    /// An archive of the given files, each under its path; a later file replaces one with the
    /// same path.
    pub fn from_files(files: Vec<ResourceFile>) -> (bin: ResourcesBin)
        ensures
            vstd::std_specs::hash::obeys_key_model::<String>() ==> forall|k: String| #[trigger] bin.files@.contains_key(k) <==> exists|i: int|
                0 <= i < files@.len() && (#[trigger] files@[i]).path == k,
    {
        let ghost all = files@;
        let mut map: HashMap<String, ResourceFile> = HashMap::new();
        let mut rest = files;
        let ghost mut done: Seq<ResourceFile> = Seq::empty();
        while rest.len() > 0
            invariant
                all == done + rest@,
                vstd::std_specs::hash::obeys_key_model::<String>() ==> forall|k: String| #[trigger] map@.contains_key(k) <==> exists|i: int|
                    0 <= i < done.len() && (#[trigger] done[i]).path == k,
            decreases rest@.len(),
        {
            let ghost before = rest@;
            let file = rest.remove(0);
            let ghost f = file;
            let key = file.path.clone();
            map.insert(key, file);
            proof {
                let prior = done;
                done = done.push(f);
                assert(before =~= seq![f] + rest@);
                assert(all =~= done + rest@);
                if vstd::std_specs::hash::obeys_key_model::<String>() {
                    assert forall|k: String| #[trigger] map@.contains_key(k) implies exists|i: int| 0 <= i < done.len() && (#[trigger] done[i]).path == k by {
                        if k == f.path {
                            assert(done[prior.len() as int] == f);
                        } else {
                            let i = choose|i: int| 0 <= i < prior.len() && (#[trigger] prior[i]).path == k;
                            assert(done[i] == prior[i]);
                        }
                    }
                    assert forall|k: String| (exists|i: int| 0 <= i < done.len() && (#[trigger] done[i]).path == k) implies #[trigger] map@.contains_key(k) by {
                        let i = choose|i: int| 0 <= i < done.len() && (#[trigger] done[i]).path == k;
                        if i < prior.len() {
                            assert(prior[i] == done[i]);
                        }
                    }
                }
            }
        }
        assert(done =~= all);
        ResourcesBin { files: map }
    }

    /// Whether the archive has a file at `path`; stated for keys whose hashing follows the map's
    /// model, as the standard library's specification gives it.
    pub fn file_exists(&self, path: &str) -> (b: bool)
        ensures
            vstd::std_specs::hash::obeys_key_model::<String>() ==> b == vstd::std_specs::hash::contains_borrowed_key(self.files@, path),
    {
        self.files.contains_key(path)
    }
}

} // verus!
