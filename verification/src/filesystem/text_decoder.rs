//! Decoding of the game's text: dictionary-compressed dialogue strings and strings in the
//! 8x8 menu font.
use crate::fmt::{digits, push_hex, zero_padded};
use crate::reader::{le16, ByteReader};
use vstd::prelude::*;
use vstd::string::StrSliceExecFns;

verus! {

/// The highest byte that refers to a dictionary word in dialogue strings.
pub const DICTIONARY_LENGTH: u8 = 0x9F;

/// The text of a character byte of the dialogue font.
pub open spec fn character_text(value: u8) -> Seq<char> {
    if 0xA0 <= value <= 0xB9 {
        seq![(0x41 + (value - 0xA0)) as char]
    } else if 0xBA <= value <= 0xD3 {
        seq![(0x61 + (value - 0xBA)) as char]
    } else if 0xD4 <= value <= 0xDD {
        seq![(0x30 + (value - 0xD4)) as char]
    } else if value == 0xDE {
        "!"@
    } else if value == 0xDF {
        "?"@
    } else if value == 0xE0 {
        "/"@
    } else if value == 0xE1 {
        "“"@
    } else if value == 0xE2 {
        "”"@
    } else if value == 0xE3 {
        ":"@
    } else if value == 0xE4 {
        "&"@
    } else if value == 0xE5 {
        "("@
    } else if value == 0xE6 {
        ")"@
    } else if value == 0xE7 {
        "'"@
    } else if value == 0xE8 {
        "."@
    } else if value == 0xE9 {
        ","@
    } else if value == 0xEA {
        "="@
    } else if value == 0xEB {
        "-"@
    } else if value == 0xEC {
        "+"@
    } else if value == 0xED {
        "%"@
    } else if value == 0xEE {
        "♫"@
    } else if value == 0xEF {
        " "@
    } else if value == 0xF0 {
        "♥"@
    } else if value == 0xF1 {
        "…"@
    } else if value == 0xF2 {
        "∞"@
    } else if value == 0xF3 {
        "#"@
    } else {
        "<UNKNOWN>"@
    }
}

/// The text of a control code of dialogue strings that takes no argument.
pub open spec fn special_text(code: u8) -> Seq<char> {
    if code == 0x05 {
        " "@
    } else if code == 0x06 {
        "\n"@
    } else if code == 0x07 {
        "<stop>"@
    } else if code == 0x08 {
        "<stop line break>"@
    } else if code == 0x09 {
        "<instant line break>"@
    } else if code == 0x0A {
        "<AUTO_PAGE>"@
    } else if code == 0x0B {
        "<AUTO_END>"@
    } else if code == 0x0C {
        "<PAGE>"@
    } else if 0x0D <= code <= 0x0F {
        "<NUMBER>"@
    } else if code == 0x11 {
        "<spch 11>"@
    } else if code == 0x13 {
        "<NAME_CRO>"@
    } else if code == 0x14 {
        "<NAME_MAR>"@
    } else if code == 0x15 {
        "<NAME_LUC>"@
    } else if code == 0x16 {
        "<NAME_FRO>"@
    } else if code == 0x17 {
        "<NAME_ROB>"@
    } else if code == 0x18 {
        "<NAME_AYL>"@
    } else if code == 0x19 {
        "<NAME_MAG>"@
    } else if code == 0x1A {
        "<NICK_CRO>"@
    } else if code == 0x1B {
        "<NAME_PT1>"@
    } else if code == 0x1C {
        "<NAME_PT2>"@
    } else if code == 0x1D {
        "<NAME_PT3>"@
    } else if code == 0x1E {
        "<queen name>"@
    } else if code == 0x1F {
        "<result item>"@
    } else if code == 0x20 {
        "<NAME_SIL>"@
    } else {
        "<UNKNOWN_SPEC>"@
    }
}

/// A byte as two lower-case hexadecimal digits.
pub open spec fn hex2(b: u8) -> Seq<char> {
    zero_padded(digits(b as nat, 16, false), 2)
}

/// The text of a timed wait.
pub open spec fn wait_text(b: u8) -> Seq<char> {
    "<WAIT>"@ + hex2(b) + "</WAIT>"@
}

/// The text of the name placeholder that takes an argument byte.
pub open spec fn name_tec_text(b: u8) -> Seq<char> {
    "<NAME_TEC>"@ + hex2(b) + "</NAME_TEC>"@
}

/// One token of a string at `pos`: whether it ends the string, its text and where the next one
/// starts; `None` where the data ends inside the token or a word is missing from `words`.
/// With `dictionary`, bytes 0x21 to 0x9F name words of `words`; without it, bytes from 0x9F on
/// are characters.
pub open spec fn token(words: Seq<Seq<char>>, dictionary: bool, data: Seq<u8>, pos: int) -> Option<
    (bool, Seq<char>, int),
> {
    if pos < 0 || pos >= data.len() {
        None
    } else {
        let v = data[pos];
        if v == 0 {
            Some((true, Seq::empty(), pos + 1))
        } else if v == 1 || v == 2 {
            if pos + 2 <= data.len() {
                Some((false, character_text(data[pos + 1]), pos + 2))
            } else {
                None
            }
        } else if v == 3 {
            if pos + 2 > data.len() {
                None
            } else if data[pos + 1] == 0 {
                Some((true, Seq::empty(), pos + 2))
            } else if pos + 3 <= data.len() {
                Some((false, wait_text(data[pos + 2]), pos + 3))
            } else {
                None
            }
        } else if dictionary && 0x21 <= v <= DICTIONARY_LENGTH {
            if v - 0x21 < words.len() {
                Some((false, words[v - 0x21], pos + 1))
            } else {
                None
            }
        } else if v >= DICTIONARY_LENGTH {
            Some((false, character_text(v), pos + 1))
        } else if v == 0x12 {
            if pos + 2 <= data.len() {
                Some((false, name_tec_text(data[pos + 1]), pos + 2))
            } else {
                None
            }
        } else {
            Some((false, special_text(v), pos + 1))
        }
    }
}

/// A token that is there starts at `pos` and ends within the data, after `pos`.
pub proof fn lemma_token_advances(words: Seq<Seq<char>>, dictionary: bool, data: Seq<u8>, pos: int)
    requires
        token(words, dictionary, data, pos) is Some,
    ensures
        pos < token(words, dictionary, data, pos).unwrap().2 <= data.len(),
        0 <= pos,
{
}

/// A dictionary-compressed string from `pos` up to its end code: its text and the position after
/// it; `None` where the data ends first.
pub open spec fn huffman_text(words: Seq<Seq<char>>, data: Seq<u8>, pos: int) -> Option<
    (Seq<char>, int),
>
    decreases data.len() - pos,
{
    match token(words, true, data, pos) {
        None => None,
        Some((stop, text, next)) => {
            if stop {
                Some((Seq::empty(), next))
            } else {
                proof {
                    lemma_token_advances(words, true, data, pos);
                }
                match huffman_text(words, data, next) {
                    None => None,
                    Some((rest, end)) => Some((text + rest, end)),
                }
            }
        },
    }
}

/// A dictionary word of at most `count` tokens from `pos`, ended early by an end code: its text
/// and the position after it; `None` where the data ends first.
pub open spec fn word_text(data: Seq<u8>, pos: int, count: nat) -> Option<(Seq<char>, int)>
    decreases count,
{
    if count == 0 {
        Some((Seq::empty(), pos))
    } else {
        match token(Seq::empty(), false, data, pos) {
            None => None,
            Some((stop, text, next)) => {
                if stop {
                    Some((Seq::empty(), next))
                } else {
                    match word_text(data, next, (count - 1) as nat) {
                        None => None,
                        Some((rest, end)) => Some((text + rest, end)),
                    }
                }
            },
        }
    }
}

/// The dictionary word stored at `p`: a length byte, then the word.
pub open spec fn stored_word(data: Seq<u8>, p: int) -> Option<(Seq<char>, int)> {
    if 0 <= p < data.len() {
        word_text(data, p + 1, data[p] as nat)
    } else {
        None
    }
}

/// Where the `i`-th word of a pointer table at `pos` is, for pointers relative to `start`.
pub open spec fn word_pointer(data: Seq<u8>, pos: int, start: u16, i: int) -> int {
    le16(data, pos + 2 * i) - start
}

/// The texts of a list of strings.
pub open spec fn texts(words: Seq<String>) -> Seq<Seq<char>> {
    words.map_values(|w: String| w@)
}

/// Whether `c` is white space in Unicode, as `char::is_whitespace` decides.
pub open spec fn is_white_space(c: char) -> bool {
    let n = c as u32;
    (0x09 <= n <= 0x0D) || n == 0x20 || n == 0x85 || n == 0xA0 || n == 0x1680 || (0x2000 <= n
        <= 0x200A) || n == 0x2028 || n == 0x2029 || n == 0x202F || n == 0x205F || n == 0x3000
}

/// `s` without its trailing white space.
pub open spec fn trim_end(s: Seq<char>) -> Seq<char>
    decreases s.len(),
{
    if s.len() > 0 && is_white_space(s.last()) {
        trim_end(s.drop_last())
    } else {
        s
    }
}

/// The text of a byte of the 8x8 menu font.
pub open spec fn font8_text(b: u8) -> Seq<char> {
    if 0xA0 <= b <= 0xED {
        character_text(b)
    } else if 0x73 <= b <= 0x7C {
        seq![(0x30 + (b - 0x73)) as char]
    } else if b == 0x20 {
        "<BLADE>"@
    } else if b == 0x21 {
        "<BOW>"@
    } else if b == 0x22 {
        "<GUN>"@
    } else if b == 0x23 {
        "<ARM>"@
    } else if b == 0x24 {
        "<SWORD>"@
    } else if b == 0x25 {
        "<FIST>"@
    } else if b == 0x26 {
        "<SCYTHE>"@
    } else if b == 0x27 {
        "<HELM>"@
    } else if b == 0x28 {
        "<ARMOR>"@
    } else if b == 0x29 {
        "<RING>"@
    } else if b == 0x2A || b == 0x64 {
        "<H>"@
    } else if b == 0x2B || b == 0x65 {
        "<M>"@
    } else if b == 0x2C || b == 0x66 {
        "<P>"@
    } else if b == 0x2D || b == 0x5F {
        ":"@
    } else if b == 0x2E {
        "<SHIELD>"@
    } else if b == 0x2F {
        "<STAR>"@
    } else if b == 0x5B {
        "<LEFT>"@
    } else if b == 0x5C {
        "<RIGHT>"@
    } else if b == 0x5D || b == 0xFB {
        "("@
    } else if b == 0x5E || b == 0xFC {
        ")"@
    } else if b == 0x60 {
        "<HAND1>"@
    } else if b == 0x61 {
        "<HAND2>"@
    } else if b == 0x62 {
        "<HAND3>"@
    } else if b == 0x63 {
        "<HAND4>"@
    } else if b == 0x67 {
        "<HP0>"@
    } else if b == 0x68 {
        "<HP1>"@
    } else if b == 0x69 {
        "<HP2>"@
    } else if b == 0x6A {
        "<HP3>"@
    } else if b == 0x6B {
        "<HP4>"@
    } else if b == 0x6C {
        "<HP5>"@
    } else if b == 0x6D {
        "<HP6>"@
    } else if b == 0x6E {
        "<HP7>"@
    } else if b == 0x6F {
        "<HP8>"@
    } else if b == 0x72 || b == 0xF0 {
        "°"@
    } else if b == 0x7D {
        "{D}"@
    } else if b == 0x7E {
        "{Z}"@
    } else if b == 0x7F {
        "{UP}"@
    } else if b == 0xEE || b == 0xF2 || b == 0xF3 {
        "#"@
    } else if b == 0xEF || b == 0xFF {
        " "@
    } else if b == 0xF1 {
        "{A}"@
    } else if b == 0xF4 {
        "{L}"@
    } else if b == 0xF5 {
        "{R}"@
    } else if b == 0xF6 {
        "{H}"@
    } else if b == 0xF7 {
        "{M}"@
    } else if b == 0xF8 {
        "{P}"@
    } else if b == 0xF9 {
        "\u{316}"@
    } else if b == 0xFA {
        "{CORNER}"@
    } else {
        "¶"@
    }
}

/// The texts of the bytes of `data` in the menu font, one after the other.
pub open spec fn font8_concat(data: Seq<u8>) -> Seq<char>
    decreases data.len(),
{
    if data.len() == 0 {
        Seq::empty()
    } else {
        font8_concat(data.drop_last()) + font8_text(data.last())
    }
}


/// In a dialogue string, a character byte from 0xA0 to 0xF3 stands for one character: 0xA0 to
/// 0xB9 the capitals A to Z, 0xBA to 0xD3 the small letters a to z, 0xD4 to 0xDD the digits 0 to
/// 9, and 0xDE on the punctuation of the dialogue font (0xE9 is a comma, 0xEF a space). A string
/// that starts with such a byte starts with that character.
pub proof fn law_dialogue_characters(words: Seq<Seq<char>>, data: Seq<u8>, pos: int)
    requires
        0 <= pos < data.len(),
        0xA0 <= data[pos] <= 0xF3,
        huffman_text(words, data, pos) is Some,
    ensures
        ({
            let t = huffman_text(words, data, pos).unwrap().0;
            let v = data[pos];
            &&& t.len() >= 1
            &&& 0xA0 <= v <= 0xB9 ==> t[0] as int == 'A' as int + (v - 0xA0)
            &&& 0xBA <= v <= 0xD3 ==> t[0] as int == 'a' as int + (v - 0xBA)
            &&& 0xD4 <= v <= 0xDD ==> t[0] as int == '0' as int + (v - 0xD4)
            &&& v == 0xDE ==> t[0] == '!'
            &&& v == 0xDF ==> t[0] == '?'
            &&& v == 0xE0 ==> t[0] == '/'
            &&& v == 0xE1 ==> t[0] == '“'
            &&& v == 0xE2 ==> t[0] == '”'
            &&& v == 0xE3 ==> t[0] == ':'
            &&& v == 0xE4 ==> t[0] == '&'
            &&& v == 0xE5 ==> t[0] == '('
            &&& v == 0xE6 ==> t[0] == ')'
            &&& v == 0xE7 ==> t[0] == '\''
            &&& v == 0xE8 ==> t[0] == '.'
            &&& v == 0xE9 ==> t[0] == ','
            &&& v == 0xEA ==> t[0] == '='
            &&& v == 0xEB ==> t[0] == '-'
            &&& v == 0xEC ==> t[0] == '+'
            &&& v == 0xED ==> t[0] == '%'
            &&& v == 0xEE ==> t[0] == '♫'
            &&& v == 0xEF ==> t[0] == ' '
            &&& v == 0xF0 ==> t[0] == '♥'
            &&& v == 0xF1 ==> t[0] == '…'
            &&& v == 0xF2 ==> t[0] == '∞'
            &&& v == 0xF3 ==> t[0] == '#'
        }),
{
        reveal_strlit("!");
        reveal_strlit("?");
        reveal_strlit("/");
        reveal_strlit("“");
        reveal_strlit("”");
        reveal_strlit(":");
        reveal_strlit("&");
        reveal_strlit("(");
        reveal_strlit(")");
        reveal_strlit("'");
        reveal_strlit(".");
        reveal_strlit(",");
        reveal_strlit("=");
        reveal_strlit("-");
        reveal_strlit("+");
        reveal_strlit("%");
        reveal_strlit("♫");
        reveal_strlit(" ");
        reveal_strlit("♥");
        reveal_strlit("…");
        reveal_strlit("∞");
        reveal_strlit("#");
}

} // verus!

verus! {

/// The text of a character byte of the dialogue font.
fn parse_character(value: u8) -> (s: String)
    ensures
        s@ == character_text(value),
{
    let mut s = String::new();
    if 0xA0 <= value && value <= 0xB9 {
        s.push((0x41 + (value - 0xA0)) as char);
    } else if 0xBA <= value && value <= 0xD3 {
        s.push((0x61 + (value - 0xBA)) as char);
    } else if 0xD4 <= value && value <= 0xDD {
        s.push((0x30 + (value - 0xD4)) as char);
    } else {
        let text: &str = if value == 0xDE {
            "!"
        } else if value == 0xDF {
            "?"
        } else if value == 0xE0 {
            "/"
        } else if value == 0xE1 {
            "“"
        } else if value == 0xE2 {
            "”"
        } else if value == 0xE3 {
            ":"
        } else if value == 0xE4 {
            "&"
        } else if value == 0xE5 {
            "("
        } else if value == 0xE6 {
            ")"
        } else if value == 0xE7 {
            "'"
        } else if value == 0xE8 {
            "."
        } else if value == 0xE9 {
            ","
        } else if value == 0xEA {
            "="
        } else if value == 0xEB {
            "-"
        } else if value == 0xEC {
            "+"
        } else if value == 0xED {
            "%"
        } else if value == 0xEE {
            "♫"
        } else if value == 0xEF {
            " "
        } else if value == 0xF0 {
            "♥"
        } else if value == 0xF1 {
            "…"
        } else if value == 0xF2 {
            "∞"
        } else if value == 0xF3 {
            "#"
        } else {
            "<UNKNOWN>"
        };
        s.push_str(text);
    }
    assert(s@ =~= character_text(value));
    s
}

/// The text of a control code; the name placeholder 0x12 reads its argument byte from `data`.
fn read_special_character(code: u8, data: &mut ByteReader) -> (s: String)
    requires
        code == 0x12 ==> old(data).pos + 1 <= old(data).data@.len(),
    ensures
        final(data).data@ == old(data).data@,
        code == 0x12 ==> s@ == name_tec_text(old(data).data@[old(data).pos as int])
            && final(data).pos == old(data).pos + 1,
        code != 0x12 ==> s@ == special_text(code) && final(data).pos == old(data).pos,
{
    let mut s = String::new();
    if code == 0x12 {
        let b = data.read_u8();
        s.push_str("<NAME_TEC>");
        push_hex(&mut s, b as u64, 2, false);
        s.push_str("</NAME_TEC>");
        assert(s@ =~= name_tec_text(b));
        return s;
    }
    let text: &str = if code == 0x05 {
        " "
    } else if code == 0x06 {
        "\n"
    } else if code == 0x07 {
        "<stop>"
    } else if code == 0x08 {
        "<stop line break>"
    } else if code == 0x09 {
        "<instant line break>"
    } else if code == 0x0A {
        "<AUTO_PAGE>"
    } else if code == 0x0B {
        "<AUTO_END>"
    } else if code == 0x0C {
        "<PAGE>"
    } else if 0x0D <= code && code <= 0x0F {
        "<NUMBER>"
    } else if code == 0x11 {
        "<spch 11>"
    } else if code == 0x13 {
        "<NAME_CRO>"
    } else if code == 0x14 {
        "<NAME_MAR>"
    } else if code == 0x15 {
        "<NAME_LUC>"
    } else if code == 0x16 {
        "<NAME_FRO>"
    } else if code == 0x17 {
        "<NAME_ROB>"
    } else if code == 0x18 {
        "<NAME_AYL>"
    } else if code == 0x19 {
        "<NAME_MAG>"
    } else if code == 0x1A {
        "<NICK_CRO>"
    } else if code == 0x1B {
        "<NAME_PT1>"
    } else if code == 0x1C {
        "<NAME_PT2>"
    } else if code == 0x1D {
        "<NAME_PT3>"
    } else if code == 0x1E {
        "<queen name>"
    } else if code == 0x1F {
        "<result item>"
    } else if code == 0x20 {
        "<NAME_SIL>"
    } else {
        "<UNKNOWN_SPEC>"
    };
    s.push_str(text);
    assert(s@ =~= special_text(code));
    s
}

/// Reads one token of a string and appends its text to `out`; returns whether it ends the string.
fn read_token(words: &Vec<String>, dictionary: bool, data: &mut ByteReader, out: &mut String) -> (stop: bool)
    requires
        token(texts(words@), dictionary, old(data).data@, old(data).pos as int) is Some,
    ensures
        final(data).data@ == old(data).data@,
        ({
            let t = token(texts(words@), dictionary, old(data).data@, old(data).pos as int).unwrap();
            &&& stop == t.0
            &&& final(out)@ == old(out)@ + t.1
            &&& final(data).pos == t.2
        }),
{
    let ghost d = data.data@;
    let ghost p = data.pos as int;
    let value = data.read_u8();
    if value == 0 {
        assert(out@ =~= old(out)@ + Seq::<char>::empty());
        true
    } else if value == 1 || value == 2 {
        let c = parse_character(data.read_u8());
        out.push_str(c.as_str());
        false
    } else if value == 3 {
        let delay = data.read_u8();
        if delay == 0 {
            assert(out@ =~= old(out)@ + Seq::<char>::empty());
            return true;
        }
        let b = data.read_u8();
        out.push_str("<WAIT>");
        push_hex(out, b as u64, 2, false);
        out.push_str("</WAIT>");
        assert(out@ =~= old(out)@ + wait_text(b));
        false
    } else if dictionary && 0x21 <= value && value <= DICTIONARY_LENGTH {
        let index = (value - 0x21) as usize;
        proof {
            assert(texts(words@)[index as int] == words@[index as int]@);
        }
        out.push_str(words[index].as_str());
        false
    } else if value >= DICTIONARY_LENGTH {
        let c = parse_character(value);
        out.push_str(c.as_str());
        false
    } else {
        let c = read_special_character(value, data);
        out.push_str(c.as_str());
        false
    }
}

/// Reads a dictionary word of at most `len` tokens.
fn read_word(data: &mut ByteReader, len: usize) -> (s: String)
    requires
        word_text(old(data).data@, old(data).pos as int, len as nat) is Some,
    ensures
        final(data).data@ == old(data).data@,
        s@ == word_text(old(data).data@, old(data).pos as int, len as nat).unwrap().0,
        final(data).pos == word_text(old(data).data@, old(data).pos as int, len as nat).unwrap().1,
{
    let no_words: Vec<String> = Vec::new();
    assert(texts(no_words@) =~= Seq::<Seq<char>>::empty());
    let mut s = String::new();
    let ghost d = data.data@;
    let ghost whole = word_text(d, data.pos as int, len as nat).unwrap();
    let mut i: usize = 0;
    while i < len
        invariant_except_break
            i <= len,
            data.data@ == d,
            texts(no_words@) == Seq::<Seq<char>>::empty(),
            word_text(d, data.pos as int, (len - i) as nat) is Some,
            s@ + word_text(d, data.pos as int, (len - i) as nat).unwrap().0 == whole.0,
            word_text(d, data.pos as int, (len - i) as nat).unwrap().1 == whole.1,
        ensures
            data.data@ == d,
            s@ == whole.0,
            data.pos == whole.1,
        decreases len - i,
    {
        let ghost before = s@;
        let ghost p = data.pos as int;
        let stop = read_token(&no_words, false, data, &mut s);
        if stop {
            assert(s@ =~= before);
            assert(s@ =~= whole.0);
            break;
        }
        i = i + 1;
        assert(s@ + word_text(d, data.pos as int, (len - i) as nat).unwrap().0 =~= whole.0);
    }
    proof {
        if i == len {
            assert(s@ =~= s@ + Seq::<char>::empty());
        }
    }
    s
}

/// White space in Unicode, as `char::is_whitespace` decides.
fn white_space(c: char) -> (b: bool)
    ensures
        b == is_white_space(c),
{
    let n = c as u32;
    (0x09 <= n && n <= 0x0D) || n == 0x20 || n == 0x85 || n == 0xA0 || n == 0x1680 || (0x2000 <= n
        && n <= 0x200A) || n == 0x2028 || n == 0x2029 || n == 0x202F || n == 0x205F || n == 0x3000
}

} // verus!

verus! {

/// Appends the text of a byte of the 8x8 menu font.
fn push_font8(s: &mut String, b: u8)
    ensures
        final(s)@ == old(s)@ + font8_text(b),
{
    if 0xA0 <= b && b <= 0xED {
        let c = parse_character(b);
        s.push_str(c.as_str());
        return;
    }
    if 0x73 <= b && b <= 0x7C {
        s.push((0x30 + (b - 0x73)) as char);
        assert(final(s)@ =~= old(s)@ + font8_text(b));
        return;
    }
    let text: &str = if b == 0x20 {
        "<BLADE>"
    } else if b == 0x21 {
        "<BOW>"
    } else if b == 0x22 {
        "<GUN>"
    } else if b == 0x23 {
        "<ARM>"
    } else if b == 0x24 {
        "<SWORD>"
    } else if b == 0x25 {
        "<FIST>"
    } else if b == 0x26 {
        "<SCYTHE>"
    } else if b == 0x27 {
        "<HELM>"
    } else if b == 0x28 {
        "<ARMOR>"
    } else if b == 0x29 {
        "<RING>"
    } else if b == 0x2A || b == 0x64 {
        "<H>"
    } else if b == 0x2B || b == 0x65 {
        "<M>"
    } else if b == 0x2C || b == 0x66 {
        "<P>"
    } else if b == 0x2D || b == 0x5F {
        ":"
    } else if b == 0x2E {
        "<SHIELD>"
    } else if b == 0x2F {
        "<STAR>"
    } else if b == 0x5B {
        "<LEFT>"
    } else if b == 0x5C {
        "<RIGHT>"
    } else if b == 0x5D || b == 0xFB {
        "("
    } else if b == 0x5E || b == 0xFC {
        ")"
    } else if b == 0x60 {
        "<HAND1>"
    } else if b == 0x61 {
        "<HAND2>"
    } else if b == 0x62 {
        "<HAND3>"
    } else if b == 0x63 {
        "<HAND4>"
    } else if b == 0x67 {
        "<HP0>"
    } else if b == 0x68 {
        "<HP1>"
    } else if b == 0x69 {
        "<HP2>"
    } else if b == 0x6A {
        "<HP3>"
    } else if b == 0x6B {
        "<HP4>"
    } else if b == 0x6C {
        "<HP5>"
    } else if b == 0x6D {
        "<HP6>"
    } else if b == 0x6E {
        "<HP7>"
    } else if b == 0x6F {
        "<HP8>"
    } else if b == 0x72 || b == 0xF0 {
        "°"
    } else if b == 0x7D {
        "{D}"
    } else if b == 0x7E {
        "{Z}"
    } else if b == 0x7F {
        "{UP}"
    } else if b == 0xEE || b == 0xF2 || b == 0xF3 {
        "#"
    } else if b == 0xEF || b == 0xFF {
        " "
    } else if b == 0xF1 {
        "{A}"
    } else if b == 0xF4 {
        "{L}"
    } else if b == 0xF5 {
        "{R}"
    } else if b == 0xF6 {
        "{H}"
    } else if b == 0xF7 {
        "{M}"
    } else if b == 0xF8 {
        "{P}"
    } else if b == 0xF9 {
        "\u{316}"
    } else if b == 0xFA {
        "{CORNER}"
    } else {
        "¶"
    };
    s.push_str(text);
}

/// Decodes the game's strings with its word dictionary.
pub struct TextDecoder {
    pub words: Vec<String>,
}

impl TextDecoder {
    /// The texts of the dictionary words.
    pub open spec fn word_texts(&self) -> Seq<Seq<char>> {
        texts(self.words@)
    }

    /// Reads a dictionary: a table of `word_count` little-endian pointers relative to `start`,
    /// each to a length byte followed by the word. The reader ends after the last word read.
    pub fn from_cursor(data: &mut ByteReader, word_count: usize, start: u16) -> (decoder: Self)
        requires
            old(data).pos + 2 * word_count <= old(data).data@.len(),
            forall|i: int|
                0 <= i < word_count ==> word_pointer(old(data).data@, old(data).pos as int, start, i)
                    >= 0,
            forall|i: int|
                0 <= i < word_count ==> (#[trigger] stored_word(
                    old(data).data@,
                    word_pointer(old(data).data@, old(data).pos as int, start, i),
                )) is Some,
        ensures
            final(data).data@ == old(data).data@,
            decoder.words@.len() == word_count,
            forall|i: int|
                0 <= i < word_count ==> decoder.word_texts()[i] == stored_word(
                    old(data).data@,
                    word_pointer(old(data).data@, old(data).pos as int, start, i),
                ).unwrap().0,
            word_count == 0 ==> final(data).pos == old(data).pos,
            word_count > 0 ==> final(data).pos == stored_word(
                old(data).data@,
                word_pointer(old(data).data@, old(data).pos as int, start, word_count - 1),
            ).unwrap().1,
    {
        let ghost d = data.data@;
        let ghost base = data.pos as int;
        let mut pointers: Vec<u16> = Vec::with_capacity(word_count);
        let mut i: usize = 0;
        while i < word_count
            invariant
                i <= word_count,
                data.data@ == d,
                data.pos == base + 2 * i,
                base + 2 * word_count <= d.len(),
                pointers@.len() == i,
                forall|k: int| 0 <= k < word_count ==> word_pointer(d, base, start, k) >= 0,
                forall|k: int| 0 <= k < i ==> pointers@[k] == word_pointer(d, base, start, k),
            decreases word_count - i,
        {
            let value = data.read_u16_le();
            assert(word_pointer(d, base, start, i as int) >= 0);
            pointers.push(value - start);
            i = i + 1;
        }
        let mut words: Vec<String> = Vec::with_capacity(word_count);
        let mut j: usize = 0;
        while j < word_count
            invariant
                j <= word_count,
                data.data@ == d,
                pointers@.len() == word_count,
                forall|k: int| 0 <= k < word_count ==> pointers@[k] == word_pointer(d, base, start, k),
                forall|k: int|
                    0 <= k < word_count ==> (#[trigger] stored_word(d, word_pointer(d, base, start, k))) is Some,
                words@.len() == j,
                forall|k: int|
                    0 <= k < j ==> texts(words@)[k] == stored_word(d, word_pointer(d, base, start, k)).unwrap().0,
                j == 0 ==> data.pos == base + 2 * word_count,
                j > 0 ==> data.pos == stored_word(d, word_pointer(d, base, start, j - 1)).unwrap().1,
            decreases word_count - j,
        {
            let pointer = pointers[j];
            assert(stored_word(d, word_pointer(d, base, start, j as int)) is Some);
            data.seek(pointer as usize);
            let len = data.read_u8();
            let word = read_word(data, len as usize);
            assert(word@ == stored_word(d, word_pointer(d, base, start, j as int)).unwrap().0);
            let ghost prior = words@;
            words.push(word);
            proof {
                assert forall|k: int| 0 <= k < j + 1 implies texts(words@)[k] == stored_word(
                    d,
                    word_pointer(d, base, start, k),
                ).unwrap().0 by {
                    assert(texts(words@)[k] == words@[k]@);
                    if k < j {
                        assert(words@[k] == prior[k]);
                        assert(texts(prior)[k] == prior[k]@);
                    }
                }
            }
            j = j + 1;
        }
        proof {
            if word_count == 0 {
                assert(base + 2 * word_count == base);
            }
        }
        TextDecoder { words }
    }

    /// Decodes a dialogue string from the reader up to its end code; the reader ends after it.
    pub fn decode_huffman_string(&self, data: &mut ByteReader) -> (s: String)
        requires
            huffman_text(self.word_texts(), old(data).data@, old(data).pos as int) is Some,
        ensures
            final(data).data@ == old(data).data@,
            s@ == huffman_text(self.word_texts(), old(data).data@, old(data).pos as int).unwrap().0,
            final(data).pos == huffman_text(self.word_texts(), old(data).data@, old(data).pos as int).unwrap().1,
    {
        let ghost d = data.data@;
        let ghost w = self.word_texts();
        let ghost whole = huffman_text(w, d, data.pos as int).unwrap();
        let mut s = String::new();
        loop
            invariant_except_break
                data.data@ == d,
                w == self.word_texts(),
                huffman_text(w, d, data.pos as int) is Some,
                s@ + huffman_text(w, d, data.pos as int).unwrap().0 == whole.0,
                huffman_text(w, d, data.pos as int).unwrap().1 == whole.1,
            ensures
                data.data@ == d,
                s@ == whole.0,
                data.pos == whole.1,
            decreases d.len() - data.pos,
        {
            let ghost before = s@;
            let ghost p = data.pos as int;
            proof {
                lemma_token_advances(w, true, d, p);
            }
            let stop = read_token(&self.words, true, data, &mut s);
            if stop {
                assert(s@ =~= before);
                assert(s@ =~= whole.0);
                break;
            }
            assert(s@ + huffman_text(w, d, data.pos as int).unwrap().0 =~= whole.0);
        }
        s
    }

    /// The text of a string in the 8x8 menu font, without trailing white space.
    pub fn decode_mapped_string(&self, data: Vec<u8>) -> (s: String)
        ensures
            s@ == trim_end(font8_concat(data@)),
    {
        let mut full = String::new();
        let mut i: usize = 0;
        while i < data.len()
            invariant
                i <= data@.len(),
                full@ == font8_concat(data@.subrange(0, i as int)),
            decreases data@.len() - i,
        {
            push_font8(&mut full, data[i]);
            assert(data@.subrange(0, i + 1).drop_last() =~= data@.subrange(0, i as int));
            i = i + 1;
        }
        assert(data@.subrange(0, data@.len() as int) =~= data@);
        let text = full.as_str();
        let mut n = text.unicode_len();
        assert(text@.subrange(0, n as int) =~= text@);
        while n > 0
            invariant
                n <= text@.len(),
                text@ == full@,
                trim_end(text@.subrange(0, n as int)) == trim_end(full@),
            ensures
                n <= text@.len(),
                trim_end(text@.subrange(0, n as int)) == trim_end(full@),
                n == 0 || !is_white_space(text@[n - 1]),
            decreases n,
        {
            let c = text.get_char(n - 1);
            if !white_space(c) {
                break;
            }
            assert(text@.subrange(0, n as int).drop_last() =~= text@.subrange(0, n - 1));
            n = n - 1;
        }
        let trimmed = text.substring_char(0, n);
        proof {
            let t = text@.subrange(0, n as int);
            assert(t.len() == 0 || !is_white_space(t.last()));
            assert(trim_end(t) == t);
        }
        trimmed.to_owned()
    }
}


/// Where the token at `pos` ends and whether it ends a text, for text without a dictionary;
/// `None` where the data ends inside it.
fn check_token(data: &Vec<u8>, pos: usize) -> (r: Option<(bool, usize)>)
    ensures
        match r {
            Some((stop, next)) => token(Seq::empty(), false, data@, pos as int) matches Some((s, _t, n)) && s == stop && n == next,
            None => token(Seq::empty(), false, data@, pos as int) is None,
        },
{
    let len = data.len();
    if pos >= len {
        return None;
    }
    let v = data[pos];
    if v == 0 {
        Some((true, pos + 1))
    } else if v == 1 || v == 2 {
        if len - pos >= 2 { Some((false, pos + 2)) } else { None }
    } else if v == 3 {
        if len - pos < 2 {
            None
        } else if data[pos + 1] == 0 {
            Some((true, pos + 2))
        } else if len - pos >= 3 {
            Some((false, pos + 3))
        } else {
            None
        }
    } else if v >= DICTIONARY_LENGTH {
        Some((false, pos + 1))
    } else if v == 0x12 {
        if len - pos >= 2 { Some((false, pos + 2)) } else { None }
    } else {
        Some((false, pos + 1))
    }
}

/// Whether a dictionary word of at most `count` tokens from `pos` lies within the data.
fn check_word(data: &Vec<u8>, pos: usize, count: usize) -> (ok: bool)
    ensures
        ok == word_text(data@, pos as int, count as nat) is Some,
{
    let mut p = pos;
    let mut i: usize = 0;
    while i < count
        invariant
            i <= count,
            (word_text(data@, pos as int, count as nat) is Some) == (word_text(data@, p as int, (count - i) as nat) is Some),
        decreases count - i,
    {
        match check_token(data, p) {
            None => {
                return false;
            },
            Some((stop, next)) => {
                if stop {
                    return true;
                }
                p = next;
            },
        }
        i = i + 1;
    }
    true
}

/// Whether a dictionary of `word_count` words can be read from a pointer table at `pos`, with
/// pointers relative to `start`: the table lies in the data, and each word's pointer is at or
/// after `start` and leads to a word within the data.
pub open spec fn dictionary_readable(data: Seq<u8>, pos: int, word_count: int, start: u16) -> bool {
    &&& pos + 2 * word_count <= data.len()
    &&& forall|i: int| 0 <= i < word_count ==> word_pointer(data, pos, start, i) >= 0
    &&& forall|i: int| 0 <= i < word_count ==> (#[trigger] stored_word(data, word_pointer(data, pos, start, i))) is Some
}

/// Whether a dictionary can be read.
pub fn check_dictionary(data: &Vec<u8>, pos: usize, word_count: usize, start: u16) -> (ok: bool)
    ensures
        ok == dictionary_readable(data@, pos as int, word_count as int, start),
{
    let len = data.len();
    if pos > len || word_count > (len - pos) / 2 {
        return false;
    }
    let mut reader = ByteReader::new(data.clone());
    let mut i: usize = 0;
    while i < word_count
        invariant
            reader.data@ == data@,
            len == data@.len(),
            pos + 2 * word_count <= len,
            i <= word_count,
            forall|k: int| 0 <= k < i ==> word_pointer(data@, pos as int, start, k) >= 0,
            forall|k: int| 0 <= k < i ==> (#[trigger] stored_word(data@, word_pointer(data@, pos as int, start, k))) is Some,
        decreases word_count - i,
    {
        reader.seek(pos + 2 * i);
        let value = reader.read_u16_le();
        if value < start {
            assert(word_pointer(data@, pos as int, start, i as int) < 0);
            return false;
        }
        let p = (value - start) as usize;
        if p >= len {
            assert(stored_word(data@, word_pointer(data@, pos as int, start, i as int)) is None);
            return false;
        }
        let word_len = data[p] as usize;
        if p + 1 > len || !check_word(data, p + 1, word_len) {
            assert(stored_word(data@, word_pointer(data@, pos as int, start, i as int)) is None);
            return false;
        }
        i = i + 1;
    }
    true
}

} // verus!
