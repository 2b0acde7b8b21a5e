use ctviewer::filesystem::text_decoder::{check_dictionary, TextDecoder};
use ctviewer::reader::ByteReader;

fn dictionary_data() -> Vec<u8> {
    // Two pointers relative to 0x10: words at 4 ("AB", two tokens) and 7 ("C" then an end code).
    vec![0x14, 0x00, 0x17, 0x00, 2, 0xA0, 0xA1, 3, 0xA2, 0x00]
}

#[test]
fn dictionary_words_are_read_through_pointers() {
    let mut r = ByteReader::new(dictionary_data());
    let decoder = TextDecoder::from_cursor(&mut r, 2, 0x10);
    assert_eq!(decoder.words, vec!["AB".to_string(), "C".to_string()]);
    assert!(check_dictionary(&dictionary_data(), 0, 2, 0x10));
    assert!(!check_dictionary(&dictionary_data(), 0, 2, 0x20));
    assert!(!check_dictionary(&dictionary_data(), 0, 6, 0x10));
}

#[test]
fn huffman_strings_expand_dictionary_words() {
    let mut r = ByteReader::new(dictionary_data());
    let decoder = TextDecoder::from_cursor(&mut r, 2, 0x10);
    let mut text = ByteReader::new(vec![0x21, 0xA3, 0x22, 0xD5, 0xDE, 0x00, 0xA0]);
    assert_eq!(decoder.decode_huffman_string(&mut text), "ABDC1!");
    assert_eq!(text.pos, 6);
}

#[test]
fn mapped_strings_drop_trailing_spaces() {
    let decoder = TextDecoder { words: Vec::new() };
    assert_eq!(decoder.decode_mapped_string(vec![0xA0, 0xBA, 0x73, 0x24, 0xEF, 0xFF]), "Aa0<SWORD>");
}
