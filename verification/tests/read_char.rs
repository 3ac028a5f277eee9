// From Wikipedia:
// First code point 	Last code point 	Byte 1 	    Byte 2 	    Byte 3 	    Byte 4
// U+0000 	            U+007F 	            0xxxxxxx
// U+0080 	            U+07FF 	            110xxxxx 	10xxxxxx
// U+0800 	            U+FFFF 	            1110xxxx 	10xxxxxx 	10xxxxxx
// U+10000 	            U+10FFFF    	    11110xxx 	10xxxxxx 	10xxxxxx 	10xxxxxx

use tiger_lang::tokenizer::{read_char, AllUTF8CharReader, ByteReader, ReadError};

fn all_bytes() -> Vec<u8> {
    let mut source = AllUTF8CharReader { pos: 0 };
    let mut bytes = Vec::new();
    let mut buf = [0u8; 4096];
    loop {
        let n = source.read(&mut buf);
        bytes.extend_from_slice(&buf[..n]);
        if n < buf.len() {
            return bytes;
        }
    }
}

#[test]
fn read_char_test() {
    let mut r = ByteReader::new(all_bytes());

    for codepoint in 0..0x11000 {
        let actual_char = read_char(&mut r);
        match char::from_u32(codepoint) {
            Some(c) => {
                let actual_char = actual_char.unwrap();
                let actual_char = actual_char.unwrap();
                assert_eq!(actual_char as u32, c as u32);
            }
            None => match actual_char {
                Some(Ok(c)) => {
                    if c as u32 != 0xe000 {
                        panic!("codepoint {:x} does not return a valid character, but result from stream produced {:x}", codepoint, c as u32)
                    }
                }
                None => (),
                Some(Err(_)) => (),
            },
        }
    }
}

#[test]
fn read_char_reads_every_scalar_value() {
    let mut r = ByteReader::new(all_bytes());
    for codepoint in 0..0x110000u32 {
        let expected = match char::from_u32(codepoint) {
            Some(c) => c,
            None => '\u{e000}',
        };
        assert_eq!(read_char(&mut r), Some(Ok(expected)));
    }
    assert_eq!(read_char(&mut r), None);
    assert_eq!(read_char(&mut r), None);
}

#[test]
fn all_utf8_sequence_matches_std_encoding() {
    let mut expected = Vec::new();
    for codepoint in 0..0x110000u32 {
        let c = char::from_u32(codepoint).unwrap_or('\u{e000}');
        let mut buf = [0u8; 4];
        expected.extend_from_slice(c.encode_utf8(&mut buf).as_bytes());
    }
    let bytes = all_bytes();
    assert_eq!(bytes.len(), 0x42F780);
    assert!(bytes == expected);
    let mut source = AllUTF8CharReader { pos: 0x42F780 };
    assert_eq!(source.next_u8(), None);
    assert_eq!(source.pos, 0x42F780);
}

#[test]
fn all_utf8_read_fills_the_buffer() {
    let mut source = AllUTF8CharReader { pos: 0x7e };
    let mut buf = [0xaau8; 5];
    assert_eq!(source.read(&mut buf), 5);
    assert_eq!(buf, [0x7e, 0x7f, 0xc2, 0x80, 0xc2]);
    assert_eq!(source.pos, 0x83);
    assert_eq!(source.next_u8(), Some(0x81));
    let mut source = AllUTF8CharReader { pos: 0x42F780 - 2 };
    let mut buf = [0xaau8; 5];
    assert_eq!(source.read(&mut buf), 2);
    assert_eq!(buf, [0xbf, 0xbf, 0xaa, 0xaa, 0xaa]);
    assert_eq!(source.read(&mut buf), 0);
    let mut none: [u8; 0] = [];
    assert_eq!(source.read(&mut none), 0);
}

#[test]
fn read_char_empty_input_is_end() {
    let mut r = ByteReader::new(Vec::new());
    assert_eq!(read_char(&mut r), None);
}

#[test]
fn read_char_truncated_sequence_is_an_error() {
    let mut r = ByteReader::new(vec![0xe2, 0x82]);
    assert_eq!(read_char(&mut r), Some(Err(ReadError::UnexpectedEof)));
    assert_eq!(read_char(&mut r), None);
}

#[test]
fn read_char_invalid_sequence_consumes_four_bytes() {
    let mut r = ByteReader::new(vec![0xff, b'a', b'b', b'c', b'd']);
    assert_eq!(read_char(&mut r), Some(Err(ReadError::InvalidData(0xff, b'a', b'b', b'c'))));
    assert_eq!(read_char(&mut r), Some(Ok('d')));
    assert_eq!(read_char(&mut r), None);
}

#[test]
fn read_char_rejects_overlong_and_surrogate() {
    // overlong encoding of '/'
    let mut r = ByteReader::new(vec![0xc0, 0xaf, b'x', b'y']);
    assert_eq!(read_char(&mut r), Some(Err(ReadError::InvalidData(0xc0, 0xaf, b'x', b'y'))));
    // U+D800 encoded as a three-byte sequence
    let mut r = ByteReader::new(vec![0xed, 0xa0, 0x80]);
    assert_eq!(read_char(&mut r), Some(Err(ReadError::UnexpectedEof)));
    // the euro sign
    let mut r = ByteReader::new(vec![0xe2, 0x82, 0xac]);
    assert_eq!(read_char(&mut r), Some(Ok('\u{20ac}')));
}

#[test]
fn read_error_text() {
    assert_eq!(ReadError::UnexpectedEof.to_string(), "incomplete UTF-8 codepoint");
    assert_eq!(
        ReadError::InvalidData(0xff, 0x0a, 0x00, 0x41).to_string(),
        "failed to parse UTF-8 data: ffa041"
    );
}
