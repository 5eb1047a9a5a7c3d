use code_transer::codec::{registry, Encoding};
use code_transer::transcode::{transcode_bytes, transcode_text};

#[test]
fn hello_round_trip_through_gbk() {
    let there = transcode_text("hello", Encoding::Utf8, Encoding::Gbk).unwrap();
    assert_eq!(there, "hello");
    let back = transcode_text(&there, Encoding::Gbk, Encoding::Utf8).unwrap();
    assert_eq!(back, "hello");
}

#[test]
fn empty_input_gives_empty_output_for_every_pair() {
    for from in registry() {
        for to in registry() {
            assert_eq!(transcode_text("", from, to).unwrap(), "");
            assert!(transcode_bytes(&[], from, to).is_empty());
        }
    }
}

#[test]
fn ascii_bytes_survive_every_round_trip() {
    let data = b"Plain ASCII, 123 ~!";
    for s in registry() {
        for t in registry() {
            let there = transcode_bytes(data, s, t);
            let back = transcode_bytes(&there, t, s);
            assert_eq!(back, transcode_bytes(data, s, s));
            assert_eq!(back, data.to_vec());
        }
    }
}

#[test]
fn gbk_bytes_decode_to_utf8() {
    let out = transcode_bytes(&[0xD6, 0xD0, 0xCE, 0xC4], Encoding::Gbk, Encoding::Utf8);
    assert_eq!(out, "中文".as_bytes().to_vec());
}

#[test]
fn utf8_text_encodes_to_gbk_and_big5() {
    let gbk = transcode_bytes("中文".as_bytes(), Encoding::Utf8, Encoding::Gbk);
    assert_eq!(gbk, vec![0xD6, 0xD0, 0xCE, 0xC4]);
    let big5 = transcode_bytes("中文".as_bytes(), Encoding::Utf8, Encoding::Big5);
    assert_eq!(big5, vec![0xA4, 0xA4, 0xA4, 0xE5]);
}

#[test]
fn cjk_round_trip_between_gbk_and_utf8() {
    let gbk = vec![0xD6, 0xD0, 0xCE, 0xC4];
    let utf8 = transcode_bytes(&gbk, Encoding::Gbk, Encoding::Utf8);
    assert_eq!(transcode_bytes(&utf8, Encoding::Utf8, Encoding::Gbk), gbk);
}

#[test]
fn iso_8859_2_letter() {
    let out = transcode_bytes("ł".as_bytes(), Encoding::Utf8, Encoding::Iso88592);
    assert_eq!(out, vec![0xB3]);
    let back = transcode_bytes(&[0xB3], Encoding::Iso88592, Encoding::Utf8);
    assert_eq!(back, "ł".as_bytes().to_vec());
}

#[test]
fn text_mode_reads_converted_bytes_as_utf8() {
    // 'ł' becomes the single byte 0xB3, which is no valid UTF-8.
    let out = transcode_text("ł", Encoding::Utf8, Encoding::Iso88592).unwrap();
    assert_eq!(out, "\u{FFFD}");
}

#[test]
fn invalid_source_bytes_are_replaced_not_rejected() {
    let out = transcode_bytes(&[0x80, b'a'], Encoding::Utf8, Encoding::Utf8);
    assert_eq!(out, vec![0xEF, 0xBF, 0xBD, b'a']);
}

#[test]
fn unrepresentable_characters_become_references() {
    let out = transcode_bytes(&[0x80, b'a'], Encoding::Utf8, Encoding::Gbk);
    assert_eq!(out, b"&#65533;a".to_vec());
}

#[test]
fn transcode_text_never_fails() {
    let inputs = ["", "hello", "中文", "ł", "\u{FFFD}", "emoji \u{1F600}", "\0\u{7f}"];
    for input in inputs {
        for from in registry() {
            for to in registry() {
                assert!(transcode_text(input, from, to).is_ok());
            }
        }
    }
}
