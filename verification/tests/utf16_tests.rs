use dcerpc::utf16::{clone_to_utf16, clone_to_utf16_le};

#[test]
fn utf16_ascii() {
    assert_eq!(clone_to_utf16("abc", false), vec![97, 98, 99]);
    assert_eq!(clone_to_utf16("abc", true), vec![97, 98, 99, 0]);
    assert_eq!(clone_to_utf16("", true), vec![0]);
}

#[test]
fn utf16_surrogate_pair() {
    assert_eq!(clone_to_utf16("\u{1F600}", false), vec![0xD83D, 0xDE00]);
    assert_eq!(clone_to_utf16("\u{10FFFF}", false), vec![0xDBFF, 0xDFFF]);
    assert_eq!(clone_to_utf16("\u{10000}", false), vec![0xD800, 0xDC00]);
}

#[test]
fn utf16_matches_std() {
    for s in ["", "héllo", "黑风雷", "a\u{1F600}b", "\u{FFFF}\u{10000}", "Zürich – Genève"] {
        let expected: Vec<u16> = s.encode_utf16().collect();
        assert_eq!(clone_to_utf16(s, false), expected);
        let mut with_nul = expected.clone();
        with_nul.push(0);
        assert_eq!(clone_to_utf16(s, true), with_nul);
        assert_eq!(String::from_utf16(&clone_to_utf16(s, false)).unwrap(), s);
    }
}

#[test]
fn utf16_le_bytes() {
    assert_eq!(clone_to_utf16_le("a\u{1F600}", false), vec![0x61, 0x00, 0x3D, 0xD8, 0x00, 0xDE]);
    assert_eq!(clone_to_utf16_le("a", true), vec![0x61, 0x00, 0x00]);
    assert_eq!(clone_to_utf16_le("", true), vec![0x00]);
    for s in ["", "héllo", "黑风雷", "a\u{1F600}b"] {
        let expected: Vec<u8> = s.encode_utf16().flat_map(|c| c.to_le_bytes()).collect();
        assert_eq!(clone_to_utf16_le(s, false), expected);
    }
}

#[test]
fn utf16_le_pairs_match_units() {
    let s = "x\u{20AC}\u{1D11E}";
    let units = clone_to_utf16(s, false);
    let bytes = clone_to_utf16_le(s, false);
    assert_eq!(bytes.len(), 2 * units.len());
    for (i, u) in units.iter().enumerate() {
        assert_eq!(bytes[2 * i] as u16 + 256 * bytes[2 * i + 1] as u16, *u);
    }
}
