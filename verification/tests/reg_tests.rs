use kugou_dsp::apo::gui::w;
use kugou_dsp::apo::reg::{from_wide, reg_sz_bytes, text_from_reg_bytes, units_from_le_bytes, wide};

fn std_wide(s: &str) -> Vec<u16> {
    s.encode_utf16().chain(std::iter::once(0)).collect()
}

#[test]
fn wide_is_utf16_with_nul() {
    for s in ["", "abc", "酷狗音效", "𝄞 music 🎵", "KuGouAPO Class"] {
        assert_eq!(wide(s), std_wide(s), "input {:?}", s);
        assert_eq!(w(s), std_wide(s));
    }
    assert_eq!(wide("A"), vec![0x41, 0]);
    assert_eq!(wide("𝄞"), vec![0xD834, 0xDD1E, 0]);
}

#[test]
fn from_wide_stops_at_first_nul() {
    assert_eq!(from_wide(&[0x61, 0x62, 0, 0x63]), "ab");
    assert_eq!(from_wide(&[0x61, 0x62]), "ab");
    assert_eq!(from_wide(&[]), "");
    assert_eq!(from_wide(&[0]), "");
}

#[test]
fn from_wide_is_lossy_like_std() {
    let cases: Vec<Vec<u16>> = vec![
        vec![0xD834, 0xDD1E],
        vec![0xD834],
        vec![0xDD1E, 0x41],
        vec![0xD834, 0xD834, 0xDD1E],
        vec![0x41, 0xDC00, 0xD800],
        vec![0xFFFF, 0xE000],
    ];
    for c in cases {
        assert_eq!(from_wide(&c), String::from_utf16_lossy(&c), "input {:x?}", c);
    }
    assert_eq!(from_wide(&[0xD834, 0x41]), "\u{FFFD}A");
}

#[test]
fn wide_roundtrip_without_nul() {
    for s in ["", "abc", "酷狗音效", "𝄞 music 🎵", "{B19D744D-4269-41A5-8361-314020726F10}"] {
        assert_eq!(from_wide(&wide(s)), s);
    }
}

#[test]
fn wide_roundtrip_stops_at_embedded_nul() {
    assert_eq!(from_wide(&wide("ab\0cd")), "ab");
}

#[test]
fn reg_bytes_are_little_endian_units() {
    assert_eq!(units_from_le_bytes(&[0x41, 0x00, 0x34, 0x12, 0x7F]), vec![0x0041, 0x1234]);
    let mut bytes = Vec::new();
    for u in std_wide("默认") {
        bytes.extend_from_slice(&u.to_le_bytes());
    }
    assert_eq!(text_from_reg_bytes(&bytes), "默认");
    assert_eq!(text_from_reg_bytes(&[]), "");
}

#[test]
fn reg_sz_bytes_read_back_as_written() {
    for s in ["", "abc", "{B19D744D-4269-41A5-8361-314020726F10}", "酷狗音效", "𝄞 music 🎵"] {
        let b = reg_sz_bytes(s);
        let expected: Vec<u8> = std_wide(s).iter().flat_map(|u| u.to_le_bytes()).collect();
        assert_eq!(b, expected);
        assert_eq!(text_from_reg_bytes(&b), s);
    }
    assert_eq!(reg_sz_bytes("A"), vec![0x41, 0, 0, 0]);
}
