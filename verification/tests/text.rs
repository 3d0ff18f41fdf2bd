use hanzo_tunnel::text::{before, characters, joined, number_text, pieces, same, trimmed, white_space};

#[test]
fn decimal_numbers() {
    for n in [0, 7, 9, 10, 11, 99, 100, 65535, 18789, u64::MAX - 1, u64::MAX] {
        assert_eq!(number_text(n), n.to_string());
    }
}

#[test]
fn white_space_is_that_of_unicode() {
    for n in 0..=0x10ffff_u32 {
        if let Some(c) = char::from_u32(n) {
            assert_eq!(white_space(c), c.is_whitespace(), "{:x}", n);
        }
    }
}

#[test]
fn trimming_takes_white_space_off_both_ends() {
    for s in ["", " ", "a", " a ", "\t\r\na b\u{3000}", "\u{a0}x", "a\u{200b}"] {
        assert_eq!(trimmed(s), s.trim());
    }
}

#[test]
fn splitting_gives_every_piece() {
    for s in ["", ".", "a", "a.b", "a..b", ".a.", "\u{e9}.\u{1F600}"] {
        let expected: Vec<String> = s.split('.').map(|p| p.to_string()).collect();
        assert_eq!(pieces(s, '.'), expected);
    }
}

#[test]
fn texts_are_ordered_by_code_point() {
    let list = ["", "a", "aa", "ab", "b", "z", "\u{7f}", "\u{80}", "\u{ffff}", "\u{10000}"];
    for a in list {
        for b in list {
            assert_eq!(before(a, b), a < b);
            assert_eq!(same(a, b), a == b);
        }
    }
}

#[test]
fn joining_and_taking_apart() {
    assert_eq!(joined("ab", "c"), "abc");
    assert_eq!(joined("", ""), "");
    assert_eq!(characters("a\u{1F600}"), vec!['a', '\u{1F600}']);
}
