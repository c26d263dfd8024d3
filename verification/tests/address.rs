use cloudflare_ddns::address::{chars_of, parse_chars, trim, Ipv4};

fn text_of(chars: &[char]) -> String {
    chars.iter().collect()
}

#[test]
fn new_keeps_the_octets_in_order() {
    let ip = Ipv4::new(203, 0, 113, 7);
    assert_eq!(ip, Ipv4 { a: 203, b: 0, c: 113, d: 7 });
    assert_eq!(ip.octets(), [203, 0, 113, 7]);
}

#[test]
fn parse_reads_a_dotted_address() {
    assert_eq!(Ipv4::parse("203.0.113.7"), Some(Ipv4::new(203, 0, 113, 7)));
    assert_eq!(Ipv4::parse("0.0.0.0"), Some(Ipv4::new(0, 0, 0, 0)));
    assert_eq!(Ipv4::parse("255.255.255.255"), Some(Ipv4::new(255, 255, 255, 255)));
    assert_eq!(Ipv4::parse("1.20.100.9"), Some(Ipv4::new(1, 20, 100, 9)));
    assert_eq!(Ipv4::parse("10.99.199.249"), Some(Ipv4::new(10, 99, 199, 249)));
}

#[test]
fn parse_rejects_leading_zeros() {
    assert_eq!(Ipv4::parse("203.0.113.07"), None);
    assert_eq!(Ipv4::parse("01.2.3.4"), None);
    assert_eq!(Ipv4::parse("1.2.3.00"), None);
    assert_eq!(Ipv4::parse("1.002.3.4"), None);
    assert_eq!(Ipv4::parse("0001.2.3.4"), None);
}

#[test]
fn parse_rejects_octets_above_255() {
    assert_eq!(Ipv4::parse("256.0.0.1"), None);
    assert_eq!(Ipv4::parse("1.2.3.300"), None);
    assert_eq!(Ipv4::parse("1.999.3.4"), None);
    assert_eq!(Ipv4::parse("1.2.3.1000"), None);
    assert_eq!(Ipv4::parse("1.2.3.25500"), None);
}

#[test]
fn parse_rejects_a_wrong_number_of_octets() {
    assert_eq!(Ipv4::parse(""), None);
    assert_eq!(Ipv4::parse("1"), None);
    assert_eq!(Ipv4::parse("1.2.3"), None);
    assert_eq!(Ipv4::parse("1.2.3."), None);
    assert_eq!(Ipv4::parse(".1.2.3"), None);
    assert_eq!(Ipv4::parse("1..2.3"), None);
    assert_eq!(Ipv4::parse("1.2.3.4."), None);
    assert_eq!(Ipv4::parse("1.2.3.4.5"), None);
    assert_eq!(Ipv4::parse("..."), None);
}

#[test]
fn parse_rejects_anything_but_digits_and_dots() {
    assert_eq!(Ipv4::parse(" 1.2.3.4"), None);
    assert_eq!(Ipv4::parse("1.2.3.4 "), None);
    assert_eq!(Ipv4::parse("1.2.3.4\n"), None);
    assert_eq!(Ipv4::parse("1.2. 3.4"), None);
    assert_eq!(Ipv4::parse("1.2.3.4a"), None);
    assert_eq!(Ipv4::parse("a.2.3.4"), None);
    assert_eq!(Ipv4::parse("+1.2.3.4"), None);
    assert_eq!(Ipv4::parse("1.2.3.-4"), None);
    assert_eq!(Ipv4::parse("1,2,3,4"), None);
    assert_eq!(Ipv4::parse("0x1.2.3.4"), None);
    assert_eq!(Ipv4::parse("\u{ff11}.2.3.4"), None);
    assert_eq!(Ipv4::parse("\u{661}.2.3.4"), None);
    assert_eq!(Ipv4::parse("::1"), None);
    assert_eq!(Ipv4::parse("<html>"), None);
}

#[test]
fn parse_trimmed_ignores_white_space_around_the_address() {
    let ip = Some(Ipv4::new(203, 0, 113, 7));
    assert_eq!(Ipv4::parse_trimmed("203.0.113.7"), ip);
    assert_eq!(Ipv4::parse_trimmed("203.0.113.7\n"), ip);
    assert_eq!(Ipv4::parse_trimmed("  \t203.0.113.7 \r\n"), ip);
    assert_eq!(Ipv4::parse_trimmed("\u{a0}203.0.113.7\u{3000}"), ip);
    assert_eq!(Ipv4::parse_trimmed("\u{85}\u{2028}203.0.113.7\u{2003}\u{c}"), ip);
}

#[test]
fn parse_trimmed_rejects_what_is_no_address() {
    assert_eq!(Ipv4::parse_trimmed(""), None);
    assert_eq!(Ipv4::parse_trimmed("   "), None);
    assert_eq!(Ipv4::parse_trimmed("203.0.113.7 x"), None);
    assert_eq!(Ipv4::parse_trimmed("203.0. 113.7"), None);
    assert_eq!(Ipv4::parse_trimmed("ip: 203.0.113.7"), None);
    assert_eq!(Ipv4::parse_trimmed("\u{200b}203.0.113.7"), None);
    assert_eq!(Ipv4::parse_trimmed("203.0.113.7\u{feff}"), None);
    assert_eq!(Ipv4::parse_trimmed("Internal Server Error"), None);
}

#[test]
fn chars_of_lists_every_character() {
    assert_eq!(chars_of(""), Vec::<char>::new());
    assert_eq!(chars_of("a.1"), vec!['a', '.', '1']);
    assert_eq!(chars_of("\u{e9}\u{3000}z"), vec!['\u{e9}', '\u{3000}', 'z']);
}

#[test]
fn trim_removes_white_space_at_both_ends_only() {
    assert_eq!(text_of(&trim("  a b  ")), "a b");
    assert_eq!(text_of(&trim("a b")), "a b");
    assert_eq!(text_of(&trim("\n\ta")), "a");
    assert_eq!(text_of(&trim("a\r\n")), "a");
    assert_eq!(text_of(&trim("")), "");
    assert_eq!(text_of(&trim(" \t\r\n")), "");
    assert_eq!(text_of(&trim("\u{200b} a")), "\u{200b} a");
}

#[test]
fn trim_treats_each_character_as_the_standard_library_does() {
    let mut code: u32 = 0;
    while code <= 0x10FFFF {
        if let Some(c) = char::from_u32(code) {
            let text = format!("{}a{}", c, c);
            assert_eq!(text_of(&trim(&text)), text.trim(), "U+{:04X}", code);
        }
        code += 1;
    }
}

#[test]
fn to_chars_writes_the_dotted_text() {
    assert_eq!(text_of(&Ipv4::new(203, 0, 113, 7).to_chars()), "203.0.113.7");
    assert_eq!(text_of(&Ipv4::new(0, 0, 0, 0).to_chars()), "0.0.0.0");
    assert_eq!(text_of(&Ipv4::new(255, 255, 255, 255).to_chars()), "255.255.255.255");
    assert_eq!(text_of(&Ipv4::new(9, 10, 99, 100).to_chars()), "9.10.99.100");
}

#[test]
fn reading_the_written_text_gives_the_address_back() {
    for octet in 0..=255u8 {
        for other in [0u8, 7, 10, 99, 100, 255] {
            let ip = Ipv4::new(octet, other, 255 - octet, other);
            assert_eq!(parse_chars(&ip.to_chars()), Some(ip));
            let swapped = Ipv4::new(other, octet, other, octet);
            assert_eq!(parse_chars(&swapped.to_chars()), Some(swapped));
        }
    }
}

#[test]
fn an_accepted_text_is_the_written_text_of_its_address() {
    let texts = ["1.2.3.4", "192.168.0.1", "08.1.1.1", "1.1.1", "300.1.1.1", "10.0.0.255", "1.1.1.1 "];
    for text in texts {
        if let Some(ip) = Ipv4::parse(text) {
            assert_eq!(text_of(&ip.to_chars()), text);
        }
    }
    assert_eq!(Ipv4::parse("08.1.1.1"), None);
    assert_eq!(Ipv4::parse("10.0.0.255"), Some(Ipv4::new(10, 0, 0, 255)));
}

#[test]
fn every_text_of_three_characters_in_an_octet_is_judged_by_its_value() {
    let digits = ['0', '1', '2', '5', '6', '9'];
    for x in digits {
        for y in digits {
            for z in digits {
                let octet: String = [x, y, z].iter().collect();
                let text = format!("1.{}.3.4", octet);
                let value = octet.parse::<u32>().unwrap();
                let expected = if x != '0' && value <= 255 {
                    Some(Ipv4::new(1, value as u8, 3, 4))
                } else {
                    None
                };
                assert_eq!(Ipv4::parse(&text), expected, "{}", text);
            }
        }
    }
}
