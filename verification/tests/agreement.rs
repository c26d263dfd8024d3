use cloudflare::endpoints::dns::dns::DnsContent;
use cloudflare_ddns::address::Ipv4;

/// Reads a text as the content of an `A` record of the DNS API.
fn record_content(text: &str) -> Option<Ipv4> {
    let record = DnsContent::A { content: text.parse().ok()? };
    match record {
        DnsContent::A { content } => {
            let [a, b, c, d] = content.octets();
            Some(Ipv4::new(a, b, c, d))
        }
        _ => None,
    }
}

/// Writes an address as the content of an `A` record of the DNS API shows it.
fn record_text(ip: Ipv4) -> String {
    match (DnsContent::A { content: ip.octets().into() }) {
        DnsContent::A { content } => content.to_string(),
        _ => String::new(),
    }
}

#[test]
fn parse_reads_what_an_a_record_reads_on_joined_octets() {
    let parts = [
        "", "0", "1", "9", "00", "01", "10", "99", "100", "199", "255", "256", "999", "0255",
        "1000",
    ];
    for a in parts {
        for b in parts {
            for c in parts {
                for d in parts {
                    let text = format!("{}.{}.{}.{}", a, b, c, d);
                    assert_eq!(Ipv4::parse(&text), record_content(&text), "{}", text);
                }
            }
        }
    }
}

#[test]
fn parse_reads_what_an_a_record_reads_on_short_texts() {
    let alphabet = ['0', '1', '2', '5', '.', ' ', 'a'];
    let mut texts = vec![String::new()];
    let mut from = 0;
    for _ in 0..6 {
        let upto = texts.len();
        for at in from..upto {
            for c in alphabet {
                let mut longer = texts[at].clone();
                longer.push(c);
                texts.push(longer);
            }
        }
        from = upto;
    }
    for text in &texts {
        assert_eq!(Ipv4::parse(text), record_content(text), "{:?}", text);
        let longer = format!("1.{}", text);
        assert_eq!(Ipv4::parse(&longer), record_content(&longer), "{:?}", longer);
    }
}

#[test]
fn parse_trimmed_reads_what_an_a_record_reads_after_trimming() {
    let texts = [
        "203.0.113.7\n",
        " 203.0.113.7",
        "\t203.0.113.07 ",
        "203.0.113.7\u{a0}",
        "203. 0.113.7",
        "\u{200b}203.0.113.7",
        "\r\n",
        "",
    ];
    for text in texts {
        assert_eq!(Ipv4::parse_trimmed(text), record_content(text.trim()), "{:?}", text);
    }
}

#[test]
fn to_chars_writes_what_an_a_record_shows() {
    for octet in 0..=255u8 {
        let ip = Ipv4::new(octet, 255 - octet, octet / 2, octet.wrapping_mul(7));
        let text: String = ip.to_chars().iter().collect();
        assert_eq!(text, record_text(ip));
    }
}
