//! IPv4 addresses and their dotted-decimal text.
//!
//! The text of an address is its four octets in decimal, without leading
//! zeros, separated by dots. Reading accepts exactly the texts that writing
//! produces, so every address has one text and every accepted text one
//! address.

use vstd::prelude::*;

verus! {

/// An IPv4 address, given by its four octets from left to right.
#[derive(Clone, Copy, Debug, PartialEq, Eq, Structural)]
pub struct Ipv4 {
    pub a: u8,
    pub b: u8,
    pub c: u8,
    pub d: u8,
}

impl Ipv4 {
    /// The address `a.b.c.d`.
    pub fn new(a: u8, b: u8, c: u8, d: u8) -> (ip: Ipv4)
        ensures
            ip == (Ipv4 { a, b, c, d }),
    {
        Ipv4 { a, b, c, d }
    }

    /// The four octets, from left to right.
    pub fn octets(&self) -> (octets: [u8; 4])
        ensures
            octets@ == seq![self.a, self.b, self.c, self.d],
    {
        [self.a, self.b, self.c, self.d]
    }
}

/// The character that stands for a digit from 0 to 9.
pub open spec fn digit(value: int) -> char {
    (value + '0' as int) as char
}

/// The decimal text of an octet: one to three digits, the first of which is
/// `0` only when it is the only one.
pub open spec fn decimal(octet: u8) -> Seq<char> {
    let value = octet as int;
    if value < 10 {
        seq![digit(value)]
    } else if value < 100 {
        seq![digit(value / 10), digit(value % 10)]
    } else {
        seq![digit(value / 100), digit(value / 10 % 10), digit(value % 10)]
    }
}

/// The dotted-decimal text of an address.
pub open spec fn dotted(ip: Ipv4) -> Seq<char> {
    decimal(ip.a) + seq!['.'] + decimal(ip.b) + seq!['.'] + decimal(ip.c) + seq!['.'] + decimal(
        ip.d,
    )
}

/// The address that a text stands for: the one whose dotted-decimal text it
/// is, if there is one.
pub open spec fn address_of(text: Seq<char>) -> Option<Ipv4> {
    if exists|ip: Ipv4| #[trigger] dotted(ip) == text {
        Some(choose|ip: Ipv4| #[trigger] dotted(ip) == text)
    } else {
        None
    }
}

spec fn digit_at(text: Seq<char>, at: int) -> bool {
    0 <= at < text.len() && '0' <= text[at] <= '9'
}

spec fn value_at(text: Seq<char>, at: int) -> int {
    text[at] as int - '0' as int
}

/// The octet whose decimal text starts at `at` and is not followed by a
/// further digit, with the position after it.
#[verifier::opaque]
spec fn octet_at(text: Seq<char>, at: int) -> Option<(u8, int)> {
    if !digit_at(text, at) {
        None
    } else if !digit_at(text, at + 1) {
        Some((value_at(text, at) as u8, at + 1))
    } else if text[at] == '0' {
        None
    } else if !digit_at(text, at + 2) {
        Some(((10 * value_at(text, at) + value_at(text, at + 1)) as u8, at + 2))
    } else if digit_at(text, at + 3) || 100 * value_at(text, at) + 10 * value_at(text, at + 1)
        + value_at(text, at + 2) > 255 {
        None
    } else {
        Some(
            (
                (100 * value_at(text, at) + 10 * value_at(text, at + 1) + value_at(
                    text,
                    at + 2,
                )) as u8,
                at + 3,
            ),
        )
    }
}

proof fn octet_at_reads_decimal(text: Seq<char>, at: int, octet: u8)
    requires
        0 <= at,
        at + decimal(octet).len() <= text.len(),
        text.subrange(at, at + decimal(octet).len()) == decimal(octet),
        !digit_at(text, at + decimal(octet).len()),
    ensures
        octet_at(text, at) == Some((octet, at + decimal(octet).len())),
{
    reveal(octet_at);
    let d = decimal(octet);
    let part = text.subrange(at, at + d.len());
    assert(part[0] == text[at]);
}

proof fn octet_at_is_decimal(text: Seq<char>, at: int)
    requires
        octet_at(text, at) is Some,
    ensures
        ({
            let (octet, end) = octet_at(text, at)->0;
            &&& 0 <= at < end <= text.len()
            &&& end == at + decimal(octet).len()
            &&& text.subrange(at, end) == decimal(octet)
            &&& !digit_at(text, end)
        }),
{
    reveal(octet_at);
}

proof fn joined_by_dots(
    text: Seq<char>,
    a: Seq<char>,
    b: Seq<char>,
    c: Seq<char>,
    d: Seq<char>,
    end_a: int,
    end_b: int,
    end_c: int,
)
    requires
        0 <= end_a < end_b < end_c < text.len(),
        text.subrange(0, end_a) == a,
        text.subrange(end_a + 1, end_b) == b,
        text.subrange(end_b + 1, end_c) == c,
        text.subrange(end_c + 1, text.len() as int) == d,
        text[end_a] == '.',
        text[end_b] == '.',
        text[end_c] == '.',
    ensures
        text == a + seq!['.'] + b + seq!['.'] + c + seq!['.'] + d,
{
}

spec fn dot_at(text: Seq<char>, at: int) -> bool {
    0 <= at < text.len() && text[at] == '.'
}

/// Reads four octets separated by dots, from the first character to the last.
spec fn read_dotted(text: Seq<char>) -> Option<Ipv4> {
    match octet_at(text, 0) {
        Some((a, end_a)) if dot_at(text, end_a) => match octet_at(text, end_a + 1) {
            Some((b, end_b)) if dot_at(text, end_b) => match octet_at(text, end_b + 1) {
                Some((c, end_c)) if dot_at(text, end_c) => match octet_at(text, end_c + 1) {
                    Some((d, end_d)) if end_d == text.len() => Some(Ipv4 { a, b, c, d }),
                    _ => None,
                },
                _ => None,
            },
            _ => None,
        },
        _ => None,
    }
}

proof fn read_dotted_is_sound(text: Seq<char>)
    requires
        read_dotted(text) is Some,
    ensures
        dotted(read_dotted(text)->0) == text,
{
    let ip = read_dotted(text)->0;
    octet_at_is_decimal(text, 0);
    let (_, end_a) = octet_at(text, 0)->0;
    octet_at_is_decimal(text, end_a + 1);
    let (_, end_b) = octet_at(text, end_a + 1)->0;
    octet_at_is_decimal(text, end_b + 1);
    let (_, end_c) = octet_at(text, end_b + 1)->0;
    octet_at_is_decimal(text, end_c + 1);
    joined_by_dots(
        text,
        decimal(ip.a),
        decimal(ip.b),
        decimal(ip.c),
        decimal(ip.d),
        end_a,
        end_b,
        end_c,
    );
}

proof fn read_dotted_is_complete(ip: Ipv4)
    ensures
        read_dotted(dotted(ip)) == Some(ip),
{
    let text = dotted(ip);
    let end_a = decimal(ip.a).len() as int;
    let end_b = end_a + 1 + decimal(ip.b).len();
    let end_c = end_b + 1 + decimal(ip.c).len();
    let end_d = end_c + 1 + decimal(ip.d).len();
    assert(text.subrange(0, end_a) =~= decimal(ip.a));
    assert(text.subrange(end_a + 1, end_b) =~= decimal(ip.b));
    assert(text.subrange(end_b + 1, end_c) =~= decimal(ip.c));
    assert(text.subrange(end_c + 1, end_d) =~= decimal(ip.d));
    octet_at_reads_decimal(text, 0, ip.a);
    octet_at_reads_decimal(text, end_a + 1, ip.b);
    octet_at_reads_decimal(text, end_b + 1, ip.c);
    octet_at_reads_decimal(text, end_c + 1, ip.d);
}

proof fn read_dotted_is_address_of(text: Seq<char>)
    ensures
        read_dotted(text) == address_of(text),
{
    if exists|ip: Ipv4| #[trigger] dotted(ip) == text {
        let ip = choose|ip: Ipv4| #[trigger] dotted(ip) == text;
        read_dotted_is_complete(ip);
    } else {
        if read_dotted(text) is Some {
            read_dotted_is_sound(text);
        }
    }
}

/// No two addresses have the same text: reading the text of an address gives
/// the address back.
pub proof fn address_of_dotted(ip: Ipv4)
    ensures
        address_of(dotted(ip)) == Some(ip),
{
    read_dotted_is_complete(ip);
    read_dotted_is_address_of(dotted(ip));
}

/// A text that stands for an address is the text of that address, and is
/// between 7 and 15 characters long.
pub proof fn address_of_is_dotted(text: Seq<char>)
    requires
        address_of(text) is Some,
    ensures
        dotted(address_of(text)->0) == text,
        7 <= text.len() <= 15,
{
}

fn digit_value(text: &Vec<char>, at: usize) -> (value: Option<u8>)
    ensures
        value is Some == digit_at(text@, at as int),
        value matches Some(v) ==> v == value_at(text@, at as int) && v <= 9,
{
    if at < text.len() {
        let c = text[at];
        if '0' <= c && c <= '9' {
            return Some((c as u32 - '0' as u32) as u8);
        }
    }
    None
}

fn read_octet(text: &Vec<char>, at: usize) -> (read: Option<(u8, usize)>)
    requires
        at <= text.len(),
    ensures
        match read {
            Some((octet, end)) => octet_at(text@, at as int) == Some((octet, end as int)),
            None => octet_at(text@, at as int) is None,
        },
{
    proof {
        reveal(octet_at);
    }
    let first = match digit_value(text, at) {
        Some(value) => value,
        None => { return None; },
    };
    let second = match digit_value(text, at + 1) {
        Some(value) => value,
        None => { return Some((first, at + 1)); },
    };
    if first == 0 {
        return None;
    }
    let third = match digit_value(text, at + 2) {
        Some(value) => value,
        None => { return Some((10 * first + second, at + 2)); },
    };
    if digit_value(text, at + 3).is_some() {
        return None;
    }
    let value: u16 = 100 * (first as u16) + 10 * (second as u16) + (third as u16);
    if value > 255 {
        None
    } else {
        Some((value as u8, at + 3))
    }
}

/// Reads an octet at `at` and the dot that must follow it, and gives the
/// octet with the position after the dot.
fn read_octet_and_dot(text: &Vec<char>, at: usize) -> (read: Option<(u8, usize)>)
    requires
        at <= text.len(),
    ensures
        match read {
            Some((octet, next)) => next <= text.len() && octet_at(text@, at as int) == Some(
                (octet, next - 1),
            ) && dot_at(text@, next - 1),
            None => octet_at(text@, at as int) matches Some((_, end)) ==> !dot_at(text@, end),
        },
{
    match read_octet(text, at) {
        Some((octet, end)) => {
            proof {
                octet_at_is_decimal(text@, at as int);
            }
            if end < text.len() && text[end] == '.' {
                Some((octet, end + 1))
            } else {
                None
            }
        },
        None => None,
    }
}

/// Reads an address from its dotted-decimal text.
pub fn parse_chars(text: &Vec<char>) -> (ip: Option<Ipv4>)
    ensures
        ip == address_of(text@),
{
    proof {
        read_dotted_is_address_of(text@);
    }
    let (a, after_a) = match read_octet_and_dot(text, 0) {
        Some(read) => read,
        None => { return None; },
    };
    let (b, after_b) = match read_octet_and_dot(text, after_a) {
        Some(read) => read,
        None => { return None; },
    };
    let (c, after_c) = match read_octet_and_dot(text, after_b) {
        Some(read) => read,
        None => { return None; },
    };
    match read_octet(text, after_c) {
        Some((d, end)) => {
            if end == text.len() {
                Some(Ipv4 { a, b, c, d })
            } else {
                None
            }
        },
        None => None,
    }
}

/// White space: the characters with the Unicode property `White_Space`.
pub open spec fn is_whitespace(c: char) -> bool {
    let code = c as u32;
    ||| 0x09 <= code <= 0x0D
    ||| code == 0x20
    ||| code == 0x85
    ||| code == 0xA0
    ||| code == 0x1680
    ||| 0x2000 <= code <= 0x200A
    ||| code == 0x2028
    ||| code == 0x2029
    ||| code == 0x202F
    ||| code == 0x205F
    ||| code == 0x3000
}

/// A text without the white space at its start.
pub open spec fn trim_start(text: Seq<char>) -> Seq<char>
    decreases text.len(),
{
    if text.len() > 0 && is_whitespace(text.first()) {
        trim_start(text.drop_first())
    } else {
        text
    }
}

/// A text without the white space at its end.
pub open spec fn trim_end(text: Seq<char>) -> Seq<char>
    decreases text.len(),
{
    if text.len() > 0 && is_whitespace(text.last()) {
        trim_end(text.drop_last())
    } else {
        text
    }
}

/// A text without the white space at its start and at its end.
pub open spec fn trimmed(text: Seq<char>) -> Seq<char> {
    trim_end(trim_start(text))
}

fn whitespace(c: char) -> (white: bool)
    ensures
        white == is_whitespace(c),
{
    let code = c as u32;
    (0x09 <= code && code <= 0x0D) || code == 0x20 || code == 0x85 || code == 0xA0 || code
        == 0x1680 || (0x2000 <= code && code <= 0x200A) || code == 0x2028 || code == 0x2029
        || code == 0x202F || code == 0x205F || code == 0x3000
}

/// The characters of a text, in order.
pub fn chars_of(text: &str) -> (chars: Vec<char>)
    ensures
        chars@ == text@,
{
    let mut chars: Vec<char> = Vec::new();
    for c in it: text.chars()
        invariant
            chars@ == it.seq().take(it.index() as int),
            it.seq() == text@,
    {
        chars.push(c);
    }
    chars
}

/// The characters of a text that are left when the white space at its start
/// and at its end is taken away.
pub fn trim(text: &str) -> (chars: Vec<char>)
    ensures
        chars@ == trimmed(text@),
{
    let mut chars = chars_of(text);
    let mut start: usize = 0;
    assert(chars@.skip(0) == chars@);
    while start < chars.len() && whitespace(chars[start])
        invariant
            start <= chars.len(),
            trim_start(chars@) == trim_start(chars@.skip(start as int)),
        decreases chars.len() - start,
    {
        assert(chars@.skip(start as int).drop_first() == chars@.skip(start + 1));
        start = start + 1;
    }
    let ghost front = chars@.skip(start as int);
    let mut end: usize = chars.len();
    assert(front.take(end - start) == front);
    while end > start && whitespace(chars[end - 1])
        invariant
            start <= end <= chars.len(),
            front == chars@.skip(start as int),
            trim_end(front) == trim_end(front.take(end - start)),
        decreases end,
    {
        assert(front.take(end - start).drop_last() == front.take(end - start - 1));
        end = end - 1;
    }
    chars.truncate(end);
    let kept = chars.split_off(start);
    kept
}

impl Ipv4 {
    /// Reads an address from its dotted-decimal text. Nothing but that text
    /// is accepted: no white space, no leading zeros, no octet above 255.
    pub fn parse(text: &str) -> (ip: Option<Ipv4>)
        ensures
            ip == address_of(text@),
    {
        let chars = chars_of(text);
        parse_chars(&chars)
    }

    /// Reads an address from a text that may have white space around it.
    pub fn parse_trimmed(text: &str) -> (ip: Option<Ipv4>)
        ensures
            ip == address_of(trimmed(text@)),
    {
        let chars = trim(text);
        parse_chars(&chars)
    }
}

fn digit_char(value: u8) -> (c: char)
    requires
        value <= 9,
    ensures
        c == digit(value as int),
{
    (value + 48) as char
}

fn push_decimal(text: &mut Vec<char>, octet: u8)
    ensures
        final(text)@ == old(text)@ + decimal(octet),
{
    if octet >= 100 {
        text.push(digit_char(octet / 100));
    }
    if octet >= 10 {
        text.push(digit_char(octet / 10 % 10));
    }
    text.push(digit_char(octet % 10));
}

impl Ipv4 {
    /// The dotted-decimal text of the address, character by character.
    pub fn to_chars(&self) -> (text: Vec<char>)
        ensures
            text@ == dotted(*self),
    {
        let mut text: Vec<char> = Vec::new();
        push_decimal(&mut text, self.a);
        text.push('.');
        push_decimal(&mut text, self.b);
        text.push('.');
        push_decimal(&mut text, self.c);
        text.push('.');
        push_decimal(&mut text, self.d);
        text
    }
}

} // verus!
