//! The head of the engine's answer: the status line, and where the body
//! begins. The body of an answer runs to the end of the connection.

use vstd::prelude::*;

verus! {

/// What the head of a response says.
#[derive(Debug, Clone, Copy, PartialEq, Eq)]
pub struct ResponseHead {
    /// The status code of the status line.
    pub status: u16,
    /// The index of the first byte after the empty line that ends the head.
    pub body_start: usize,
}

/// Whether a byte is a decimal digit.
pub open spec fn is_digit(b: u8) -> bool {
    0x30 <= b <= 0x39
}

/// Whether the four bytes from `i` on are the empty line that ends a head: a
/// line end directly after a line end.
pub open spec fn blank_line_at(bytes: Seq<u8>, i: int) -> bool {
    &&& 0 <= i
    &&& i + 4 <= bytes.len()
    &&& bytes[i] == 0x0d
    &&& bytes[i + 1] == 0x0a
    &&& bytes[i + 2] == 0x0d
    &&& bytes[i + 3] == 0x0a
}

/// Whether the first empty line of `bytes` is at `i`.
pub open spec fn first_blank_line(bytes: Seq<u8>, i: int) -> bool {
    &&& blank_line_at(bytes, i)
    &&& forall|j: int| 0 <= j < i ==> !blank_line_at(bytes, j)
}

/// Whether `bytes` begin with a status line: `HTTP/`, a digit, a dot, a
/// digit, a space, three digits, and then a space or the end of the line.
pub open spec fn starts_with_status_line(bytes: Seq<u8>) -> bool {
    &&& bytes.len() >= 13
    &&& bytes[0] == 0x48
    &&& bytes[1] == 0x54
    &&& bytes[2] == 0x54
    &&& bytes[3] == 0x50
    &&& bytes[4] == 0x2f
    &&& is_digit(bytes[5])
    &&& bytes[6] == 0x2e
    &&& is_digit(bytes[7])
    &&& bytes[8] == 0x20
    &&& is_digit(bytes[9])
    &&& is_digit(bytes[10])
    &&& is_digit(bytes[11])
    &&& (bytes[12] == 0x20 || bytes[12] == 0x0d)
}

/// The status code that the three digits of a status line spell.
pub open spec fn status_code(bytes: Seq<u8>) -> int {
    (bytes[9] - 0x30) * 100 + (bytes[10] - 0x30) * 10 + (bytes[11] - 0x30)
}

/// Finds the first empty line of `bytes`.
pub fn find_blank_line(bytes: &[u8]) -> (r: Option<usize>)
    ensures
        match r {
            Some(i) => first_blank_line(bytes@, i as int),
            None => forall|j: int| !blank_line_at(bytes@, j),
        },
{
    if bytes.len() < 4 {
        return None;
    }
    let mut i: usize = 0;
    while i <= bytes.len() - 4
        invariant
            bytes.len() >= 4,
            forall|j: int| 0 <= j < i ==> !blank_line_at(bytes@, j),
        decreases bytes.len() - i,
    {
        if bytes[i] == 0x0d && bytes[i + 1] == 0x0a && bytes[i + 2] == 0x0d && bytes[i + 3]
            == 0x0a {
            return Some(i);
        }
        i = i + 1;
    }
    None
}

fn digit(b: u8) -> (r: bool)
    ensures
        r == is_digit(b),
{
    0x30 <= b && b <= 0x39
}

/// Reads the head of a response: the status code of its status line, and
/// where its body begins. There is none where the bytes do not begin with a
/// status line or hold no empty line.
pub fn parse_head(bytes: &[u8]) -> (r: Option<ResponseHead>)
    ensures
        match r {
            Some(head) => {
                &&& starts_with_status_line(bytes@)
                &&& head.status == status_code(bytes@)
                &&& head.body_start <= bytes.len()
                &&& first_blank_line(bytes@, head.body_start - 4)
            },
            None => !starts_with_status_line(bytes@) || forall|j: int| !blank_line_at(bytes@, j),
        },
{
    if bytes.len() < 13 {
        return None;
    }
    let prefix = bytes[0] == 0x48 && bytes[1] == 0x54 && bytes[2] == 0x54 && bytes[3] == 0x50
        && bytes[4] == 0x2f;
    let version = digit(bytes[5]) && bytes[6] == 0x2e && digit(bytes[7]) && bytes[8] == 0x20;
    let code = digit(bytes[9]) && digit(bytes[10]) && digit(bytes[11]);
    let end = bytes[12] == 0x20 || bytes[12] == 0x0d;
    if !(prefix && version && code && end) {
        return None;
    }
    let status: u16 = ((bytes[9] - 0x30) as u16) * 100 + ((bytes[10] - 0x30) as u16) * 10 + ((
    bytes[11] - 0x30) as u16);
    match find_blank_line(bytes) {
        Some(i) => Some(ResponseHead { status, body_start: i + 4 }),
        None => None,
    }
}

} // verus!
