//! The values of Rust string and byte-string literals, as written in source
//! text with the escapes that the language defines.
use vstd::prelude::*;

verus! {

/// The value of a hexadecimal digit.
pub open spec fn hex_digit(c: char) -> Option<nat> {
    let u = c as u32;
    if 48 <= u && u <= 57 {
        Some((u - 48) as nat)
    } else if 97 <= u && u <= 102 {
        Some((u - 87) as nat)
    } else if 65 <= u && u <= 70 {
        Some((u - 55) as nat)
    } else {
        None
    }
}

/// The value of a run of hexadecimal digits.
pub open spec fn hex_value(ds: Seq<char>) -> Option<nat>
    decreases ds.len(),
{
    if ds.len() == 0 {
        Some(0)
    } else {
        match (hex_value(ds.drop_last()), hex_digit(ds.last())) {
            (Some(v), Some(d)) => Some(v * 16 + d),
            _ => None,
        }
    }
}

/// The value of a one-character escape (`\n`, `\t`, `\r`, `\0`, `\\`, `\"`,
/// `\'`).
pub open spec fn simple_escape(e: char) -> Option<nat> {
    if e == 'n' {
        Some(10)
    } else if e == 't' {
        Some(9)
    } else if e == 'r' {
        Some(13)
    } else if e == '0' {
        Some(0)
    } else if e == '\\' {
        Some(92)
    } else if e == '"' {
        Some(34)
    } else if e == '\'' {
        Some(39)
    } else {
        None
    }
}

/// The index of the brace that closes a `\u{...}` escape at the start of
/// `body` (one to six digits), searched from `k`; -1 when there is none.
pub open spec fn closing_brace(body: Seq<char>, k: int) -> int
    decreases 10 - k,
{
    if k >= 10 || k >= body.len() {
        -1
    } else if body[k] == '}' {
        k
    } else {
        closing_brace(body, k + 1)
    }
}

pub open spec fn prepend<T>(v: T, rest: Option<Seq<T>>) -> Option<Seq<T>> {
    match rest {
        Some(s) => Some(seq![v] + s),
        None => None,
    }
}

/// The code points that the text between a string literal's quotes stands
/// for, when it is well formed.
pub open spec fn string_body_value(body: Seq<char>) -> Option<Seq<nat>>
    decreases body.len(),
{
    if body.len() == 0 {
        Some(Seq::empty())
    } else if body[0] == '\\' {
        if body.len() < 2 {
            None
        } else if simple_escape(body[1]) is Some {
            prepend(simple_escape(body[1])->Some_0, string_body_value(body.skip(2)))
        } else if body[1] == 'x' {
            if body.len() >= 4 && hex_value(body.subrange(2, 4)) is Some && hex_value(body.subrange(2, 4))->Some_0
                <= 0x7f {
                prepend(hex_value(body.subrange(2, 4))->Some_0, string_body_value(body.skip(4)))
            } else {
                None
            }
        } else if body[1] == 'u' && body.len() >= 5 && body[2] == '{' && 4 <= closing_brace(body, 4) < body.len() {
            let k = closing_brace(body, 4);
            match hex_value(body.subrange(3, k)) {
                Some(v) => prepend(v, string_body_value(body.skip(k + 1))),
                None => None,
            }
        } else {
            None
        }
    } else if body[0] == '"' {
        None
    } else {
        prepend((body[0] as u32) as nat, string_body_value(body.skip(1)))
    }
}

/// The bytes that the text between a byte-string literal's quotes stands for,
/// when it is well formed.
pub open spec fn byte_string_body_value(body: Seq<char>) -> Option<Seq<u8>>
    decreases body.len(),
{
    if body.len() == 0 {
        Some(Seq::empty())
    } else if body[0] == '\\' {
        if body.len() < 2 {
            None
        } else if simple_escape(body[1]) is Some {
            prepend(simple_escape(body[1])->Some_0 as u8, byte_string_body_value(body.skip(2)))
        } else if body[1] == 'x' && body.len() >= 4 && hex_value(body.subrange(2, 4)) is Some {
            prepend(hex_value(body.subrange(2, 4))->Some_0 as u8, byte_string_body_value(body.skip(4)))
        } else {
            None
        }
    } else if body[0] == '"' || body[0] as u32 >= 128 {
        None
    } else {
        prepend(body[0] as u8, byte_string_body_value(body.skip(1)))
    }
}

/// The code points of a string literal's text (`"..."`), when it is one.
pub open spec fn string_literal_value(t: Seq<char>) -> Option<Seq<nat>> {
    if t.len() >= 2 && t[0] == '"' && t.last() == '"' {
        string_body_value(t.subrange(1, t.len() - 1))
    } else {
        None
    }
}

/// The bytes of a byte-string literal's text (`b"..."`), when it is one.
pub open spec fn byte_string_literal_value(t: Seq<char>) -> Option<Seq<u8>> {
    if t.len() >= 3 && t[0] == 'b' && t[1] == '"' && t.last() == '"' {
        byte_string_body_value(t.subrange(2, t.len() - 1))
    } else {
        None
    }
}

/// The code points of a character sequence.
pub open spec fn code_points(s: Seq<char>) -> Seq<nat> {
    s.map_values(|c: char| (c as u32) as nat)
}

} // verus!
