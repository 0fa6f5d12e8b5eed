//! Reading a response body into the JSON value model.
//!
//! A recursive-descent reader over the characters of the body text,
//! matching its specification [`spec_document`]: one JSON value with
//! nothing but whitespace around it, escapes processed, numbers kept as
//! their tokens, object entries kept in response order.

use vstd::prelude::*;
use crate::error::DecodeError;
use crate::json::{
    chars_to_string, is_digit, jview, lemma_arr_view, lemma_obj_view, str_to_chars, JsonNumber,
    JsonValue, JsonView,
};

verus! {

/// Relies on `char::from_u32`: yields the character with the given code
/// point exactly when that point is a Unicode scalar value.
pub assume_specification[ char::from_u32 ](v: u32) -> (r: Option<char>)
    ensures
        r is Some <==> (v < 0xD800 || (0xE000 <= v && v <= 0x10FFFF)),
        r matches Some(c) ==> c as u32 == v,
;

/// A JSON whitespace character.
pub open spec fn spec_is_ws(c: char) -> bool {
    c == ' ' || c == '\t' || c == '\n' || c == '\r'
}

/// First position at or after `pos` holding no whitespace.
pub open spec fn spec_skip_ws(s: Seq<char>, pos: int) -> int
    decreases s.len() - pos when 0 <= pos <= s.len()
{
    if pos < s.len() && spec_is_ws(s[pos]) {
        spec_skip_ws(s, pos + 1)
    } else {
        pos
    }
}

/// The result of skipping whitespace stays within the text.
pub proof fn lemma_skip_ws_bounds(s: Seq<char>, pos: int)
    requires
        0 <= pos <= s.len(),
    ensures
        pos <= spec_skip_ws(s, pos) <= s.len(),
    decreases s.len() - pos,
{
    if pos < s.len() && spec_is_ws(s[pos]) {
        lemma_skip_ws_bounds(s, pos + 1);
    }
}

/// First position at or after `pos` holding no JSON whitespace,
/// matching [`spec_skip_ws`].
fn skip_ws(cs: &Vec<char>, pos: usize) -> (r: usize)
    requires
        pos <= cs@.len(),
    ensures
        pos <= r <= cs@.len(),
        r == spec_skip_ws(cs@, pos as int),
{
    let n = cs.len();
    let mut i = pos;
    while i < n
        invariant
            pos <= i <= n,
            n == cs@.len(),
            spec_skip_ws(cs@, pos as int) == spec_skip_ws(cs@, i as int),
        decreases n - i,
    {
        let c = cs[i];
        if c == ' ' || c == '\t' || c == '\n' || c == '\r' {
            i += 1;
        } else {
            return i;
        }
    }
    i
}

/// Value of one hexadecimal digit, if any.
pub open spec fn spec_hex_val(c: char) -> Option<int> {
    let u = c as u32;
    if 48 <= u && u <= 57 {
        Some(u - 48)
    } else if 97 <= u && u <= 102 {
        Some(u - 97 + 10)
    } else if 65 <= u && u <= 70 {
        Some(u - 65 + 10)
    } else {
        None
    }
}

/// Value of four hexadecimal digits at `pos`, if they are there.
pub open spec fn spec_hex4(s: Seq<char>, pos: int) -> Option<int> {
    if 0 <= pos && pos + 4 <= s.len() {
        match (spec_hex_val(s[pos]), spec_hex_val(s[pos + 1]), spec_hex_val(s[pos + 2]),
        spec_hex_val(s[pos + 3])) {
            (Some(d0), Some(d1), Some(d2), Some(d3)) => Some(((d0 * 16 + d1) * 16 + d2) * 16 + d3),
            _ => None,
        }
    } else {
        None
    }
}

/// Value of one hexadecimal digit, matching [`spec_hex_val`].
fn hex_val(c: char) -> (r: Option<u32>)
    ensures
        r matches Some(u) ==> u < 16 && spec_hex_val(c) == Some(u as int),
        r is None ==> spec_hex_val(c) is None,
{
    let u = c as u32;
    if 48 <= u && u <= 57 {
        Some(u - 48)
    } else if 97 <= u && u <= 102 {
        Some(u - 97 + 10)
    } else if 65 <= u && u <= 70 {
        Some(u - 65 + 10)
    } else {
        None
    }
}

/// Reads four hexadecimal digits at `pos`, matching [`spec_hex4`].
fn parse_hex4(cs: &Vec<char>, pos: usize) -> (r: Result<u32, usize>)
    requires
        pos <= cs@.len(),
    ensures
        r matches Ok(u) ==> u < 0x10000 && pos + 4 <= cs@.len() && spec_hex4(cs@, pos as int)
            == Some(u as int),
        r matches Err(_) ==> spec_hex4(cs@, pos as int) is None,
{
    let n = cs.len();
    if n - pos < 4 {
        return Err(pos);
    }
    let d0 = match hex_val(cs[pos]) {
        Some(d) => d,
        None => {
            return Err(pos);
        },
    };
    let d1 = match hex_val(cs[pos + 1]) {
        Some(d) => d,
        None => {
            return Err(pos + 1);
        },
    };
    let d2 = match hex_val(cs[pos + 2]) {
        Some(d) => d,
        None => {
            return Err(pos + 2);
        },
    };
    let d3 = match hex_val(cs[pos + 3]) {
        Some(d) => d,
        None => {
            return Err(pos + 3);
        },
    };
    Ok(((d0 * 16 + d1) * 16 + d2) * 16 + d3)
}

/// The character with the given code point.
pub open spec fn char_of(code: u32) -> char {
    choose|c: char| (#[trigger] (c as u32)) == code
}

/// Every character is the character of its own code point.
pub proof fn lemma_char_of(c: char)
    ensures
        char_of(c as u32) == c,
{
    assert(exists|x: char| (#[trigger] (x as u32)) == c as u32) by {
        assert((c as u32) == c as u32);
    }
    let w = char_of(c as u32);
    assert(w as u32 == c as u32);
}

/// The rest of a quoted string from `i`, with the content read so far:
/// the full content and the position after the closing quote.
pub open spec fn spec_string_body(s: Seq<char>, i: int, acc: Seq<char>) -> Option<
    (Seq<char>, int),
>
    decreases s.len() - i when 0 <= i <= s.len()
{
    if i >= s.len() {
        None
    } else {
        let c = s[i];
        if c == '"' {
            Some((acc, i + 1))
        } else if c == '\\' {
            if i + 1 >= s.len() {
                None
            } else {
                let e = s[i + 1];
                if e == '"' || e == '\\' || e == '/' {
                    spec_string_body(s, i + 2, acc.push(e))
                } else if e == 'b' {
                    spec_string_body(s, i + 2, acc.push('\u{0008}'))
                } else if e == 'f' {
                    spec_string_body(s, i + 2, acc.push('\u{000C}'))
                } else if e == 'n' {
                    spec_string_body(s, i + 2, acc.push('\n'))
                } else if e == 'r' {
                    spec_string_body(s, i + 2, acc.push('\r'))
                } else if e == 't' {
                    spec_string_body(s, i + 2, acc.push('\t'))
                } else if e == 'u' {
                    if s.len() - i < 2 {
                        None
                    } else {
                        match spec_hex4(s, i + 2) {
                            None => None,
                            Some(u) => if 0xD800 <= u && u < 0xDC00 {
                                if s.len() - i < 8 {
                                    None
                                } else if s[i + 6] != '\\' || s[i + 7] != 'u' {
                                    None
                                } else {
                                    match spec_hex4(s, i + 8) {
                                        None => None,
                                        Some(u2) => if !(0xDC00 <= u2 && u2 < 0xE000) {
                                            None
                                        } else {
                                            spec_string_body(
                                                s,
                                                i + 12,
                                                acc.push(
                                                    char_of(
                                                        (0x10000 + (u - 0xD800) * 0x400 + (u2
                                                            - 0xDC00)) as u32,
                                                    ),
                                                ),
                                            )
                                        },
                                    }
                                }
                            } else if 0xDC00 <= u && u < 0xE000 {
                                None
                            } else {
                                spec_string_body(s, i + 6, acc.push(char_of(u as u32)))
                            },
                        }
                    }
                } else {
                    None
                }
            }
        } else if (c as u32) < 0x20 {
            None
        } else {
            spec_string_body(s, i + 1, acc.push(c))
        }
    }
}

/// A read string ends past where it started and within the text.
pub proof fn lemma_string_body_bounds(s: Seq<char>, i: int, acc: Seq<char>)
    requires
        0 <= i <= s.len(),
    ensures
        spec_string_body(s, i, acc) matches Some(p) ==> i < p.1 <= s.len(),
    decreases s.len() - i,
{
    if i < s.len() {
        let c = s[i];
        if c == '"' {
        } else if c == '\\' {
            if i + 1 < s.len() {
                let e = s[i + 1];
                if e == '"' || e == '\\' || e == '/' {
                    lemma_string_body_bounds(s, i + 2, acc.push(e));
                } else if e == 'b' {
                    lemma_string_body_bounds(s, i + 2, acc.push('\u{0008}'));
                } else if e == 'f' {
                    lemma_string_body_bounds(s, i + 2, acc.push('\u{000C}'));
                } else if e == 'n' {
                    lemma_string_body_bounds(s, i + 2, acc.push('\n'));
                } else if e == 'r' {
                    lemma_string_body_bounds(s, i + 2, acc.push('\r'));
                } else if e == 't' {
                    lemma_string_body_bounds(s, i + 2, acc.push('\t'));
                } else if e == 'u' && s.len() - i >= 2 {
                    match spec_hex4(s, i + 2) {
                        None => {},
                        Some(u) => {
                            if 0xD800 <= u && u < 0xDC00 {
                                if s.len() - i >= 8 && s[i + 6] == '\\' && s[i + 7] == 'u' {
                                    match spec_hex4(s, i + 8) {
                                        None => {},
                                        Some(u2) => {
                                            if 0xDC00 <= u2 && u2 < 0xE000 {
                                                lemma_string_body_bounds(
                                                    s,
                                                    i + 12,
                                                    acc.push(
                                                        char_of(
                                                            (0x10000 + (u - 0xD800) * 0x400 + (u2
                                                                - 0xDC00)) as u32,
                                                        ),
                                                    ),
                                                );
                                            }
                                        },
                                    }
                                }
                            } else if !(0xDC00 <= u && u < 0xE000) {
                                lemma_string_body_bounds(s, i + 6, acc.push(char_of(u as u32)));
                            }
                        },
                    }
                }
            }
        } else if (c as u32) < 0x20 {
        } else {
            lemma_string_body_bounds(s, i + 1, acc.push(c));
        }
    }
}

/// The quoted string at `pos`: its content and the position after it.
pub open spec fn spec_string_at(s: Seq<char>, pos: int) -> Option<(Seq<char>, int)>
    recommends
        0 <= pos < s.len(),
{
    if s[pos] != '"' {
        None
    } else {
        spec_string_body(s, pos + 1, Seq::empty())
    }
}

/// Reads a quoted string at `pos`, matching [`spec_string_at`].
fn parse_string_at(cs: &Vec<char>, pos: usize) -> (r: Result<(String, usize), usize>)
    requires
        pos < cs@.len(),
    ensures
        r matches Ok(p) ==> pos < p.1 <= cs@.len() && spec_string_at(cs@, pos as int) == Some(
            (p.0@, p.1 as int),
        ),
        r matches Err(_) ==> spec_string_at(cs@, pos as int) is None,
{
    let n = cs.len();
    if cs[pos] != '"' {
        return Err(pos);
    }
    let mut buf: Vec<char> = Vec::new();
    let mut i = pos + 1;
    while i < n
        invariant
            pos < i <= n,
            n == cs@.len(),
            cs@[pos as int] == '"',
            spec_string_body(cs@, pos + 1, Seq::empty()) == spec_string_body(
                cs@,
                i as int,
                buf@,
            ),
        decreases n - i,
    {
        let c = cs[i];
        if c == '"' {
            proof {
                assert(spec_string_body(cs@, i as int, buf@) == Some((buf@, i + 1 as int)));
            }
            return Ok((chars_to_string(&buf), i + 1));
        } else if c == '\\' {
            if i + 1 >= n {
                return Err(i);
            }
            let e = cs[i + 1];
            if e == '"' || e == '\\' || e == '/' {
                buf.push(e);
                i += 2;
            } else if e == 'b' {
                buf.push('\u{0008}');
                i += 2;
            } else if e == 'f' {
                buf.push('\u{000C}');
                i += 2;
            } else if e == 'n' {
                buf.push('\n');
                i += 2;
            } else if e == 'r' {
                buf.push('\r');
                i += 2;
            } else if e == 't' {
                buf.push('\t');
                i += 2;
            } else if e == 'u' {
                if n - i < 2 {
                    return Err(i);
                }
                let u = match parse_hex4(cs, i + 2) {
                    Ok(u) => u,
                    Err(off) => {
                        return Err(off);
                    },
                };
                if 0xD800 <= u && u < 0xDC00 {
                    // A high surrogate must pair with a following low one.
                    if n - i < 8 {
                        return Err(i);
                    }
                    if cs[i + 6] != '\\' || cs[i + 7] != 'u' {
                        return Err(i + 6);
                    }
                    let u2 = match parse_hex4(cs, i + 8) {
                        Ok(u2) => u2,
                        Err(off) => {
                            return Err(off);
                        },
                    };
                    if !(0xDC00 <= u2 && u2 < 0xE000) {
                        return Err(i + 8);
                    }
                    let code = 0x10000 + (u - 0xD800) * 0x400 + (u2 - 0xDC00);
                    match char::from_u32(code) {
                        Some(ch) => {
                            proof {
                                lemma_char_of(ch);
                            }
                            buf.push(ch);
                        },
                        None => {
                            return Err(i);
                        },
                    }
                    i += 12;
                } else if 0xDC00 <= u && u < 0xE000 {
                    return Err(i + 2);
                } else {
                    match char::from_u32(u) {
                        Some(ch) => {
                            proof {
                                lemma_char_of(ch);
                            }
                            buf.push(ch);
                        },
                        None => {
                            return Err(i + 2);
                        },
                    }
                    i += 6;
                }
            } else {
                return Err(i + 1);
            }
        } else if (c as u32) < 0x20 {
            return Err(i);
        } else {
            buf.push(c);
            i += 1;
        }
    }
    Err(i)
}

/// A decimal digit, as the reader sees one.
fn digit_at(cs: &Vec<char>, i: usize) -> (r: bool)
    requires
        i < cs@.len(),
    ensures
        r == is_digit(cs@[i as int]),
{
    let u = cs[i] as u32;
    48 <= u && u <= 57
}

/// First position at or after `pos` holding no decimal digit.
pub open spec fn spec_skip_digits(s: Seq<char>, pos: int) -> int
    decreases s.len() - pos when 0 <= pos <= s.len()
{
    if pos < s.len() && is_digit(s[pos]) {
        spec_skip_digits(s, pos + 1)
    } else {
        pos
    }
}

/// The result of skipping digits stays within the text.
pub proof fn lemma_skip_digits_bounds(s: Seq<char>, pos: int)
    requires
        0 <= pos <= s.len(),
    ensures
        pos <= spec_skip_digits(s, pos) <= s.len(),
    decreases s.len() - pos,
{
    if pos < s.len() && is_digit(s[pos]) {
        lemma_skip_digits_bounds(s, pos + 1);
    }
}

/// End of the optional fraction and exponent of a number token whose
/// integer part ends at `i1`.
pub open spec fn spec_number_tail(s: Seq<char>, i1: int) -> Option<int>
    recommends
        0 <= i1 <= s.len(),
{
    let i2opt = if i1 < s.len() && s[i1] == '.' {
        if i1 + 1 < s.len() && is_digit(s[i1 + 1]) {
            Some(spec_skip_digits(s, i1 + 1))
        } else {
            None
        }
    } else {
        Some(i1)
    };
    match i2opt {
        None => None,
        Some(i2) => if i2 < s.len() && (s[i2] == 'e' || s[i2] == 'E') {
            let i3 = if i2 + 1 < s.len() && (s[i2 + 1] == '+' || s[i2 + 1] == '-') {
                i2 + 2
            } else {
                i2 + 1
            };
            if i3 < s.len() && is_digit(s[i3]) {
                Some(spec_skip_digits(s, i3))
            } else {
                None
            }
        } else {
            Some(i2)
        },
    }
}

/// End of the number token starting at `pos`, if the text holds one.
pub open spec fn spec_number_end(s: Seq<char>, pos: int) -> Option<int>
    recommends
        0 <= pos <= s.len(),
{
    let i0 = if pos < s.len() && s[pos] == '-' {
        pos + 1
    } else {
        pos
    };
    if i0 >= s.len() {
        None
    } else if s[i0] == '0' {
        spec_number_tail(s, i0 + 1)
    } else if is_digit(s[i0]) {
        spec_number_tail(s, spec_skip_digits(s, i0 + 1))
    } else {
        None
    }
}

/// The number token at `pos` and the position after it.
pub open spec fn spec_number_at(s: Seq<char>, pos: int) -> Option<(Seq<char>, int)> {
    match spec_number_end(s, pos) {
        Some(end) => Some((s.subrange(pos, end), end)),
        None => None,
    }
}

/// A number token reaches past its first character and stays within
/// the text.
pub proof fn lemma_number_end_bounds(s: Seq<char>, pos: int)
    requires
        0 <= pos <= s.len(),
    ensures
        spec_number_end(s, pos) matches Some(end) ==> pos < end <= s.len(),
{
    let i0 = if pos < s.len() && s[pos] == '-' {
        pos + 1
    } else {
        pos
    };
    if i0 < s.len() {
        let i1 = if s[i0] == '0' {
            i0 + 1
        } else if is_digit(s[i0]) {
            lemma_skip_digits_bounds(s, i0 + 1);
            spec_skip_digits(s, i0 + 1)
        } else {
            i0 + 1
        };
        if s[i0] == '0' || is_digit(s[i0]) {
            assert(i0 + 1 <= i1 <= s.len() as int);
            if i1 < s.len() && s[i1] == '.' {
                if i1 + 1 < s.len() && is_digit(s[i1 + 1]) {
                    lemma_skip_digits_bounds(s, i1 + 1);
                }
            }
            let t = spec_number_tail(s, i1);
            if t is Some {
                let i2 = if i1 < s.len() && s[i1] == '.' {
                    spec_skip_digits(s, i1 + 1)
                } else {
                    i1
                };
                if i2 < s.len() && (s[i2] == 'e' || s[i2] == 'E') {
                    let i3 = if i2 + 1 < s.len() && (s[i2 + 1] == '+' || s[i2 + 1] == '-') {
                        i2 + 2
                    } else {
                        i2 + 1
                    };
                    if i3 < s.len() && is_digit(s[i3]) {
                        lemma_skip_digits_bounds(s, i3);
                    }
                }
            }
        }
    }
}

/// Reads a number token at `pos`, matching [`spec_number_at`].
fn parse_number_at(cs: &Vec<char>, pos: usize) -> (r: Result<(JsonNumber, usize), usize>)
    requires
        pos < cs@.len(),
    ensures
        r matches Ok(p) ==> pos < p.1 <= cs@.len() && spec_number_at(cs@, pos as int) == Some(
            (p.0@, p.1 as int),
        ),
        r matches Err(_) ==> spec_number_at(cs@, pos as int) is None,
{
    let n = cs.len();
    let mut i = pos;
    if cs[i] == '-' {
        i += 1;
    }
    let ghost i0 = i as int;
    if i >= n {
        return Err(i);
    }
    if cs[i] == '0' {
        i += 1;
    } else if digit_at(cs, i) {
        i += 1;
        while i < n && digit_at(cs, i)
            invariant
                pos < i <= n,
                n == cs@.len(),
                i0 < i,
                spec_skip_digits(cs@, i0 + 1) == spec_skip_digits(cs@, i as int),
            decreases n - i,
        {
            i += 1;
        }
        proof {
            assert(spec_skip_digits(cs@, i as int) == i as int);
        }
    } else {
        return Err(i);
    }
    let ghost i1 = i as int;
    proof {
        assert(i1 == (if cs@[i0] == '0' {
            i0 + 1
        } else {
            spec_skip_digits(cs@, i0 + 1)
        }));
    }
    if i < n && cs[i] == '.' {
        i += 1;
        if i >= n || !digit_at(cs, i) {
            return Err(i);
        }
        while i < n && digit_at(cs, i)
            invariant
                pos < i <= n,
                n == cs@.len(),
                i1 + 1 <= i,
                spec_skip_digits(cs@, i1 + 1) == spec_skip_digits(cs@, i as int),
            decreases n - i,
        {
            i += 1;
        }
        proof {
            assert(spec_skip_digits(cs@, i as int) == i as int);
        }
    }
    let ghost i2 = i as int;
    if i < n && (cs[i] == 'e' || cs[i] == 'E') {
        i += 1;
        if i < n && (cs[i] == '+' || cs[i] == '-') {
            i += 1;
        }
        let ghost i3 = i as int;
        if i >= n || !digit_at(cs, i) {
            return Err(i);
        }
        i += 1;
        while i < n && digit_at(cs, i)
            invariant
                pos < i <= n,
                n == cs@.len(),
                i3 < i,
                spec_skip_digits(cs@, i3) == spec_skip_digits(cs@, i as int),
            decreases n - i,
        {
            i += 1;
        }
        proof {
            assert(spec_skip_digits(cs@, i as int) == i as int);
        }
    }
    proof {
        assert(spec_number_end(cs@, pos as int) == Some(i as int));
    }
    let mut buf: Vec<char> = Vec::new();
    let mut j = pos;
    while j < i
        invariant
            pos <= j <= i <= n,
            n == cs@.len(),
            buf@ == cs@.subrange(pos as int, j as int),
        decreases i - j,
    {
        buf.push(cs[j]);
        proof {
            assert(buf@ =~= cs@.subrange(pos as int, j + 1));
        }
        j += 1;
    }
    Ok((JsonNumber { text: chars_to_string(&buf) }, i))
}

/// Views of parsed array items, in order.
pub open spec fn item_views(items: Seq<JsonValue>) -> Seq<JsonView> {
    Seq::new(items.len(), |i: int| jview(items[i]))
}

/// Views of parsed object entries, in order.
pub open spec fn entry_views(entries: Seq<(String, JsonValue)>) -> Seq<(Seq<char>, JsonView)> {
    Seq::new(entries.len(), |i: int| (entries[i].0@, jview(entries[i].1)))
}

/// One JSON value at `pos`, leading whitespace included: the value and
/// the position after it. The position guards mirror the reader and are
/// identities on any result the reader produces.
pub open spec fn spec_value_at(s: Seq<char>, pos: int) -> Option<(JsonView, int)>
    decreases s.len() - pos, 1int
        when 0 <= pos <= s.len()
{
    let p = clamp_at_least(spec_skip_ws(s, pos), pos, s.len() as int);
    if p >= s.len() {
        None
    } else {
        let c = s[p];
        if c == 'n' {
            if s.len() - p >= 4 && s[p + 1] == 'u' && s[p + 2] == 'l' && s[p + 3] == 'l' {
                Some((JsonView::Null, p + 4))
            } else {
                None
            }
        } else if c == 't' {
            if s.len() - p >= 4 && s[p + 1] == 'r' && s[p + 2] == 'u' && s[p + 3] == 'e' {
                Some((JsonView::Bool(true), p + 4))
            } else {
                None
            }
        } else if c == 'f' {
            if s.len() - p >= 5 && s[p + 1] == 'a' && s[p + 2] == 'l' && s[p + 3] == 's' && s[p + 4]
                == 'e' {
                Some((JsonView::Bool(false), p + 5))
            } else {
                None
            }
        } else if c == '"' {
            match spec_string_at(s, p) {
                Some(q) => Some((JsonView::Str(q.0), q.1)),
                None => None,
            }
        } else if c == '[' {
            let cur = clamp_above(spec_skip_ws(s, p + 1), p, s.len() as int);
            if cur < s.len() && s[cur] == ']' {
                Some((JsonView::Arr(Seq::empty()), cur + 1))
            } else {
                spec_arr_items(s, cur, Seq::empty())
            }
        } else if c == '{' {
            let cur = clamp_above(spec_skip_ws(s, p + 1), p, s.len() as int);
            if cur < s.len() && s[cur] == '}' {
                Some((JsonView::Obj(Seq::empty()), cur + 1))
            } else {
                spec_obj_items(s, cur, Seq::empty())
            }
        } else if c == '-' || is_digit(c) {
            match spec_number_at(s, p) {
                Some(q) => Some((JsonView::Num(q.0), q.1)),
                None => None,
            }
        } else {
            None
        }
    }
}

/// `w` if it lies in `[lo, len]`, else `lo`.
pub open spec fn clamp_at_least(w: int, lo: int, len: int) -> int {
    if lo <= w <= len {
        w
    } else {
        lo
    }
}

/// `w` if it lies in `(lo, len]`, else `lo + 1`.
pub open spec fn clamp_above(w: int, lo: int, len: int) -> int {
    if lo < w <= len {
        w
    } else {
        lo + 1
    }
}

/// The array items from `cur` on, with the items read so far: the
/// finished array value and the position after its closing bracket.
pub open spec fn spec_arr_items(s: Seq<char>, cur: int, acc: Seq<JsonView>) -> Option<
    (JsonView, int),
>
    decreases s.len() - cur, 2int
        when 0 <= cur <= s.len()
{
    if cur >= s.len() {
        None
    } else {
        match spec_value_at(s, cur) {
            None => None,
            Some(q) => {
                let sp = clamp_at_least(spec_skip_ws(s, clamp_at_least(q.1, 0, s.len() as int)), 0, s.len() as int);
                if sp < s.len() && s[sp] == ',' {
                    spec_arr_items(s, clamp_above(sp + 1, cur, s.len() as int), acc.push(q.0))
                } else if sp < s.len() && s[sp] == ']' {
                    Some((JsonView::Arr(acc.push(q.0)), sp + 1))
                } else {
                    None
                }
            },
        }
    }
}

/// The object entries from `cur` on, with the entries read so far: the
/// finished object value and the position after its closing brace.
pub open spec fn spec_obj_items(
    s: Seq<char>,
    cur: int,
    acc: Seq<(Seq<char>, JsonView)>,
) -> Option<(JsonView, int)>
    decreases s.len() - cur, 2int
        when 0 <= cur <= s.len()
{
    if cur >= s.len() {
        None
    } else {
        let ks = clamp_at_least(spec_skip_ws(s, cur), cur, s.len() as int);
        if ks >= s.len() {
            None
        } else {
            match spec_string_at(s, ks) {
                None => None,
                Some(k) => {
                    let cp = clamp_at_least(spec_skip_ws(s, clamp_at_least(k.1, 0, s.len() as int)), cur, s.len() as int);
                    if !(cp < s.len() && s[cp] == ':') {
                        None
                    } else {
                        match spec_value_at(s, cp + 1) {
                            None => None,
                            Some(q) => {
                                let sp = clamp_at_least(
                                    spec_skip_ws(s, clamp_at_least(q.1, 0, s.len() as int)),
                                    0,
                                    s.len() as int,
                                );
                                if sp < s.len() && s[sp] == ',' {
                                    spec_obj_items(
                                        s,
                                        clamp_above(sp + 1, cur, s.len() as int),
                                        acc.push((k.0, q.0)),
                                    )
                                } else if sp < s.len() && s[sp] == '}' {
                                    Some((JsonView::Obj(acc.push((k.0, q.0))), sp + 1))
                                } else {
                                    None
                                }
                            },
                        }
                    }
                },
            }
        }
    }
}

/// A whole document: one value with nothing but whitespace around it.
pub open spec fn spec_document(s: Seq<char>) -> Option<JsonView> {
    match spec_value_at(s, 0) {
        Some(q) => {
            let e = spec_skip_ws(s, clamp_at_least(q.1, 0, s.len() as int));
            if e == s.len() {
                Some(q.0)
            } else {
                None
            }
        },
        None => None,
    }
}

/// Reads one JSON value at `pos`, leading whitespace included,
/// matching [`spec_value_at`].
fn parse_value_at(cs: &Vec<char>, pos: usize) -> (r: Result<(JsonValue, usize), usize>)
    requires
        pos <= cs@.len(),
    ensures
        r matches Ok(p) ==> pos < p.1 <= cs@.len() && spec_value_at(cs@, pos as int) == Some(
            (p.0@, p.1 as int),
        ),
        r matches Err(_) ==> spec_value_at(cs@, pos as int) is None,
    decreases cs@.len() - pos,
{
    let n = cs.len();
    let p = skip_ws(cs, pos);
    if p >= n {
        return Err(p);
    }
    let c = cs[p];
    if c == 'n' {
        if n - p >= 4 && cs[p + 1] == 'u' && cs[p + 2] == 'l' && cs[p + 3] == 'l' {
            Ok((JsonValue::Null, p + 4))
        } else {
            Err(p)
        }
    } else if c == 't' {
        if n - p >= 4 && cs[p + 1] == 'r' && cs[p + 2] == 'u' && cs[p + 3] == 'e' {
            Ok((JsonValue::Bool(true), p + 4))
        } else {
            Err(p)
        }
    } else if c == 'f' {
        if n - p >= 5 && cs[p + 1] == 'a' && cs[p + 2] == 'l' && cs[p + 3] == 's' && cs[p + 4]
            == 'e' {
            Ok((JsonValue::Bool(false), p + 5))
        } else {
            Err(p)
        }
    } else if c == '"' {
        match parse_string_at(cs, p) {
            Ok((out, np)) => Ok((JsonValue::Str(out), np)),
            Err(off) => Err(off),
        }
    } else if c == '[' {
        let mut items: Vec<JsonValue> = Vec::new();
        let mut cur = skip_ws(cs, p + 1);
        if cur < n && cs[cur] == ']' {
            let out = JsonValue::Arr(items);
            proof {
                lemma_arr_view(out->Arr_0);
                assert(out@->Arr_0 =~= Seq::<JsonView>::empty());
                assert(out@ =~= JsonView::Arr(Seq::<JsonView>::empty()));
            }
            return Ok((out, cur + 1));
        }
        proof {
            assert(item_views(items@) =~= Seq::<JsonView>::empty());
            assert(spec_value_at(cs@, pos as int) == spec_arr_items(
                cs@,
                cur as int,
                item_views(items@),
            ));
        }
        loop
            invariant
                pos < cur <= n,
                pos <= cs@.len(),
                n == cs@.len(),
                spec_value_at(cs@, pos as int) == spec_arr_items(
                    cs@,
                    cur as int,
                    item_views(items@),
                ),
            decreases n - cur,
        {
            let ghost avs = item_views(items@);
            let (item, np) = match parse_value_at(cs, cur) {
                Ok(x) => x,
                Err(off) => {
                    return Err(off);
                },
            };
            items.push(item);
            proof {
                assert(item_views(items@) =~= avs.push(item@));
            }
            let sp = skip_ws(cs, np);
            if sp < n && cs[sp] == ',' {
                cur = sp + 1;
            } else if sp < n && cs[sp] == ']' {
                let out = JsonValue::Arr(items);
                proof {
                    lemma_arr_view(out->Arr_0);
                    assert(out@->Arr_0 =~= item_views(out->Arr_0@));
                    assert(out@ =~= JsonView::Arr(item_views(out->Arr_0@)));
                }
                return Ok((out, sp + 1));
            } else {
                return Err(sp);
            }
        }
    } else if c == '{' {
        let mut entries: Vec<(String, JsonValue)> = Vec::new();
        let mut cur = skip_ws(cs, p + 1);
        if cur < n && cs[cur] == '}' {
            let out = JsonValue::Obj(entries);
            proof {
                lemma_obj_view(out->Obj_0);
                assert(out@->Obj_0 =~= Seq::<(Seq<char>, JsonView)>::empty());
                assert(out@ =~= JsonView::Obj(Seq::<(Seq<char>, JsonView)>::empty()));
            }
            return Ok((out, cur + 1));
        }
        proof {
            assert(entry_views(entries@) =~= Seq::<(Seq<char>, JsonView)>::empty());
            assert(spec_value_at(cs@, pos as int) == spec_obj_items(
                cs@,
                cur as int,
                entry_views(entries@),
            ));
        }
        loop
            invariant
                pos < cur <= n,
                pos <= cs@.len(),
                n == cs@.len(),
                spec_value_at(cs@, pos as int) == spec_obj_items(
                    cs@,
                    cur as int,
                    entry_views(entries@),
                ),
            decreases n - cur,
        {
            let ghost evs = entry_views(entries@);
            let ks = skip_ws(cs, cur);
            if ks >= n {
                return Err(ks);
            }
            let (key, kp) = match parse_string_at(cs, ks) {
                Ok(x) => x,
                Err(off) => {
                    return Err(off);
                },
            };
            let cp = skip_ws(cs, kp);
            if !(cp < n && cs[cp] == ':') {
                return Err(cp);
            }
            let (val, vp) = match parse_value_at(cs, cp + 1) {
                Ok(x) => x,
                Err(off) => {
                    return Err(off);
                },
            };
            let ghost vkey = key@;
            let ghost vval = val@;
            entries.push((key, val));
            proof {
                assert(entry_views(entries@) =~= evs.push((vkey, vval)));
            }
            let sp = skip_ws(cs, vp);
            if sp < n && cs[sp] == ',' {
                cur = sp + 1;
            } else if sp < n && cs[sp] == '}' {
                let out = JsonValue::Obj(entries);
                proof {
                    lemma_obj_view(out->Obj_0);
                    assert(out@->Obj_0 =~= entry_views(out->Obj_0@));
                    assert(out@ =~= JsonView::Obj(entry_views(out->Obj_0@)));
                }
                return Ok((out, sp + 1));
            } else {
                return Err(sp);
            }
        }
    } else if c == '-' || digit_at(cs, p) {
        match parse_number_at(cs, p) {
            Ok((num, np)) => Ok((JsonValue::Num(num), np)),
            Err(off) => Err(off),
        }
    } else {
        Err(p)
    }
}

/// Reads a whole response body as one JSON document, matching
/// [`spec_document`]: one value with nothing but whitespace around it.
pub fn parse_json(s: &str) -> (r: Result<JsonValue, DecodeError>)
    ensures
        match r {
            Ok(v) => spec_document(s@) == Some(v@),
            Err(DecodeError::Syntax { .. }) => spec_document(s@) is None,
            Err(_) => false,
        },
{
    let cs = str_to_chars(s);
    match parse_value_at(&cs, 0) {
        Ok((v, p)) => {
            let q = skip_ws(&cs, p);
            if q == cs.len() {
                Ok(v)
            } else {
                Err(DecodeError::Syntax { offset: q })
            }
        },
        Err(off) => Err(DecodeError::Syntax { offset: off }),
    }
}

} // verus!
