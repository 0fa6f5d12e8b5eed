//! The JSON value model that every response body is decoded into.
//!
//! The device answers every request with a JSON document. This module
//! holds the tree representation of such a document together with its
//! mathematical view, the key lookup that every typed decoder builds on,
//! and the numeric readers. A number keeps its literal token text, so a
//! reading is never silently coerced; integer readers succeed exactly on
//! integer tokens whose value fits the target type.

use vstd::prelude::*;
use vstd::string::*;

verus! {

/// A JSON number, kept as its literal token text.
#[derive(Debug, PartialEq)]
pub struct JsonNumber {
    pub text: String,
}

/// One decoded JSON value.
#[derive(Debug, PartialEq)]
pub enum JsonValue {
    Null,
    Bool(bool),
    Num(JsonNumber),
    Str(String),
    Arr(Vec<JsonValue>),
    Obj(Vec<(String, JsonValue)>),
}

/// The mathematical shape of a JSON document: what a [`JsonValue`] is,
/// with every string a sequence of characters and every number its
/// literal token.
#[verifier::ext_equal]
pub ghost enum JsonView {
    Null,
    Bool(bool),
    Num(Seq<char>),
    Str(Seq<char>),
    Arr(Seq<JsonView>),
    Obj(Seq<(Seq<char>, JsonView)>),
}

impl View for JsonNumber {
    type V = Seq<char>;

    open spec fn view(&self) -> Seq<char> {
        self.text@
    }
}

/// The view of a JSON tree.
pub open spec fn jview(v: JsonValue) -> JsonView
    decreases v,
{
    match v {
        JsonValue::Null => JsonView::Null,
        JsonValue::Bool(b) => JsonView::Bool(b),
        JsonValue::Num(n) => JsonView::Num(n.text@),
        JsonValue::Str(s) => JsonView::Str(s@),
        JsonValue::Arr(items) => JsonView::Arr(
            Seq::new(
                items@.len(),
                |i: int|
                    if 0 <= i < items@.len() {
                        jview(items@[i])
                    } else {
                        JsonView::Null
                    },
            ),
        ),
        JsonValue::Obj(entries) => JsonView::Obj(
            Seq::new(
                entries@.len(),
                |i: int|
                    if 0 <= i < entries@.len() {
                        (entries@[i].0@, jview(entries@[i].1))
                    } else {
                        (Seq::empty(), JsonView::Null)
                    },
            ),
        ),
    }
}

impl View for JsonValue {
    type V = JsonView;

    open spec fn view(&self) -> JsonView {
        jview(*self)
    }
}

/// What the view of an array node holds: the views of its items.
pub proof fn lemma_arr_view(items: Vec<JsonValue>)
    ensures
        jview(JsonValue::Arr(items)) matches JsonView::Arr(s) && s.len() == items@.len() && (
        forall|i: int| 0 <= i < items@.len() ==> s[i] == jview(items@[i])),
{
}

/// What the view of an object node holds: keys and views of its entries.
pub proof fn lemma_obj_view(entries: Vec<(String, JsonValue)>)
    ensures
        jview(JsonValue::Obj(entries)) matches JsonView::Obj(s) && s.len() == entries@.len() && (
        forall|i: int|
            0 <= i < entries@.len() ==> s[i] == (entries@[i].0@, jview(entries@[i].1))),
{
}

impl Clone for JsonNumber {
    fn clone(&self) -> (r: Self)
        ensures
            r == *self,
    {
        JsonNumber { text: self.text.clone() }
    }
}

impl Clone for JsonValue {
    /// Deep copy of a whole value tree.
    fn clone(&self) -> (r: Self)
        ensures
            r@ == self@,
        decreases *self,
    {
        match self {
            JsonValue::Null => JsonValue::Null,
            JsonValue::Bool(b) => JsonValue::Bool(*b),
            JsonValue::Num(n) => JsonValue::Num(n.clone()),
            JsonValue::Str(s) => JsonValue::Str(s.clone()),
            JsonValue::Arr(items) => {
                let mut out: Vec<JsonValue> = Vec::new();
                let mut i: usize = 0;
                while i < items.len()
                    invariant
                        i <= items@.len(),
                        out@.len() == i,
                        forall|j: int|
                            0 <= j < i ==> #[trigger] jview(out@[j]) == jview(items@[j]),
                        decreases_to!(*self => *items),
                    decreases items@.len() - i,
                {
                    proof {
                        assert(decreases_to!(*items => items@[i as int]));
                    }
                    out.push(items[i].clone());
                    i += 1;
                }
                proof {
                    lemma_arr_view(out);
                    lemma_arr_view(*items);
                    assert(jview(JsonValue::Arr(out))->Arr_0 =~= jview(*self)->Arr_0);
                }
                let r = JsonValue::Arr(out);
                proof {
                    assert(r@ =~= (*self)@);
                }
                r
            },
            JsonValue::Obj(entries) => {
                let mut out: Vec<(String, JsonValue)> = Vec::new();
                let mut i: usize = 0;
                while i < entries.len()
                    invariant
                        i <= entries@.len(),
                        out@.len() == i,
                        forall|j: int|
                            0 <= j < i ==> out@[j].0@ == entries@[j].0@ && #[trigger] jview(
                                out@[j].1,
                            ) == jview(entries@[j].1),
                        decreases_to!(*self => *entries),
                    decreases entries@.len() - i,
                {
                    proof {
                        assert(decreases_to!(*entries => entries@[i as int]));
                    }
                    let key = entries[i].0.clone();
                    let val = entries[i].1.clone();
                    out.push((key, val));
                    i += 1;
                }
                proof {
                    lemma_obj_view(out);
                    lemma_obj_view(*entries);
                    assert(jview(JsonValue::Obj(out))->Obj_0 =~= jview(*self)->Obj_0);
                }
                let r = JsonValue::Obj(out);
                proof {
                    assert(r@ =~= (*self)@);
                }
                r
            },
        }
    }
}

/// View of an optionally absent number.
pub open spec fn opt_num_view(o: Option<JsonNumber>) -> Option<Seq<char>> {
    match o {
        Some(n) => Some(n@),
        None => None,
    }
}

/// First entry of `entries` whose key is `key`, if any.
pub open spec fn spec_lookup(entries: Seq<(Seq<char>, JsonView)>, key: Seq<char>) -> Option<
    JsonView,
>
    decreases entries.len(),
{
    if entries.len() == 0 {
        None
    } else if entries[0].0 == key {
        Some(entries[0].1)
    } else {
        spec_lookup(entries.drop_first(), key)
    }
}

/// The field `key` of `v`: present only when `v` is an object holding it.
pub open spec fn spec_field(v: JsonView, key: Seq<char>) -> Option<JsonView> {
    match v {
        JsonView::Obj(entries) => spec_lookup(entries, key),
        _ => None,
    }
}

proof fn lemma_lookup_skip(entries: Seq<(Seq<char>, JsonView)>, key: Seq<char>, i: int)
    requires
        0 <= i <= entries.len(),
        forall|j: int| 0 <= j < i ==> #[trigger] entries[j].0 != key,
    ensures
        spec_lookup(entries, key) == spec_lookup(entries.skip(i), key),
    decreases i,
{
    if i > 0 {
        assert(entries.skip(0) =~= entries);
        lemma_lookup_skip(entries.drop_first(), key, i - 1);
        assert(entries.drop_first().skip(i - 1) =~= entries.skip(i));
    } else {
        assert(entries.skip(0) =~= entries);
    }
}

/// Looks the field `key` up in `v`, matching [`spec_field`].
pub fn get_field<'a>(v: &'a JsonValue, key: &str) -> (r: Option<&'a JsonValue>)
    ensures
        match r {
            Some(f) => spec_field(v@, key@) == Some(f@),
            None => spec_field(v@, key@) is None,
        },
{
    match v {
        JsonValue::Obj(entries) => {
            let ghost ventries = v@->Obj_0;
            let mut i: usize = 0;
            while i < entries.len()
                invariant
                    i <= entries@.len(),
                    ventries == jview(*v)->Obj_0,
                    v@ == jview(*v),
                    jview(*v) matches JsonView::Obj(es) && es == ventries,
                    ventries.len() == entries@.len(),
                    forall|j: int|
                        0 <= j < entries@.len() ==> #[trigger] ventries[j] == (
                        entries@[j].0@,
                        jview(entries@[j].1),
                        ),
                    forall|j: int| 0 <= j < i ==> #[trigger] ventries[j].0 != key@,
                decreases entries@.len() - i,
            {
                if str_eq(entries[i].0.as_str(), key) {
                    proof {
                        lemma_lookup_skip(ventries, key@, i as int);
                        assert(ventries.skip(i as int)[0] == ventries[i as int]);
                    }
                    return Some(&entries[i].1);
                }
                i += 1;
            }
            proof {
                lemma_lookup_skip(ventries, key@, i as int);
                assert(ventries.skip(i as int).len() == 0);
            }
            None
        },
        _ => None,
    }
}

/// Characters of a string, for index-based scanning.
pub fn str_to_chars(s: &str) -> (r: Vec<char>)
    ensures
        r@ == s@,
{
    let n = s.unicode_len();
    let mut r: Vec<char> = Vec::new();
    let mut i: usize = 0;
    while i < n
        invariant
            i <= n,
            n == s@.len(),
            r@ == s@.subrange(0, i as int),
        decreases n - i,
    {
        r.push(s.get_char(i));
        proof {
            assert(r@ =~= s@.subrange(0, i + 1));
        }
        i += 1;
    }
    proof {
        assert(r@ =~= s@);
    }
    r
}

/// Relies on `String`'s `FromIterator` over `char` (through `Iterator::collect`):
/// the collected string holds exactly the given characters in order.
#[verifier::external_body]
pub fn chars_to_string(cs: &Vec<char>) -> (r: String)
    ensures
        r@ == cs@,
{
    cs.iter().collect()
}

/// Character-wise string equality.
pub fn str_eq(a: &str, b: &str) -> (r: bool)
    ensures
        r == (a@ == b@),
{
    let an = a.unicode_len();
    let bn = b.unicode_len();
    if an != bn {
        return false;
    }
    let mut i: usize = 0;
    while i < an
        invariant
            i <= an,
            an == a@.len(),
            an == b@.len(),
            forall|j: int| 0 <= j < i ==> a@[j] == b@[j],
        decreases an - i,
    {
        if a.get_char(i) != b.get_char(i) {
            return false;
        }
        i += 1;
    }
    proof {
        assert(a@ =~= b@);
    }
    true
}

/// A decimal digit.
pub open spec fn is_digit(c: char) -> bool {
    48 <= c as u32 && c as u32 <= 57
}

/// Numeric value of a decimal digit.
pub open spec fn digit_val(c: char) -> int {
    c as u32 - 48
}

/// Every character of `s` is a decimal digit.
pub open spec fn all_digits(s: Seq<char>) -> bool {
    forall|i: int| 0 <= i < s.len() ==> is_digit(#[trigger] s[i])
}

/// Value of a sequence of decimal digits, most significant first.
pub open spec fn digits_value(s: Seq<char>) -> int
    decreases s.len(),
{
    if s.len() == 0 {
        0
    } else {
        10 * digits_value(s.drop_last()) + digit_val(s.last())
    }
}

/// The integer a token stands for: an optional minus sign followed by
/// one or more decimal digits, and nothing else.
pub open spec fn spec_int_of(s: Seq<char>) -> Option<int> {
    if s.len() >= 2 && s[0] == '-' && all_digits(s.skip(1)) {
        Some(-digits_value(s.skip(1)))
    } else if s.len() >= 1 && all_digits(s) {
        Some(digits_value(s))
    } else {
        None
    }
}

pub proof fn lemma_digits_nonneg(s: Seq<char>)
    requires
        all_digits(s),
    ensures
        digits_value(s) >= 0,
    decreases s.len(),
{
    if s.len() > 0 {
        assert(forall|i: int| 0 <= i < s.drop_last().len() ==> s.drop_last()[i] == s[i]);
        lemma_digits_nonneg(s.drop_last());
    }
}

/// A digit string is worth at least any of its prefixes.
pub proof fn lemma_digits_prefix(s: Seq<char>, j: int)
    requires
        all_digits(s),
        0 <= j <= s.len(),
    ensures
        digits_value(s.subrange(0, j)) <= digits_value(s),
    decreases s.len() - j,
{
    if j == s.len() {
        assert(s.subrange(0, j) =~= s);
    } else {
        lemma_digits_prefix(s, j + 1);
        let t = s.subrange(0, j + 1);
        assert(t.drop_last() =~= s.subrange(0, j));
        assert(forall|i: int| 0 <= i < t.len() ==> t[i] == s[i]);
        assert(forall|i: int| 0 <= i < s.subrange(0, j).len() ==> s.subrange(0, j)[i] == s[i]);
        lemma_digits_nonneg(s.subrange(0, j));
        assert(digits_value(t) == 10 * digits_value(s.subrange(0, j)) + digit_val(s[j]));
        assert(digit_val(s[j]) >= 0);
    }
}

/// Reads the digits of `cs` from `start` to the end as a `u64`.
fn digits_to_u64(cs: &Vec<char>, start: usize) -> (r: Option<u64>)
    requires
        start <= cs@.len(),
    ensures
        ({
            let s = cs@.skip(start as int);
            match r {
                Some(v) => s.len() >= 1 && all_digits(s) && digits_value(s) == v as int,
                None => !(s.len() >= 1 && all_digits(s) && digits_value(s) <= u64::MAX as int),
            }
        }),
{
    let ghost s = cs@.skip(start as int);
    let n = cs.len();
    if start == n {
        return None;
    }
    let mut acc: u64 = 0;
    let mut i: usize = start;
    while i < n
        invariant
            start <= i <= n,
            n == cs@.len(),
            s == cs@.skip(start as int),
            s.len() == n - start,
            forall|j: int| 0 <= j < s.len() ==> s[j] == cs@[start + j],
            forall|j: int| 0 <= j < i - start ==> is_digit(#[trigger] s[j]),
            acc as int == digits_value(s.subrange(0, i - start)),
        decreases n - i,
    {
        let c = cs[i];
        let u = c as u32;
        if u < 48 || u > 57 {
            proof {
                assert(!is_digit(s[i - start]));
            }
            return None;
        }
        let d = (u - 48) as u64;
        let ghost prefix = s.subrange(0, i - start);
        let ghost next_prefix = s.subrange(0, i + 1 - start);
        proof {
            assert(next_prefix.drop_last() =~= prefix);
            assert(digits_value(next_prefix) == 10 * (acc as int) + d as int);
        }
        let step = match acc.checked_mul(10) {
            Some(m) => m.checked_add(d),
            None => None,
        };
        match step {
            Some(v) => {
                acc = v;
            },
            None => {
                proof {
                    assert(digits_value(next_prefix) > u64::MAX as int);
                    if all_digits(s) {
                        lemma_digits_prefix(s, i + 1 - start);
                    }
                }
                return None;
            },
        }
        i += 1;
    }
    proof {
        assert(s.subrange(0, n - start) =~= s);
    }
    Some(acc)
}

impl JsonNumber {
    /// Reads this number as an unsigned 64-bit integer: succeeds exactly
    /// when the token is an integer in range.
    pub fn as_u64(&self) -> (r: Option<u64>)
        ensures
            r == (match spec_int_of(self@) {
                Some(n) => if 0 <= n <= u64::MAX as int {
                    Some(n as u64)
                } else {
                    None::<u64>
                },
                None => None::<u64>,
            }),
    {
        let cs = str_to_chars(self.text.as_str());
        if cs.len() == 0 {
            return None;
        }
        if cs[0] == '-' {
            proof {
                assert(cs@.skip(1) =~= self@.skip(1));
            }
            match digits_to_u64(&cs, 1) {
                Some(mag) => {
                    proof {
                        lemma_digits_nonneg(cs@.skip(1));
                    }
                    if mag == 0 {
                        Some(0)
                    } else {
                        None
                    }
                },
                None => None,
            }
        } else {
            proof {
                assert(cs@.skip(0) =~= cs@);
            }
            digits_to_u64(&cs, 0)
        }
    }

    /// Reads this number as a signed 64-bit integer: succeeds exactly
    /// when the token is an integer in range.
    pub fn as_i64(&self) -> (r: Option<i64>)
        ensures
            r == (match spec_int_of(self@) {
                Some(n) => if i64::MIN as int <= n <= i64::MAX as int {
                    Some(n as i64)
                } else {
                    None::<i64>
                },
                None => None::<i64>,
            }),
    {
        let cs = str_to_chars(self.text.as_str());
        if cs.len() == 0 {
            return None;
        }
        if cs[0] == '-' {
            proof {
                assert(cs@.skip(1) =~= self@.skip(1));
            }
            match digits_to_u64(&cs, 1) {
                Some(mag) => {
                    proof {
                        lemma_digits_nonneg(cs@.skip(1));
                    }
                    if mag <= 9223372036854775807u64 {
                        Some(-(mag as i64))
                    } else if mag == 9223372036854775808u64 {
                        Some(i64::MIN)
                    } else {
                        None
                    }
                },
                None => None,
            }
        } else {
            proof {
                assert(cs@.skip(0) =~= cs@);
            }
            match digits_to_u64(&cs, 0) {
                Some(mag) => {
                    if mag <= 9223372036854775807u64 {
                        Some(mag as i64)
                    } else {
                        None
                    }
                },
                None => None,
            }
        }
    }

    /// Reads this number as a `u32`.
    pub fn as_u32(&self) -> (r: Option<u32>)
        ensures
            r == (match spec_int_of(self@) {
                Some(n) => if 0 <= n <= u32::MAX as int {
                    Some(n as u32)
                } else {
                    None::<u32>
                },
                None => None::<u32>,
            }),
    {
        match self.as_u64() {
            Some(v) => if v <= u32::MAX as u64 {
                Some(v as u32)
            } else {
                None
            },
            None => None,
        }
    }

    /// Reads this number as a `u8`.
    pub fn as_u8(&self) -> (r: Option<u8>)
        ensures
            r == (match spec_int_of(self@) {
                Some(n) => if 0 <= n <= u8::MAX as int {
                    Some(n as u8)
                } else {
                    None::<u8>
                },
                None => None::<u8>,
            }),
    {
        match self.as_u64() {
            Some(v) => if v <= u8::MAX as u64 {
                Some(v as u8)
            } else {
                None
            },
            None => None,
        }
    }
}

} // verus!
