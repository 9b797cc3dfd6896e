use vstd::prelude::*;
use vstd::string::StrSliceExecFns;
use vstd::string::StringExecFns;

use crate::text::char_from_u32;
use crate::text::str_eq;
use crate::text::string_from_chars;

verus! {

broadcast use
    vstd::std_specs::vec::axiom_vec_index_decreases,
    vstd::std_specs::vec::axiom_vec_decreases_to_view,
    vstd::seq::axiom_seq_index_decreases,
    vstd::seq::axiom_seq_subrange_decreases,
    vstd::utf8::char_u32_cast;

/// A JSON value as read off the wire.  Numbers keep their raw notation: the
/// client never reads a numeric field, it only carries such values through.
#[derive(Debug)]
pub enum JsonValue {
    Null,
    Bool(bool),
    Number(String),
    Text(String),
    Array(Vec<JsonValue>),
    Object(Vec<(String, JsonValue)>),
}

/// The mathematical model of a JSON value.
pub enum Json {
    Null,
    Bool(bool),
    Number(Seq<char>),
    Text(Seq<char>),
    Array(Seq<Json>),
    Object(Seq<(Seq<char>, Json)>),
}

/// The model of a [`JsonValue`].
pub open spec fn json_view(v: JsonValue) -> Json
    decreases v,
{
    match v {
        JsonValue::Null => Json::Null,
        JsonValue::Bool(b) => Json::Bool(b),
        JsonValue::Number(s) => Json::Number(s@),
        JsonValue::Text(s) => Json::Text(s@),
        JsonValue::Array(a) => Json::Array(json_seq_view(a@)),
        JsonValue::Object(m) => Json::Object(json_members_view(m@)),
    }
}

/// The model of a sequence of array elements.
pub open spec fn json_seq_view(s: Seq<JsonValue>) -> Seq<Json>
    decreases s,
{
    if s.len() == 0 {
        Seq::empty()
    } else {
        seq![json_view(s[0])] + json_seq_view(s.subrange(1, s.len() as int))
    }
}

/// The model of a sequence of object members.
pub open spec fn json_members_view(s: Seq<(String, JsonValue)>) -> Seq<(Seq<char>, Json)>
    decreases s,
{
    if s.len() == 0 {
        Seq::empty()
    } else {
        seq![(s[0].0@, json_view(s[0].1))] + json_members_view(s.subrange(1, s.len() as int))
    }
}

impl View for JsonValue {
    type V = Json;

    open spec fn view(&self) -> Json {
        json_view(*self)
    }
}

proof fn lemma_members_view_cons(x: (String, JsonValue), s: Seq<(String, JsonValue)>)
    ensures
        json_members_view(s.insert(0, x)) == seq![(x.0@, json_view(x.1))] + json_members_view(s),
{
    let t = s.insert(0, x);
    assert(t[0] == x);
    assert(t.subrange(1, t.len() as int) =~= s);
}

proof fn lemma_seq_view_cons(x: JsonValue, s: Seq<JsonValue>)
    ensures
        json_seq_view(s.insert(0, x)) == seq![json_view(x)] + json_seq_view(s),
{
    let t = s.insert(0, x);
    assert(t[0] == x);
    assert(t.subrange(1, t.len() as int) =~= s);
}

/// The characters that may separate JSON tokens.
pub open spec fn is_ws(c: char) -> bool {
    c == ' ' || c == '\t' || c == '\n' || c == '\r'
}

/// A decimal digit.
pub open spec fn is_digit(c: char) -> bool {
    48 <= c as u32 && c as u32 <= 57
}

/// The first position at or after `i` that does not hold whitespace.
pub open spec fn spec_skip_ws(s: Seq<char>, i: int) -> int
    decreases s.len() - i,
{
    if 0 <= i && i < s.len() && is_ws(s[i]) {
        spec_skip_ws(s, i + 1)
    } else {
        i
    }
}

/// The character that a backslash escape stands for, if the escape is known.
pub open spec fn spec_escape_char(c: char) -> Option<char> {
    if c == '"' {
        Some('"')
    } else if c == '\\' {
        Some('\\')
    } else if c == '/' {
        Some('/')
    } else if c == 'b' {
        Some('\u{0008}')
    } else if c == 'f' {
        Some('\u{000C}')
    } else if c == 'n' {
        Some('\n')
    } else if c == 'r' {
        Some('\r')
    } else if c == 't' {
        Some('\t')
    } else {
        None
    }
}

/// The value of a hexadecimal digit, in either case.
pub open spec fn spec_hex_val(c: char) -> Option<int> {
    if 48 <= c as u32 && c as u32 <= 57 {
        Some(c as u32 - 48)
    } else if 97 <= c as u32 && c as u32 <= 102 {
        Some(c as u32 - 87)
    } else if 65 <= c as u32 && c as u32 <= 70 {
        Some(c as u32 - 55)
    } else {
        None
    }
}

/// The value of the four hexadecimal digits that start at `i`, if they are
/// there and are all digits.
pub open spec fn spec_hex4(s: Seq<char>, i: int) -> Option<int> {
    if 0 <= i && i + 4 <= s.len() {
        match (spec_hex_val(s[i]), spec_hex_val(s[i + 1]), spec_hex_val(s[i + 2]), spec_hex_val(
            s[i + 3],
        )) {
            (Some(a), Some(b), Some(c), Some(d)) => Some(a * 0x1000 + b * 0x100 + c * 0x10 + d),
            _ => None,
        }
    } else {
        None
    }
}

/// A code unit in the high-surrogate range.
pub open spec fn is_high_surrogate(n: int) -> bool {
    0xD800 <= n && n < 0xDC00
}

/// A code unit in the low-surrogate range.
pub open spec fn is_low_surrogate(n: int) -> bool {
    0xDC00 <= n && n < 0xE000
}

/// Reads the rest of a string literal, starting right after the opening
/// quote: the decoded characters and the position after the closing quote.
/// A `\u` escape holds four hexadecimal digits; a high surrogate must be
/// followed by a `\u` escape with a low surrogate, the pair naming one
/// supplementary character.  Raw control characters, unknown escapes and
/// lone surrogates are refused.
pub open spec fn spec_str_body(s: Seq<char>, i: int) -> Option<(Seq<char>, int)>
    decreases s.len() - i,
{
    if i < 0 || i >= s.len() {
        None
    } else if s[i] == '"' {
        Some((Seq::empty(), i + 1))
    } else if s[i] == '\\' {
        if i + 1 < s.len() {
            if s[i + 1] == 'u' {
                if i + 6 <= s.len() {
                    match spec_hex4(s, i + 2) {
                        Some(n1) => if !is_high_surrogate(n1) && !is_low_surrogate(n1) {
                            match spec_str_body(s, i + 6) {
                                Some((t, j)) => Some((seq![(n1 as u32) as char] + t, j)),
                                None => None,
                            }
                        } else if is_high_surrogate(n1) && i + 12 <= s.len() && s[i + 6] == '\\'
                            && s[i + 7] == 'u' {
                            match spec_hex4(s, i + 8) {
                                Some(n2) => if is_low_surrogate(n2) {
                                    let code = 0x10000 + (n1 - 0xD800) * 0x400 + (n2 - 0xDC00);
                                    match spec_str_body(s, i + 12) {
                                        Some((t, j)) => Some((seq![(code as u32) as char] + t, j)),
                                        None => None,
                                    }
                                } else {
                                    None
                                },
                                None => None,
                            }
                        } else {
                            None
                        },
                        None => None,
                    }
                } else {
                    None
                }
            } else {
                match spec_escape_char(s[i + 1]) {
                    Some(c) => match spec_str_body(s, i + 2) {
                        Some((t, j)) => Some((seq![c] + t, j)),
                        None => None,
                    },
                    None => None,
                }
            }
        } else {
            None
        }
    } else if (s[i] as u32) < 32 {
        None
    } else {
        match spec_str_body(s, i + 1) {
            Some((t, j)) => Some((seq![s[i]] + t, j)),
            None => None,
        }
    }
}

/// The end of the run of decimal digits that starts at `i`.
pub open spec fn spec_digits(s: Seq<char>, i: int) -> int
    decreases s.len() - i,
{
    if 0 <= i && i < s.len() && is_digit(s[i]) {
        spec_digits(s, i + 1)
    } else {
        i
    }
}

/// The end of an optional fraction part starting at `i`.
pub open spec fn spec_frac_end(s: Seq<char>, i: int) -> Option<int> {
    if 0 <= i && i < s.len() && s[i] == '.' {
        if i + 1 < s.len() && is_digit(s[i + 1]) {
            Some(spec_digits(s, i + 1))
        } else {
            None
        }
    } else {
        Some(i)
    }
}

/// The end of an optional exponent part starting at `i`.
pub open spec fn spec_exp_end(s: Seq<char>, i: int) -> Option<int> {
    if 0 <= i && i < s.len() && (s[i] == 'e' || s[i] == 'E') {
        let p = if i + 1 < s.len() && (s[i + 1] == '+' || s[i + 1] == '-') {
            i + 2
        } else {
            i + 1
        };
        if p < s.len() && is_digit(s[p]) {
            Some(spec_digits(s, p))
        } else {
            None
        }
    } else {
        Some(i)
    }
}

/// The end of the number that starts at `i`: an optional minus sign, an
/// integer part without leading zeroes, an optional fraction, an optional
/// exponent.
pub open spec fn spec_number_end(s: Seq<char>, i: int) -> Option<int> {
    if i < 0 || i >= s.len() {
        None
    } else {
        let p = if s[i] == '-' {
            i + 1
        } else {
            i
        };
        if !(p < s.len() && is_digit(s[p])) {
            None
        } else {
            let ie = if s[p] == '0' {
                p + 1
            } else {
                spec_digits(s, p)
            };
            match spec_frac_end(s, ie) {
                Some(fe) => spec_exp_end(s, fe),
                None => None,
            }
        }
    }
}

/// Reads one JSON value that starts exactly at `i`: the value and the
/// position right after it.
pub open spec fn spec_value(s: Seq<char>, i: int) -> Option<(Json, int)>
    decreases s.len() - i, 0int,
{
    if i < 0 || i >= s.len() {
        None
    } else if s[i] == '"' {
        match spec_str_body(s, i + 1) {
            Some((t, j)) => Some((Json::Text(t), j)),
            None => None,
        }
    } else if s[i] == '{' {
        match spec_obj_rest(s, i + 1) {
            Some((m, j)) => Some((Json::Object(m), j)),
            None => None,
        }
    } else if s[i] == '[' {
        match spec_arr_rest(s, i + 1) {
            Some((a, j)) => Some((Json::Array(a), j)),
            None => None,
        }
    } else if s[i] == 't' {
        if i + 4 <= s.len() && s[i + 1] == 'r' && s[i + 2] == 'u' && s[i + 3] == 'e' {
            Some((Json::Bool(true), i + 4))
        } else {
            None
        }
    } else if s[i] == 'f' {
        if i + 5 <= s.len() && s[i + 1] == 'a' && s[i + 2] == 'l' && s[i + 3] == 's' && s[i + 4]
            == 'e' {
            Some((Json::Bool(false), i + 5))
        } else {
            None
        }
    } else if s[i] == 'n' {
        if i + 4 <= s.len() && s[i + 1] == 'u' && s[i + 2] == 'l' && s[i + 3] == 'l' {
            Some((Json::Null, i + 4))
        } else {
            None
        }
    } else if s[i] == '-' || is_digit(s[i]) {
        match spec_number_end(s, i) {
            Some(e) => if i < e && e <= s.len() {
                Some((Json::Number(s.subrange(i, e)), e))
            } else {
                None
            },
            None => None,
        }
    } else {
        None
    }
}

/// Reads one `"key": value` member that starts exactly at `i`.
pub open spec fn spec_member(s: Seq<char>, i: int) -> Option<((Seq<char>, Json), int)>
    decreases s.len() - i, 1int,
{
    if !(0 <= i && i < s.len() && s[i] == '"') {
        None
    } else {
        match spec_str_body(s, i + 1) {
            Some((key, j)) => {
                let m = spec_skip_ws(s, j);
                if !(i < m && m < s.len() && s[m] == ':') {
                    None
                } else {
                    let w = spec_skip_ws(s, m + 1);
                    if !(i < w && w <= s.len()) {
                        None
                    } else {
                        match spec_value(s, w) {
                            Some((v, p)) => Some(((key, v), p)),
                            None => None,
                        }
                    }
                }
            },
            None => None,
        }
    }
}

/// Reads the members of an object, starting right after the opening brace.
pub open spec fn spec_obj_rest(s: Seq<char>, i: int) -> Option<(Seq<(Seq<char>, Json)>, int)>
    decreases s.len() - i, 2int,
{
    let k = spec_skip_ws(s, i);
    if !(i <= k && k < s.len()) {
        None
    } else if s[k] == '}' {
        Some((Seq::empty(), k + 1))
    } else {
        match spec_member(s, k) {
            Some(((key, v), p)) => if !(i < p && p <= s.len()) {
                None
            } else {
                match spec_obj_more(s, p) {
                    Some((rest, e)) => Some((seq![(key, v)] + rest, e)),
                    None => None,
                }
            },
            None => None,
        }
    }
}

/// Reads the members of an object that follow an already-read member.
pub open spec fn spec_obj_more(s: Seq<char>, i: int) -> Option<(Seq<(Seq<char>, Json)>, int)>
    decreases s.len() - i, 3int,
{
    let k = spec_skip_ws(s, i);
    if !(i <= k && k < s.len()) {
        None
    } else if s[k] == '}' {
        Some((Seq::empty(), k + 1))
    } else if s[k] == ',' {
        let w = spec_skip_ws(s, k + 1);
        if !(i < w && w <= s.len()) {
            None
        } else {
            match spec_member(s, w) {
                Some(((key, v), p)) => if !(i < p && p <= s.len()) {
                    None
                } else {
                    match spec_obj_more(s, p) {
                        Some((rest, e)) => Some((seq![(key, v)] + rest, e)),
                        None => None,
                    }
                },
                None => None,
            }
        }
    } else {
        None
    }
}

/// Reads the elements of an array, starting right after the opening bracket.
pub open spec fn spec_arr_rest(s: Seq<char>, i: int) -> Option<(Seq<Json>, int)>
    decreases s.len() - i, 2int,
{
    let k = spec_skip_ws(s, i);
    if !(i <= k && k < s.len()) {
        None
    } else if s[k] == ']' {
        Some((Seq::empty(), k + 1))
    } else {
        match spec_value(s, k) {
            Some((v, p)) => if !(i < p && p <= s.len()) {
                None
            } else {
                match spec_arr_more(s, p) {
                    Some((rest, e)) => Some((seq![v] + rest, e)),
                    None => None,
                }
            },
            None => None,
        }
    }
}

/// Reads the elements of an array that follow an already-read element.
pub open spec fn spec_arr_more(s: Seq<char>, i: int) -> Option<(Seq<Json>, int)>
    decreases s.len() - i, 3int,
{
    let k = spec_skip_ws(s, i);
    if !(i <= k && k < s.len()) {
        None
    } else if s[k] == ']' {
        Some((Seq::empty(), k + 1))
    } else if s[k] == ',' {
        let w = spec_skip_ws(s, k + 1);
        if !(i < w && w <= s.len()) {
            None
        } else {
            match spec_value(s, w) {
                Some((v, p)) => if !(i < p && p <= s.len()) {
                    None
                } else {
                    match spec_arr_more(s, p) {
                        Some((rest, e)) => Some((seq![v] + rest, e)),
                        None => None,
                    }
                },
                None => None,
            }
        }
    } else {
        None
    }
}

/// Reads a whole document: one value, surrounded by nothing but whitespace.
pub open spec fn spec_json(s: Seq<char>) -> Option<Json> {
    match spec_value(s, spec_skip_ws(s, 0)) {
        Some((v, j)) => if spec_skip_ws(s, j) == s.len() {
            Some(v)
        } else {
            None
        },
        None => None,
    }
}

fn skip_ws(s: &str, n: usize, i: usize) -> (r: usize)
    requires
        n == s@.len(),
        i <= n,
    ensures
        r == spec_skip_ws(s@, i as int),
        i <= r <= n,
    decreases n - i,
{
    if i < n {
        let c = s.get_char(i);
        if c == ' ' || c == '\t' || c == '\n' || c == '\r' {
            skip_ws(s, n, i + 1)
        } else {
            i
        }
    } else {
        i
    }
}

fn escape_char(c: char) -> (r: Option<char>)
    ensures
        r == spec_escape_char(c),
{
    if c == '"' {
        Some('"')
    } else if c == '\\' {
        Some('\\')
    } else if c == '/' {
        Some('/')
    } else if c == 'b' {
        Some('\u{0008}')
    } else if c == 'f' {
        Some('\u{000C}')
    } else if c == 'n' {
        Some('\n')
    } else if c == 'r' {
        Some('\r')
    } else if c == 't' {
        Some('\t')
    } else {
        None
    }
}

fn hex_val(c: char) -> (r: Option<u32>)
    ensures
        match r {
            Some(v) => spec_hex_val(c) == Some(v as int) && v < 16,
            None => spec_hex_val(c) is None,
        },
{
    let u = c as u32;
    if 48 <= u && u <= 57 {
        Some(u - 48)
    } else if 97 <= u && u <= 102 {
        Some(u - 87)
    } else if 65 <= u && u <= 70 {
        Some(u - 55)
    } else {
        None
    }
}

fn hex4(s: &str, n: usize, i: usize) -> (r: Option<u32>)
    requires
        n == s@.len(),
        i <= n,
    ensures
        match r {
            Some(v) => spec_hex4(s@, i as int) == Some(v as int) && v < 0x10000,
            None => spec_hex4(s@, i as int) is None,
        },
{
    if n - i >= 4 {
        let a = hex_val(s.get_char(i));
        let b = hex_val(s.get_char(i + 1));
        let c = hex_val(s.get_char(i + 2));
        let d = hex_val(s.get_char(i + 3));
        match (a, b, c, d) {
            (Some(a), Some(b), Some(c), Some(d)) => Some(a * 0x1000 + b * 0x100 + c * 0x10 + d),
            _ => None,
        }
    } else {
        None
    }
}

#[verifier::rlimit(50)]
fn parse_str_body(s: &str, n: usize, i: usize) -> (r: Option<(Vec<char>, usize)>)
    requires
        n == s@.len(),
        i <= n,
    ensures
        match r {
            Some((v, j)) => spec_str_body(s@, i as int) == Some((v@, j as int)) && i < j <= n,
            None => spec_str_body(s@, i as int) is None,
        },
    decreases n - i,
{
    if i >= n {
        return None;
    }
    let c = s.get_char(i);
    if c == '"' {
        Some((Vec::new(), i + 1))
    } else if c == '\\' {
        if n - i >= 2 {
            let c2 = s.get_char(i + 1);
            if c2 == 'u' {
                if n - i >= 6 {
                    match hex4(s, n, i + 2) {
                        Some(n1) => {
                            if !(0xD800 <= n1 && n1 < 0xE000) {
                                let e = char_from_u32(n1).unwrap();
                                proof {
                                    assert(((n1 as int) as u32) == n1);
                                    vstd::utf8::char_u32_cast(e, n1);
                                }
                                match parse_str_body(s, n, i + 6) {
                                    Some((mut v, j)) => {
                                        let ghost tail = v@;
                                        v.insert(0, e);
                                        proof {
                                            assert(v@ =~= seq![e] + tail);
                                        }
                                        Some((v, j))
                                    },
                                    None => None,
                                }
                            } else if n1 < 0xDC00 && n - i >= 12 && s.get_char(i + 6) == '\\'
                                && s.get_char(i + 7) == 'u' {
                                match hex4(s, n, i + 8) {
                                    Some(n2) => {
                                        if 0xDC00 <= n2 && n2 < 0xE000 {
                                            let code = 0x10000 + (n1 - 0xD800) * 0x400 + (n2
                                                - 0xDC00);
                                            let e = char_from_u32(code).unwrap();
                                            proof {
                                                let spec_code = 0x10000 + (n1 as int - 0xD800)
                                                    * 0x400 + (n2 as int - 0xDC00);
                                                assert((spec_code as u32) == code);
                                                vstd::utf8::char_u32_cast(e, code);
                                            }
                                            match parse_str_body(s, n, i + 12) {
                                                Some((mut v, j)) => {
                                                    let ghost tail = v@;
                                                    v.insert(0, e);
                                                    proof {
                                                        assert(v@ =~= seq![e] + tail);
                                                    }
                                                    Some((v, j))
                                                },
                                                None => None,
                                            }
                                        } else {
                                            None
                                        }
                                    },
                                    None => None,
                                }
                            } else {
                                None
                            }
                        },
                        None => None,
                    }
                } else {
                    None
                }
            } else {
                match escape_char(c2) {
                    Some(e) => match parse_str_body(s, n, i + 2) {
                        Some((mut v, j)) => {
                            let ghost tail = v@;
                            v.insert(0, e);
                            proof {
                                assert(v@ =~= seq![e] + tail);
                            }
                            Some((v, j))
                        },
                        None => None,
                    },
                    None => None,
                }
            }
        } else {
            None
        }
    } else if (c as u32) < 32 {
        None
    } else {
        match parse_str_body(s, n, i + 1) {
            Some((mut v, j)) => {
                let ghost tail = v@;
                v.insert(0, c);
                proof {
                    assert(v@ =~= seq![c] + tail);
                }
                Some((v, j))
            },
            None => None,
        }
    }
}

fn digits_end(s: &str, n: usize, i: usize) -> (r: usize)
    requires
        n == s@.len(),
        i <= n,
    ensures
        r == spec_digits(s@, i as int),
        i <= r <= n,
        i < n && is_digit(s@[i as int]) ==> i + 1 <= r,
    decreases n - i,
{
    if i < n {
        let c = s.get_char(i);
        if 48 <= c as u32 && c as u32 <= 57 {
            digits_end(s, n, i + 1)
        } else {
            i
        }
    } else {
        i
    }
}

fn frac_end(s: &str, n: usize, i: usize) -> (r: Option<usize>)
    requires
        n == s@.len(),
        i <= n,
    ensures
        match r {
            Some(e) => spec_frac_end(s@, i as int) == Some(e as int) && i <= e <= n,
            None => spec_frac_end(s@, i as int) is None,
        },
{
    if i < n && s.get_char(i) == '.' {
        if n - i >= 2 {
            let c = s.get_char(i + 1);
            if 48 <= c as u32 && c as u32 <= 57 {
                Some(digits_end(s, n, i + 1))
            } else {
                None
            }
        } else {
            None
        }
    } else {
        Some(i)
    }
}

fn exp_end(s: &str, n: usize, i: usize) -> (r: Option<usize>)
    requires
        n == s@.len(),
        i <= n,
    ensures
        match r {
            Some(e) => spec_exp_end(s@, i as int) == Some(e as int) && i <= e <= n,
            None => spec_exp_end(s@, i as int) is None,
        },
{
    if i < n {
        let c = s.get_char(i);
        if c == 'e' || c == 'E' {
            let p = if n - i >= 2 {
                let c2 = s.get_char(i + 1);
                if c2 == '+' || c2 == '-' {
                    i + 2
                } else {
                    i + 1
                }
            } else {
                i + 1
            };
            if p < n {
                let c3 = s.get_char(p);
                if 48 <= c3 as u32 && c3 as u32 <= 57 {
                    return Some(digits_end(s, n, p));
                }
            }
            None
        } else {
            Some(i)
        }
    } else {
        Some(i)
    }
}

fn number_end(s: &str, n: usize, i: usize) -> (r: Option<usize>)
    requires
        n == s@.len(),
        i <= n,
    ensures
        match r {
            Some(e) => spec_number_end(s@, i as int) == Some(e as int) && i < e <= n,
            None => spec_number_end(s@, i as int) is None,
        },
{
    if i >= n {
        return None;
    }
    let p = if s.get_char(i) == '-' {
        i + 1
    } else {
        i
    };
    if p >= n {
        return None;
    }
    let c = s.get_char(p);
    if !(48 <= c as u32 && c as u32 <= 57) {
        return None;
    }
    let ie = if c == '0' {
        p + 1
    } else {
        digits_end(s, n, p)
    };
    match frac_end(s, n, ie) {
        Some(fe) => exp_end(s, n, fe),
        None => None,
    }
}

fn parse_value(s: &str, n: usize, i: usize) -> (r: Option<(JsonValue, usize)>)
    requires
        n == s@.len(),
        i <= n,
    ensures
        match r {
            Some((v, j)) => spec_value(s@, i as int) == Some((v@, j as int)) && i < j <= n,
            None => spec_value(s@, i as int) is None,
        },
    decreases n - i, 0int,
{
    if i >= n {
        return None;
    }
    let c = s.get_char(i);
    if c == '"' {
        match parse_str_body(s, n, i + 1) {
            Some((v, j)) => Some((JsonValue::Text(string_from_chars(&v)), j)),
            None => None,
        }
    } else if c == '{' {
        match parse_obj_rest(s, n, i + 1) {
            Some((m, j)) => Some((JsonValue::Object(m), j)),
            None => None,
        }
    } else if c == '[' {
        match parse_arr_rest(s, n, i + 1) {
            Some((a, j)) => Some((JsonValue::Array(a), j)),
            None => None,
        }
    } else if c == 't' {
        if n - i >= 4 && s.get_char(i + 1) == 'r' && s.get_char(i + 2) == 'u' && s.get_char(i + 3)
            == 'e' {
            Some((JsonValue::Bool(true), i + 4))
        } else {
            None
        }
    } else if c == 'f' {
        if n - i >= 5 && s.get_char(i + 1) == 'a' && s.get_char(i + 2) == 'l' && s.get_char(i + 3)
            == 's' && s.get_char(i + 4) == 'e' {
            Some((JsonValue::Bool(false), i + 5))
        } else {
            None
        }
    } else if c == 'n' {
        if n - i >= 4 && s.get_char(i + 1) == 'u' && s.get_char(i + 2) == 'l' && s.get_char(i + 3)
            == 'l' {
            Some((JsonValue::Null, i + 4))
        } else {
            None
        }
    } else if c == '-' || (48 <= c as u32 && c as u32 <= 57) {
        match number_end(s, n, i) {
            Some(e) => {
                let raw = s.substring_char(i, e);
                Some((JsonValue::Number(String::from_str(raw)), e))
            },
            None => None,
        }
    } else {
        None
    }
}

fn parse_member(s: &str, n: usize, i: usize) -> (r: Option<((String, JsonValue), usize)>)
    requires
        n == s@.len(),
        i <= n,
    ensures
        match r {
            Some((kv, p)) => spec_member(s@, i as int) == Some(((kv.0@, kv.1@), p as int)) && i < p
                <= n,
            None => spec_member(s@, i as int) is None,
        },
    decreases n - i, 1int,
{
    if i >= n {
        return None;
    }
    if s.get_char(i) != '"' {
        return None;
    }
    match parse_str_body(s, n, i + 1) {
        Some((kv, j)) => {
            let key = string_from_chars(&kv);
            let m = skip_ws(s, n, j);
            if m >= n {
                return None;
            }
            if s.get_char(m) != ':' {
                return None;
            }
            let w = skip_ws(s, n, m + 1);
            match parse_value(s, n, w) {
                Some((v, p)) => Some(((key, v), p)),
                None => None,
            }
        },
        None => None,
    }
}

fn parse_obj_rest(s: &str, n: usize, i: usize) -> (r: Option<(Vec<(String, JsonValue)>, usize)>)
    requires
        n == s@.len(),
        i <= n,
    ensures
        match r {
            Some((v, j)) => spec_obj_rest(s@, i as int) == Some((json_members_view(v@), j as int))
                && i < j <= n,
            None => spec_obj_rest(s@, i as int) is None,
        },
    decreases n - i, 2int,
{
    let k = skip_ws(s, n, i);
    if k >= n {
        return None;
    }
    if s.get_char(k) == '}' {
        return Some((Vec::new(), k + 1));
    }
    match parse_member(s, n, k) {
        Some((kv, p)) => match parse_obj_more(s, n, p) {
            Some((mut rest, e)) => {
                let ghost tail = rest@;
                proof {
                    lemma_members_view_cons(kv, tail);
                }
                rest.insert(0, kv);
                Some((rest, e))
            },
            None => None,
        },
        None => None,
    }
}

fn parse_obj_more(s: &str, n: usize, i: usize) -> (r: Option<(Vec<(String, JsonValue)>, usize)>)
    requires
        n == s@.len(),
        i <= n,
    ensures
        match r {
            Some((v, j)) => spec_obj_more(s@, i as int) == Some((json_members_view(v@), j as int))
                && i < j <= n,
            None => spec_obj_more(s@, i as int) is None,
        },
    decreases n - i, 3int,
{
    let k = skip_ws(s, n, i);
    if k >= n {
        return None;
    }
    let c = s.get_char(k);
    if c == '}' {
        Some((Vec::new(), k + 1))
    } else if c == ',' {
        let w = skip_ws(s, n, k + 1);
        match parse_member(s, n, w) {
            Some((kv, p)) => match parse_obj_more(s, n, p) {
                Some((mut rest, e)) => {
                    let ghost tail = rest@;
                    proof {
                        lemma_members_view_cons(kv, tail);
                    }
                    rest.insert(0, kv);
                    Some((rest, e))
                },
                None => None,
            },
            None => None,
        }
    } else {
        None
    }
}

fn parse_arr_rest(s: &str, n: usize, i: usize) -> (r: Option<(Vec<JsonValue>, usize)>)
    requires
        n == s@.len(),
        i <= n,
    ensures
        match r {
            Some((v, j)) => spec_arr_rest(s@, i as int) == Some((json_seq_view(v@), j as int)) && i
                < j <= n,
            None => spec_arr_rest(s@, i as int) is None,
        },
    decreases n - i, 2int,
{
    let k = skip_ws(s, n, i);
    if k >= n {
        return None;
    }
    if s.get_char(k) == ']' {
        return Some((Vec::new(), k + 1));
    }
    match parse_value(s, n, k) {
        Some((v, p)) => match parse_arr_more(s, n, p) {
            Some((mut rest, e)) => {
                let ghost tail = rest@;
                proof {
                    lemma_seq_view_cons(v, tail);
                }
                rest.insert(0, v);
                Some((rest, e))
            },
            None => None,
        },
        None => None,
    }
}

fn parse_arr_more(s: &str, n: usize, i: usize) -> (r: Option<(Vec<JsonValue>, usize)>)
    requires
        n == s@.len(),
        i <= n,
    ensures
        match r {
            Some((v, j)) => spec_arr_more(s@, i as int) == Some((json_seq_view(v@), j as int)) && i
                < j <= n,
            None => spec_arr_more(s@, i as int) is None,
        },
    decreases n - i, 3int,
{
    let k = skip_ws(s, n, i);
    if k >= n {
        return None;
    }
    let c = s.get_char(k);
    if c == ']' {
        Some((Vec::new(), k + 1))
    } else if c == ',' {
        let w = skip_ws(s, n, k + 1);
        match parse_value(s, n, w) {
            Some((v, p)) => match parse_arr_more(s, n, p) {
                Some((mut rest, e)) => {
                    let ghost tail = rest@;
                    proof {
                        lemma_seq_view_cons(v, tail);
                    }
                    rest.insert(0, v);
                    Some((rest, e))
                },
                None => None,
            },
            None => None,
        }
    } else {
        None
    }
}

/// Reads a whole JSON document; `None` when the text is not well-formed.
pub fn parse_json(s: &str) -> (r: Option<JsonValue>)
    ensures
        match r {
            Some(v) => spec_json(s@) == Some(v@),
            None => spec_json(s@) is None,
        },
{
    let n = s.unicode_len();
    let i = skip_ws(s, n, 0);
    match parse_value(s, n, i) {
        Some((v, j)) => {
            let k = skip_ws(s, n, j);
            if k == n {
                Some(v)
            } else {
                None
            }
        },
        None => None,
    }
}

/// The character that writes a hexadecimal digit.
pub open spec fn spec_hex_digit(n: nat) -> char {
    if n < 10 {
        crate::text::spec_digit(n)
    } else if n == 10 {
        'a'
    } else if n == 11 {
        'b'
    } else if n == 12 {
        'c'
    } else if n == 13 {
        'd'
    } else if n == 14 {
        'e'
    } else {
        'f'
    }
}

fn hex_digit_char(d: u32) -> (c: char)
    requires
        d < 16,
    ensures
        c == spec_hex_digit(d as nat),
{
    if d == 0 {
        '0'
    } else if d == 1 {
        '1'
    } else if d == 2 {
        '2'
    } else if d == 3 {
        '3'
    } else if d == 4 {
        '4'
    } else if d == 5 {
        '5'
    } else if d == 6 {
        '6'
    } else if d == 7 {
        '7'
    } else if d == 8 {
        '8'
    } else if d == 9 {
        '9'
    } else if d == 10 {
        'a'
    } else if d == 11 {
        'b'
    } else if d == 12 {
        'c'
    } else if d == 13 {
        'd'
    } else if d == 14 {
        'e'
    } else {
        'f'
    }
}

/// How one character is written inside a JSON string literal: quotes and
/// backslashes get a backslash escape, control characters a `\u` escape,
/// everything else stands as it is.
pub open spec fn spec_escaped_char(c: char) -> Seq<char> {
    if c == '"' {
        "\\\""@
    } else if c == '\\' {
        "\\\\"@
    } else if c == '\n' {
        "\\n"@
    } else if c == '\r' {
        "\\r"@
    } else if c == '\t' {
        "\\t"@
    } else if (c as u32) < 32 {
        "\\u00"@ + seq![
            spec_hex_digit((c as u32 / 16) as nat),
            spec_hex_digit((c as u32 % 16) as nat),
        ]
    } else {
        seq![c]
    }
}

/// How a whole string is written inside a JSON string literal.
pub open spec fn spec_json_escape(s: Seq<char>) -> Seq<char>
    decreases s.len(),
{
    if s.len() == 0 {
        Seq::empty()
    } else {
        spec_escaped_char(s[0]) + spec_json_escape(s.subrange(1, s.len() as int))
    }
}

proof fn lemma_json_escape_snoc(s: Seq<char>, c: char)
    ensures
        spec_json_escape(s.push(c)) == spec_json_escape(s) + spec_escaped_char(c),
    decreases s.len(),
{
    reveal_with_fuel(spec_json_escape, 3);
    let t = s.push(c);
    if s.len() == 0 {
        assert(t[0] == c);
        assert(t.subrange(1, t.len() as int) =~= Seq::<char>::empty());
        assert(spec_escaped_char(c) + Seq::<char>::empty() =~= spec_escaped_char(c));
        assert(Seq::<char>::empty() + spec_escaped_char(c) =~= spec_escaped_char(c));
    } else {
        assert(t[0] == s[0]);
        assert(t.subrange(1, t.len() as int) =~= s.subrange(1, s.len() as int).push(c));
        lemma_json_escape_snoc(s.subrange(1, s.len() as int), c);
        assert(spec_escaped_char(s[0]) + (spec_json_escape(s.subrange(1, s.len() as int))
            + spec_escaped_char(c)) =~= (spec_escaped_char(s[0]) + spec_json_escape(
            s.subrange(1, s.len() as int),
        )) + spec_escaped_char(c));
    }
}

fn push_escaped(out: &mut String, c: char)
    ensures
        final(out)@ == old(out)@ + spec_escaped_char(c),
{
    if c == '"' {
        out.append("\\\"");
    } else if c == '\\' {
        out.append("\\\\");
    } else if c == '\n' {
        out.append("\\n");
    } else if c == '\r' {
        out.append("\\r");
    } else if c == '\t' {
        out.append("\\t");
    } else if (c as u32) < 32 {
        out.append("\\u00");
        crate::text::push_char(out, hex_digit_char(c as u32 / 16));
        crate::text::push_char(out, hex_digit_char(c as u32 % 16));
        proof {
            assert(out@ =~= old(out)@ + spec_escaped_char(c));
        }
    } else {
        crate::text::push_char(out, c);
        proof {
            assert(out@ =~= old(out)@ + seq![c]);
        }
    }
}

/// Appends the JSON-escaped form of a string.
pub fn json_escape_into(out: &mut String, s: &str)
    ensures
        final(out)@ == old(out)@ + spec_json_escape(s@),
{
    let n = s.unicode_len();
    let mut i: usize = 0;
    proof {
        assert(s@.subrange(0, 0) =~= Seq::<char>::empty());
        assert(old(out)@ + Seq::<char>::empty() =~= old(out)@);
    }
    while i < n
        invariant
            n == s@.len(),
            i <= n,
            out@ == old(out)@ + spec_json_escape(s@.subrange(0, i as int)),
        decreases n - i,
    {
        let ghost pre = s@.subrange(0, i as int);
        let c = s.get_char(i);
        proof {
            assert(s@.subrange(0, i as int + 1) =~= pre.push(s@[i as int]));
            lemma_json_escape_snoc(pre, s@[i as int]);
            assert((old(out)@ + spec_json_escape(pre)) + spec_escaped_char(s@[i as int]) =~= old(
                out,
            )@ + (spec_json_escape(pre) + spec_escaped_char(s@[i as int])));
        }
        push_escaped(out, c);
        i = i + 1;
    }
    proof {
        assert(s@.subrange(0, n as int) =~= s@);
    }
}

proof fn lemma_hex_digit_reads_back(d: nat)
    requires
        d < 16,
    ensures
        spec_hex_val(spec_hex_digit(d)) == Some(d as int),
{
}

/// Law: a string written with this crate's escaping is read back unchanged by
/// this crate's string grammar, whatever characters it holds.  Wherever the
/// escaped text stands in a document with a quote right after it, reading a
/// string literal there yields exactly the original characters and stops
/// right after that quote.
pub proof fn lemma_escaped_string_reads_back(t: Seq<char>, i: int, s: Seq<char>)
    requires
        0 <= i,
        i + spec_json_escape(s).len() < t.len(),
        forall|k: int| 0 <= k < spec_json_escape(s).len() ==> t[i + k] == spec_json_escape(s)[k],
        t[i + spec_json_escape(s).len()] == '"',
    ensures
        spec_str_body(t, i) == Some((s, i + spec_json_escape(s).len() + 1)),
    decreases s.len(),
{
    reveal_strlit("\\\"");
    reveal_strlit("\\\\");
    reveal_strlit("\\n");
    reveal_strlit("\\r");
    reveal_strlit("\\t");
    reveal_strlit("\\u00");
    if s.len() == 0 {
        assert(t[i] == '"');
    } else {
        let c = s[0];
        let rest = s.subrange(1, s.len() as int);
        let e0 = spec_escaped_char(c);
        let erest = spec_json_escape(rest);
        assert(spec_json_escape(s) == e0 + erest);
        let j = i + e0.len();
        assert forall|k: int| 0 <= k < e0.len() implies t[i + k] == e0[k] by {
            assert(t[i + k] == spec_json_escape(s)[k]);
        }
        assert forall|k: int| 0 <= k < erest.len() implies t[j + k] == erest[k] by {
            assert(spec_json_escape(s)[e0.len() + k] == erest[k]);
            assert(t[i + (e0.len() + k)] == spec_json_escape(s)[e0.len() + k]);
        }
        assert(t[j + erest.len()] == '"');
        lemma_escaped_string_reads_back(t, j, rest);
        assert(seq![c] + rest =~= s);
        if c == '"' || c == '\\' || c == '\n' || c == '\r' || c == '\t' {
            assert(t[i + 0] == e0[0]);
            assert(t[i + 1] == e0[1]);
            assert(e0.len() == 2 && t[i] == '\\');
            assert(spec_escape_char(t[i + 1]) == Some(c));
            assert(spec_str_body(t, i) == Some((seq![c] + rest, j + erest.len() + 1)));
        } else if (c as u32) < 32 {
            let hi = spec_hex_digit((c as u32 / 16) as nat);
            let lo = spec_hex_digit((c as u32 % 16) as nat);
            assert(e0 == "\\u00"@ + seq![hi, lo]);
            assert(e0.len() == 6);
            assert(t[i + 0] == e0[0]);
            assert(t[i + 1] == e0[1]);
            assert(t[i + 2] == e0[2]);
            assert(t[i + 3] == e0[3]);
            assert(t[i + 4] == e0[4]);
            assert(t[i + 5] == e0[5]);
            assert(t[i] == '\\' && t[i + 1] == 'u');
            assert(t[i + 2] == '0' && t[i + 3] == '0' && t[i + 4] == hi && t[i + 5] == lo);
            lemma_hex_digit_reads_back((c as u32 / 16) as nat);
            lemma_hex_digit_reads_back((c as u32 % 16) as nat);
            assert(spec_hex_val('0') == Some(0int));
            assert((c as u32 / 16) * 0x10 + (c as u32 % 16) == c as u32) by (nonlinear_arith);
            assert(spec_hex4(t, i + 2) == Some((c as u32) as int));
            assert(!is_high_surrogate((c as u32) as int) && !is_low_surrogate((c as u32) as int));
            assert((((c as u32) as int) as u32) == c as u32);
            vstd::utf8::char_u32_cast(c, c as u32);
            assert(spec_str_body(t, i) == Some((seq![c] + rest, j + erest.len() + 1)));
        } else {
            assert(e0 =~= seq![c]);
            assert(t[i + 0] == e0[0]);
            assert(t[i] == c && c != '"' && c != '\\' && (c as u32) >= 32);
            assert(spec_str_body(t, i) == Some((seq![c] + rest, j + erest.len() + 1)));
        }
    }
}

/// Law, standalone form: escaping a string and closing the quote gives a text
/// that the string grammar reads back as exactly that string.
pub proof fn lemma_escape_round_trip(s: Seq<char>)
    ensures
        spec_str_body(spec_json_escape(s).push('"'), 0) == Some((
            s,
            spec_json_escape(s).len() as int + 1,
        )),
{
    let t = spec_json_escape(s).push('"');
    lemma_escaped_string_reads_back(t, 0, s);
}

/// The value under the first member with the given key, if any.
pub open spec fn spec_lookup(m: Seq<(Seq<char>, Json)>, key: Seq<char>) -> Option<Json>
    decreases m.len(),
{
    if m.len() == 0 {
        None
    } else if m[0].0 == key {
        Some(m[0].1)
    } else {
        spec_lookup(m.subrange(1, m.len() as int), key)
    }
}

fn lookup_at<'a>(m: &'a Vec<(String, JsonValue)>, key: &str, i: usize) -> (r: Option<
    &'a JsonValue,
>)
    requires
        i <= m.len(),
    ensures
        match r {
            Some(v) => spec_lookup(
                json_members_view(m@.subrange(i as int, m@.len() as int)),
                key@,
            ) == Some(v@),
            None => spec_lookup(
                json_members_view(m@.subrange(i as int, m@.len() as int)),
                key@,
            ) is None,
        },
    decreases m.len() - i,
{
    if i < m.len() {
        proof {
            let sub = m@.subrange(i as int, m@.len() as int);
            assert(sub[0] == m@[i as int]);
            assert(sub.subrange(1, sub.len() as int) =~= m@.subrange(
                i as int + 1,
                m@.len() as int,
            ));
            let jm = json_members_view(sub);
            assert(jm[0] == (m@[i as int].0@, json_view(m@[i as int].1)));
            assert(jm.subrange(1, jm.len() as int) =~= json_members_view(
                m@.subrange(i as int + 1, m@.len() as int),
            ));
        }
        let pair: &(String, JsonValue) = &m[i];
        if str_eq(pair.0.as_str(), key) {
            Some(&pair.1)
        } else {
            lookup_at(m, key, i + 1)
        }
    } else {
        proof {
            assert(m@.subrange(i as int, m@.len() as int) =~= Seq::empty());
        }
        None
    }
}

/// Finds the value under the first member with the given key, if any.
pub fn lookup<'a>(m: &'a Vec<(String, JsonValue)>, key: &str) -> (r: Option<&'a JsonValue>)
    ensures
        match r {
            Some(v) => spec_lookup(json_members_view(m@), key@) == Some(v@),
            None => spec_lookup(json_members_view(m@), key@) is None,
        },
{
    proof {
        assert(m@.subrange(0, m@.len() as int) =~= m@);
    }
    lookup_at(m, key, 0)
}

} // verus!
