//! A verified JSON parser.
//!
//! The grammar accepted is standard JSON with one restriction: the only
//! string escapes recognised are `\" \\ \/ \b \f \n \r \t` (no `\uXXXX`).
//! Numbers are kept as the exact text they were written with; nothing here
//! interprets a fraction or an exponent.
//!
//! The specification functions in this module *are* the grammar: each
//! executable function returns exactly what its specification counterpart
//! denotes, so `parse_json` succeeds if and only if the input derives from
//! the grammar, and then returns its denotation.

use vstd::prelude::*;

verus! {

broadcast use vstd::std_specs::vec::axiom_vec_decreases_to_view, vstd::seq::axiom_seq_index_decreases;

/// The mathematical shape of a parsed JSON document.
#[verifier::ext_equal]
pub enum JsonV {
    Null,
    Bool(bool),
    /// A number, as the exact character span it was written with.
    Num(Seq<char>),
    Str(Seq<char>),
    Arr(Seq<JsonV>),
    Obj(Seq<(Seq<char>, JsonV)>),
}

/// A parsed JSON document.
pub enum Json {
    Null,
    Bool(bool),
    /// A number, as the exact text it was written with.
    Num(String),
    Str(String),
    Arr(Vec<Json>),
    Obj(Vec<JsonField>),
}

/// One `key: value` member of a JSON object.
pub struct JsonField {
    pub key: String,
    pub value: Json,
}

/// The element-wise view of an array's items.
pub open spec fn arr_view(items: Seq<Json>) -> Seq<JsonV> {
    Seq::new(items.len(), |i: int| items[i]@)
}

/// The pair-wise view of an object's fields.
pub open spec fn obj_view(fields: Seq<JsonField>) -> Seq<(Seq<char>, JsonV)> {
    Seq::new(fields.len(), |i: int| (fields[i].key@, fields[i].value@))
}

/// The denotation of a parsed document as its mathematical shape.
pub open spec fn json_view(j: Json) -> JsonV
    decreases j, 0int,
    via json_view_dec
{
    match j {
        Json::Null => JsonV::Null,
        Json::Bool(b) => JsonV::Bool(b),
        Json::Num(t) => JsonV::Num(t@),
        Json::Str(t) => JsonV::Str(t@),
        Json::Arr(items) => JsonV::Arr(arr_view_from(items@, 0)),
        Json::Obj(fields) => JsonV::Obj(obj_view_from(fields@, 0)),
    }
}

/// The denotations of the items at or after `i`.
pub open spec fn arr_view_from(items: Seq<Json>, i: int) -> Seq<JsonV>
    decreases items, items.len() - i,
    via arr_view_from_dec
{
    if 0 <= i < items.len() {
        seq![json_view(items[i])] + arr_view_from(items, i + 1)
    } else {
        Seq::empty()
    }
}

/// The denotations of the members at or after `i`.
pub open spec fn obj_view_from(fields: Seq<JsonField>, i: int) -> Seq<(Seq<char>, JsonV)>
    decreases fields, fields.len() - i,
    via obj_view_from_dec
{
    if 0 <= i < fields.len() {
        seq![(fields[i].key@, json_view(fields[i].value))] + obj_view_from(fields, i + 1)
    } else {
        Seq::empty()
    }
}

#[via_fn]
proof fn json_view_dec(j: Json) {
    broadcast use vstd::std_specs::vec::axiom_vec_decreases_to_view;

    match j {
        Json::Arr(items) => {
            assert(decreases_to!(j => items));
            assert(decreases_to!(items => items@));
        },
        Json::Obj(fields) => {
            assert(decreases_to!(j => fields));
            assert(decreases_to!(fields => fields@));
        },
        _ => {},
    }
}

#[via_fn]
proof fn arr_view_from_dec(items: Seq<Json>, i: int) {
    broadcast use vstd::seq::axiom_seq_index_decreases;

    if 0 <= i < items.len() {
        assert(decreases_to!(items => items[i]));
    }
}

#[via_fn]
proof fn obj_view_from_dec(fields: Seq<JsonField>, i: int) {
    broadcast use vstd::seq::axiom_seq_index_decreases;

    if 0 <= i < fields.len() {
        assert(decreases_to!(fields => fields[i]));
        assert(decreases_to!(fields[i] => fields[i].value));
    }
}

impl View for Json {
    type V = JsonV;

    open spec fn view(&self) -> JsonV {
        json_view(*self)
    }
}

proof fn lemma_arr_view_from(items: Seq<Json>, i: int)
    requires
        0 <= i <= items.len(),
    ensures
        arr_view_from(items, i).len() == items.len() - i,
        forall|k: int|
            0 <= k < items.len() - i ==> arr_view_from(items, i)[k] == json_view(items[i + k]),
    decreases items.len() - i,
{
    if i < items.len() {
        lemma_arr_view_from(items, i + 1);
    }
}

proof fn lemma_obj_view_from(fields: Seq<JsonField>, i: int)
    requires
        0 <= i <= fields.len(),
    ensures
        obj_view_from(fields, i).len() == fields.len() - i,
        forall|k: int|
            0 <= k < fields.len() - i ==> obj_view_from(fields, i)[k] == (
            fields[i + k].key@,
            json_view(fields[i + k].value),
            ),
    decreases fields.len() - i,
{
    if i < fields.len() {
        lemma_obj_view_from(fields, i + 1);
    }
}

/// A whole array's denotation is the element-wise view of its items.
pub broadcast proof fn lemma_arr_view(items: Seq<Json>)
    ensures
        #[trigger] arr_view_from(items, 0) == arr_view(items),
{
    lemma_arr_view_from(items, 0);
    assert(arr_view_from(items, 0) =~= arr_view(items));
}

/// A whole object's denotation is the member-wise view of its fields.
pub broadcast proof fn lemma_obj_view(fields: Seq<JsonField>)
    ensures
        #[trigger] obj_view_from(fields, 0) == obj_view(fields),
{
    lemma_obj_view_from(fields, 0);
    assert(obj_view_from(fields, 0) =~= obj_view(fields));
}

/// JSON whitespace.
pub open spec fn is_ws(c: char) -> bool {
    c == ' ' || c == '\t' || c == '\n' || c == '\r'
}

/// An ASCII decimal digit.
pub open spec fn is_digit(c: char) -> bool {
    '0' <= c && c <= '9'
}

/// The first position at or after `i` that does not hold whitespace.
pub open spec fn skip_ws(s: Seq<char>, i: int) -> int
    decreases s.len() - i,
{
    if 0 <= i < s.len() && is_ws(s[i]) {
        skip_ws(s, i + 1)
    } else {
        i
    }
}

fn skip_ws_ex(s: &str, slen: usize, i: usize) -> (r: usize)
    requires
        slen == s@.len(),
        i <= slen,
    ensures
        r as int == skip_ws(s@, i as int),
        i <= r <= slen,
    decreases slen - i,
{
    if i == slen {
        return i;
    }
    let c = s.get_char(i);
    if c == ' ' || c == '\t' || c == '\n' || c == '\r' {
        skip_ws_ex(s, slen, i + 1)
    } else {
        i
    }
}

/// The character a single-letter string escape stands for.
pub open spec fn unescape(c: char) -> Option<char> {
    match c {
        '"' => Some('"'),
        '\\' => Some('\\'),
        '/' => Some('/'),
        'b' => Some('\u{8}'),
        'f' => Some('\u{c}'),
        'n' => Some('\n'),
        'r' => Some('\r'),
        't' => Some('\t'),
        _ => None,
    }
}

fn unescape_ex(c: char) -> (r: Option<char>)
    ensures
        r == unescape(c),
{
    match c {
        '"' => Some('"'),
        '\\' => Some('\\'),
        '/' => Some('/'),
        'b' => Some('\u{8}'),
        'f' => Some('\u{c}'),
        'n' => Some('\n'),
        'r' => Some('\r'),
        't' => Some('\t'),
        _ => None,
    }
}

/// Parses the rest of a string literal: `i` is just past the opening quote
/// (or past the last consumed character), `acc` is the content read so far.
/// Returns the full content and the position just past the closing quote.
pub open spec fn parse_string_rest(s: Seq<char>, i: int, acc: Seq<char>) -> Option<
    (Seq<char>, int),
>
    decreases s.len() - i,
{
    if i < 0 || i >= s.len() {
        None
    } else if s[i] == '"' {
        Some((acc, i + 1))
    } else if s[i] == '\\' {
        if i + 1 < s.len() {
            match unescape(s[i + 1]) {
                Some(c) => parse_string_rest(s, i + 2, acc.push(c)),
                None => None,
            }
        } else {
            None
        }
    } else if (s[i] as u32) < 32 {
        None
    } else {
        parse_string_rest(s, i + 1, acc.push(s[i]))
    }
}

fn parse_string_ex(s: &str, slen: usize, i: usize, acc: String) -> (r: Option<(String, usize)>)
    requires
        slen == s@.len(),
        i <= slen,
    ensures
        match r {
            Some((txt, n)) => parse_string_rest(s@, i as int, acc@) == Some((txt@, n as int)) && i
                < n <= slen,
            None => parse_string_rest(s@, i as int, acc@) is None,
        },
    decreases slen - i,
{
    if i == slen {
        return None;
    }
    let c = s.get_char(i);
    if c == '"' {
        return Some((acc, i + 1));
    }
    if c == '\\' {
        if i + 1 == slen {
            return None;
        }
        match unescape_ex(s.get_char(i + 1)) {
            Some(u) => {
                let mut acc2 = acc;
                crate::text::push_char(&mut acc2, u);
                parse_string_ex(s, slen, i + 2, acc2)
            },
            None => None,
        }
    } else if (c as u32) < 32 {
        None
    } else {
        let mut acc2 = acc;
        crate::text::push_char(&mut acc2, c);
        parse_string_ex(s, slen, i + 1, acc2)
    }
}

/// The first position at or after `i` that does not hold a digit.
pub open spec fn span_digits(s: Seq<char>, i: int) -> int
    decreases s.len() - i,
{
    if 0 <= i < s.len() && is_digit(s[i]) {
        span_digits(s, i + 1)
    } else {
        i
    }
}


fn span_digits_ex(s: &str, slen: usize, i: usize) -> (r: usize)
    requires
        slen == s@.len(),
        i <= slen,
    ensures
        r as int == span_digits(s@, i as int),
        i <= r <= slen,
    decreases slen - i,
{
    if i == slen {
        return i;
    }
    let c = s.get_char(i);
    if '0' <= c && c <= '9' {
        span_digits_ex(s, slen, i + 1)
    } else {
        i
    }
}

/// The end of the optional sign and the integer part of a number starting
/// at `i`: one `0`, or a nonzero digit followed by digits.
pub open spec fn int_end(s: Seq<char>, i: int) -> Option<int> {
    let j = if 0 <= i < s.len() && s[i] == '-' {
        i + 1
    } else {
        i
    };
    if 0 <= j < s.len() && is_digit(s[j]) {
        if s[j] == '0' {
            Some(j + 1)
        } else {
            Some(span_digits(s, j))
        }
    } else {
        None
    }
}

/// The end of the optional fraction part starting at `k`.
pub open spec fn frac_end(s: Seq<char>, k: int) -> Option<int> {
    if 0 <= k < s.len() && s[k] == '.' {
        let d = span_digits(s, k + 1);
        if d > k + 1 {
            Some(d)
        } else {
            None
        }
    } else {
        Some(k)
    }
}

/// The end of the optional exponent part starting at `k`.
pub open spec fn exp_end(s: Seq<char>, k: int) -> Option<int> {
    if 0 <= k < s.len() && (s[k] == 'e' || s[k] == 'E') {
        let m = if k + 1 < s.len() && (s[k + 1] == '+' || s[k + 1] == '-') {
            k + 2
        } else {
            k + 1
        };
        let d = span_digits(s, m);
        if d > m {
            Some(d)
        } else {
            None
        }
    } else {
        Some(k)
    }
}

/// The end of a complete JSON number starting at `i`.
pub open spec fn number_end(s: Seq<char>, i: int) -> Option<int> {
    match int_end(s, i) {
        Some(k) => match frac_end(s, k) {
            Some(l) => exp_end(s, l),
            None => None,
        },
        None => None,
    }
}

fn number_end_ex(s: &str, slen: usize, i: usize) -> (r: Option<usize>)
    requires
        slen == s@.len(),
        i < slen,
    ensures
        match r {
            Some(e) => number_end(s@, i as int) == Some(e as int) && i < e <= slen,
            None => number_end(s@, i as int) is None,
        },
{
    let j = if s.get_char(i) == '-' {
        i + 1
    } else {
        i
    };
    if j == slen {
        return None;
    }
    let cj = s.get_char(j);
    if !('0' <= cj && cj <= '9') {
        return None;
    }
    let k = if cj == '0' {
        j + 1
    } else {
        span_digits_ex(s, slen, j + 1)
    };
    // fraction
    let l = if k < slen && s.get_char(k) == '.' {
        let d = span_digits_ex(s, slen, k + 1);
        if d > k + 1 {
            d
        } else {
            return None;
        }
    } else {
        k
    };
    // exponent
    if l < slen {
        let cl = s.get_char(l);
        if cl == 'e' || cl == 'E' {
            let m = if l + 1 < slen {
                let cm = s.get_char(l + 1);
                if cm == '+' || cm == '-' {
                    l + 2
                } else {
                    l + 1
                }
            } else {
                l + 1
            };
            let d = span_digits_ex(s, slen, m);
            if d > m {
                return Some(d);
            } else {
                return None;
            }
        }
    }
    Some(l)
}

/// `true` written out at position `i`.
pub open spec fn lit_true_at(s: Seq<char>, i: int) -> bool {
    &&& 0 <= i && i + 4 <= s.len()
    &&& s[i] == 't' && s[i + 1] == 'r' && s[i + 2] == 'u' && s[i + 3] == 'e'
}

/// `false` written out at position `i`.
pub open spec fn lit_false_at(s: Seq<char>, i: int) -> bool {
    &&& 0 <= i && i + 5 <= s.len()
    &&& s[i] == 'f' && s[i + 1] == 'a' && s[i + 2] == 'l' && s[i + 3] == 's' && s[i + 4] == 'e'
}

/// `null` written out at position `i`.
pub open spec fn lit_null_at(s: Seq<char>, i: int) -> bool {
    &&& 0 <= i && i + 4 <= s.len()
    &&& s[i] == 'n' && s[i + 1] == 'u' && s[i + 2] == 'l' && s[i + 3] == 'l'
}

/// Parses one JSON value whose first character stands at `i`. `fuel`
/// bounds the recursion; every recursive step also consumes at least one
/// character, and the top-level entry point supplies the input's length
/// plus one.
pub open spec fn parse_value(s: Seq<char>, i: int, fuel: nat) -> Option<(JsonV, int)>
    decreases fuel,
{
    if fuel == 0 {
        None
    } else if !(0 <= i < s.len()) {
        None
    } else {
        let c = s[i];
        if c == '{' {
            let j = skip_ws(s, i + 1);
            if j < s.len() && s[j] == '}' {
                Some((JsonV::Obj(Seq::empty()), j + 1))
            } else {
                match parse_members(s, j, (fuel - 1) as nat) {
                    Some((fields, k)) => Some((JsonV::Obj(fields), k)),
                    None => None,
                }
            }
        } else if c == '[' {
            let j = skip_ws(s, i + 1);
            if j < s.len() && s[j] == ']' {
                Some((JsonV::Arr(Seq::empty()), j + 1))
            } else {
                match parse_elements(s, j, (fuel - 1) as nat) {
                    Some((items, k)) => Some((JsonV::Arr(items), k)),
                    None => None,
                }
            }
        } else if c == '"' {
            match parse_string_rest(s, i + 1, Seq::empty()) {
                Some((txt, j)) => Some((JsonV::Str(txt), j)),
                None => None,
            }
        } else if lit_true_at(s, i) {
            Some((JsonV::Bool(true), i + 4))
        } else if lit_false_at(s, i) {
            Some((JsonV::Bool(false), i + 5))
        } else if lit_null_at(s, i) {
            Some((JsonV::Null, i + 4))
        } else if c == '-' || is_digit(c) {
            match number_end(s, i) {
                Some(e) => Some((JsonV::Num(s.subrange(i, e)), e)),
                None => None,
            }
        } else {
            None
        }
    }
}

/// Parses `key : value` members from the first key's opening quote at `i`,
/// up to and past the closing `}`.
pub open spec fn parse_members(s: Seq<char>, i: int, fuel: nat) -> Option<
    (Seq<(Seq<char>, JsonV)>, int),
>
    decreases fuel,
{
    if fuel == 0 {
        None
    } else if !(0 <= i < s.len() && s[i] == '"') {
        None
    } else {
        match parse_string_rest(s, i + 1, Seq::empty()) {
            Some((key, j)) => {
                let k = skip_ws(s, j);
                if k < s.len() && s[k] == ':' {
                    let m = skip_ws(s, k + 1);
                    match parse_value(s, m, (fuel - 1) as nat) {
                        Some((v, n)) => {
                            let p = skip_ws(s, n);
                            if p < s.len() && s[p] == ',' {
                                let q = skip_ws(s, p + 1);
                                match parse_members(s, q, (fuel - 1) as nat) {
                                    Some((rest, e)) => Some((seq![(key, v)] + rest, e)),
                                    None => None,
                                }
                            } else if p < s.len() && s[p] == '}' {
                                Some((seq![(key, v)], p + 1))
                            } else {
                                None
                            }
                        },
                        None => None,
                    }
                } else {
                    None
                }
            },
            None => None,
        }
    }
}

/// Parses array elements from the first element's first character at `i`,
/// up to and past the closing `]`.
pub open spec fn parse_elements(s: Seq<char>, i: int, fuel: nat) -> Option<(Seq<JsonV>, int)>
    decreases fuel,
{
    if fuel == 0 {
        None
    } else {
        match parse_value(s, i, (fuel - 1) as nat) {
            Some((v, n)) => {
                let p = skip_ws(s, n);
                if p < s.len() && s[p] == ',' {
                    let q = skip_ws(s, p + 1);
                    match parse_elements(s, q, (fuel - 1) as nat) {
                        Some((rest, e)) => Some((seq![v] + rest, e)),
                        None => None,
                    }
                } else if p < s.len() && s[p] == ']' {
                    Some((seq![v], p + 1))
                } else {
                    None
                }
            },
            None => None,
        }
    }
}

/// The denotation of a whole document: one value, surrounded only by
/// whitespace.
pub open spec fn json_of(s: Seq<char>) -> Option<JsonV> {
    let i = skip_ws(s, 0);
    match parse_value(s, i, s.len() + 1) {
        Some((v, j)) => if skip_ws(s, j) == s.len() {
            Some(v)
        } else {
            None
        },
        None => None,
    }
}

fn parse_value_ex(s: &str, slen: usize, i: usize, fuel: u128) -> (r: Option<(Json, usize)>)
    requires
        slen == s@.len(),
        i <= slen,
    ensures
        match r {
            Some((v, n)) => parse_value(s@, i as int, fuel as nat) == Some((v@, n as int)) && i < n
                <= slen,
            None => parse_value(s@, i as int, fuel as nat) is None,
        },
    decreases fuel,
{
    broadcast use lemma_arr_view, lemma_obj_view;

    if fuel == 0 {
        return None;
    }
    if i == slen {
        return None;
    }
    let c = s.get_char(i);
    if c == '{' {
        let j = skip_ws_ex(s, slen, i + 1);
        if j < slen && s.get_char(j) == '}' {
            let v = Json::Obj(Vec::new());
            proof {
                assert(v@ =~= JsonV::Obj(Seq::empty()));
            }
            Some((v, j + 1))
        } else {
            match parse_members_ex(s, slen, j, fuel - 1) {
                Some((fields, k)) => {
                    let ghost fv = fields@;
                    let jv = Json::Obj(fields);
                    proof {
                        lemma_obj_view(fv);
                        assert(jv@ == JsonV::Obj(obj_view(fv)));
                    }
                    Some((jv, k))
                },
                None => None,
            }
        }
    } else if c == '[' {
        let j = skip_ws_ex(s, slen, i + 1);
        if j < slen && s.get_char(j) == ']' {
            let v = Json::Arr(Vec::new());
            proof {
                assert(v@ =~= JsonV::Arr(Seq::empty()));
            }
            Some((v, j + 1))
        } else {
            match parse_elements_ex(s, slen, j, fuel - 1) {
                Some((items, k)) => {
                    let ghost iv = items@;
                    let jv = Json::Arr(items);
                    proof {
                        lemma_arr_view(iv);
                        assert(jv@ == JsonV::Arr(arr_view(iv)));
                    }
                    Some((jv, k))
                },
                None => None,
            }
        }
    } else if c == '"' {
        match parse_string_ex(s, slen, i + 1, String::new()) {
            Some((txt, j)) => Some((Json::Str(txt), j)),
            None => None,
        }
    } else if c == 't' {
        if slen - i >= 4 && s.get_char(i + 1) == 'r' && s.get_char(i + 2) == 'u' && s.get_char(
            i + 3,
        ) == 'e' {
            Some((Json::Bool(true), i + 4))
        } else {
            None
        }
    } else if c == 'f' {
        if slen - i >= 5 && s.get_char(i + 1) == 'a' && s.get_char(i + 2) == 'l' && s.get_char(
            i + 3,
        ) == 's' && s.get_char(i + 4) == 'e' {
            Some((Json::Bool(false), i + 5))
        } else {
            None
        }
    } else if c == 'n' {
        if slen - i >= 4 && s.get_char(i + 1) == 'u' && s.get_char(i + 2) == 'l' && s.get_char(
            i + 3,
        ) == 'l' {
            Some((Json::Null, i + 4))
        } else {
            None
        }
    } else if c == '-' || ('0' <= c && c <= '9') {
        match number_end_ex(s, slen, i) {
            Some(e) => {
                let txt = s.substring_char(i, e).to_owned();
                Some((Json::Num(txt), e))
            },
            None => None,
        }
    } else {
        None
    }
}

fn parse_members_ex(s: &str, slen: usize, i: usize, fuel: u128) -> (r: Option<
    (Vec<JsonField>, usize),
>)
    requires
        slen == s@.len(),
        i <= slen,
    ensures
        match r {
            Some((fields, n)) => parse_members(s@, i as int, fuel as nat) == Some(
                (obj_view(fields@), n as int),
            ) && i < n <= slen,
            None => parse_members(s@, i as int, fuel as nat) is None,
        },
    decreases fuel,
{
    broadcast use lemma_arr_view, lemma_obj_view;

    if fuel == 0 {
        return None;
    }
    if i == slen || s.get_char(i) != '"' {
        return None;
    }
    let key = match parse_string_ex(s, slen, i + 1, String::new()) {
        Some(kj) => kj,
        None => {
            return None;
        },
    };
    let (key, j) = key;
    let k = skip_ws_ex(s, slen, j);
    if !(k < slen && s.get_char(k) == ':') {
        return None;
    }
    let m = skip_ws_ex(s, slen, k + 1);
    let (v, n) = match parse_value_ex(s, slen, m, fuel - 1) {
        Some(vn) => vn,
        None => {
            return None;
        },
    };
    let p = skip_ws_ex(s, slen, n);
    if p < slen && s.get_char(p) == ',' {
        let q = skip_ws_ex(s, slen, p + 1);
        match parse_members_ex(s, slen, q, fuel - 1) {
            Some((rest, e)) => {
                let ghost rest_view = obj_view(rest@);
                let ghost key_view = key@;
                let ghost val_view = v@;
                let mut fields = rest;
                fields.insert(0, JsonField { key, value: v });
                proof {
                    assert(obj_view(fields@) =~= seq![(key_view, val_view)] + rest_view);
                }
                Some((fields, e))
            },
            None => None,
        }
    } else if p < slen && s.get_char(p) == '}' {
        let mut fields: Vec<JsonField> = Vec::new();
        let ghost key_view = key@;
        let ghost val_view = v@;
        fields.push(JsonField { key, value: v });
        proof {
            assert(obj_view(fields@) =~= seq![(key_view, val_view)]);
        }
        Some((fields, p + 1))
    } else {
        None
    }
}

fn parse_elements_ex(s: &str, slen: usize, i: usize, fuel: u128) -> (r: Option<(Vec<Json>, usize)>)
    requires
        slen == s@.len(),
        i <= slen,
    ensures
        match r {
            Some((items, n)) => parse_elements(s@, i as int, fuel as nat) == Some(
                (arr_view(items@), n as int),
            ) && i < n <= slen,
            None => parse_elements(s@, i as int, fuel as nat) is None,
        },
    decreases fuel,
{
    broadcast use lemma_arr_view, lemma_obj_view;

    if fuel == 0 {
        return None;
    }
    let (v, n) = match parse_value_ex(s, slen, i, fuel - 1) {
        Some(vn) => vn,
        None => {
            return None;
        },
    };
    let p = skip_ws_ex(s, slen, n);
    if p < slen && s.get_char(p) == ',' {
        let q = skip_ws_ex(s, slen, p + 1);
        match parse_elements_ex(s, slen, q, fuel - 1) {
            Some((rest, e)) => {
                let ghost rest_view = arr_view(rest@);
                let ghost val_view = v@;
                let mut items = rest;
                items.insert(0, v);
                proof {
                    assert(arr_view(items@) =~= seq![val_view] + rest_view);
                }
                Some((items, e))
            },
            None => None,
        }
    } else if p < slen && s.get_char(p) == ']' {
        let mut items: Vec<Json> = Vec::new();
        let ghost val_view = v@;
        items.push(v);
        proof {
            assert(arr_view(items@) =~= seq![val_view]);
        }
        Some((items, p + 1))
    } else {
        None
    }
}

/// Parses a whole JSON document: one value surrounded only by whitespace.
/// Succeeds exactly on the inputs the grammar derives, and then returns
/// their denotation.
pub fn parse_json(s: &str) -> (r: Option<Json>)
    ensures
        match r {
            Some(j) => json_of(s@) == Some(j@),
            None => json_of(s@) is None,
        },
{
    let slen = s.unicode_len();
    let i = skip_ws_ex(s, slen, 0);
    let fuel: u128 = (slen as u128) + 1;
    match parse_value_ex(s, slen, i, fuel) {
        Some((v, j)) => {
            let e = skip_ws_ex(s, slen, j);
            if e == slen {
                Some(v)
            } else {
                None
            }
        },
        None => None,
    }
}

} // verus!
