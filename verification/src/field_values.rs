use vstd::prelude::*;

verus! {

/// A character with the Unicode `White_Space` property, which is what
/// `char::is_whitespace` tests: the controls U+0009 to U+000D, the space, U+0085,
/// U+00A0, U+1680, U+2000 to U+200A, U+2028, U+2029, U+202F, U+205F and U+3000.
pub open spec fn is_white_space(c: char) -> bool {
    let n = c as int;
    ||| 0x09 <= n <= 0x0d
    ||| n == 0x20
    ||| n == 0x85
    ||| n == 0xa0
    ||| n == 0x1680
    ||| 0x2000 <= n <= 0x200a
    ||| n == 0x2028
    ||| n == 0x2029
    ||| n == 0x202f
    ||| n == 0x205f
    ||| n == 0x3000
}

/// The number of white space characters at the start of `s`.
pub open spec fn leading_white_space(s: Seq<char>) -> nat
    decreases s.len(),
{
    if s.len() == 0 || !is_white_space(s[0]) {
        0
    } else {
        1 + leading_white_space(s.drop_first())
    }
}

/// The number of white space characters at the end of `s`.
pub open spec fn trailing_white_space(s: Seq<char>) -> nat
    decreases s.len(),
{
    if s.len() == 0 || !is_white_space(s.last()) {
        0
    } else {
        1 + trailing_white_space(s.drop_last())
    }
}

/// `s` without its leading and trailing white space.
pub open spec fn trimmed(s: Seq<char>) -> Seq<char> {
    let rest = s.skip(leading_white_space(s) as int);
    rest.take(rest.len() - trailing_white_space(rest))
}

/// Calls `str::trim`, which its documentation describes as removing the leading
/// and trailing white space, white space being the Unicode `White_Space`
/// property: the result is believed to be `trimmed` of the argument.
#[verifier::external_body]
fn trim_text(s: &str) -> (t: &str)
    ensures
        t@ == trimmed(s@),
{
    s.trim()
}

/// `c` with an ASCII upper-case letter replaced by its lower-case form.
pub open spec fn lower_char(c: char) -> char {
    if 'A' <= c && c <= 'Z' {
        ((c as int) + 32) as char
    } else {
        c
    }
}

/// `s` with every ASCII upper-case letter replaced by its lower-case form.
pub open spec fn ascii_lower(s: Seq<char>) -> Seq<char> {
    s.map_values(|c: char| lower_char(c))
}

fn lower_char_exec(c: char) -> (r: char)
    ensures
        r == lower_char(c),
{
    if c >= 'A' && c <= 'Z' {
        let b: u8 = c as u8;
        assert(b == c as int);
        let l: u8 = b + 32;
        l as char
    } else {
        c
    }
}

/// Whether `a` and `b` are equal once ASCII letters are folded to lower case.
pub fn eq_ignore_ascii_case(a: &str, b: &str) -> (r: bool)
    ensures
        r == (ascii_lower(a@) == ascii_lower(b@)),
{
    let n = a.unicode_len();
    let m = b.unicode_len();
    if n != m {
        assert(ascii_lower(a@).len() != ascii_lower(b@).len());
        return false;
    }
    let mut i: usize = 0;
    while i < n
        invariant
            n == a@.len(),
            m == b@.len(),
            n == m,
            i <= n,
            forall|k: int| 0 <= k < i ==> lower_char(a@[k]) == lower_char(b@[k]),
        decreases n - i,
    {
        let ca = lower_char_exec(a.get_char(i));
        let cb = lower_char_exec(b.get_char(i));
        if ca != cb {
            assert(ascii_lower(a@)[i as int] != ascii_lower(b@)[i as int]);
            return false;
        }
        i += 1;
    }
    assert(ascii_lower(a@) =~= ascii_lower(b@));
    true
}

/// The lower-case text "n/a".
pub open spec fn not_available_text() -> Seq<char> {
    seq!['n', '/', 'a']
}

/// The lower-case text "unknown".
pub open spec fn unknown_text() -> Seq<char> {
    seq!['u', 'n', 'k', 'n', 'o', 'w', 'n']
}

/// An already trimmed field text says that the value is missing: it is empty,
/// or "N/A" or "unknown" in any ASCII case.
pub open spec fn marks_missing_spec(t: Seq<char>) -> bool {
    t.len() == 0 || ascii_lower(t) == not_available_text() || ascii_lower(t) == unknown_text()
}

/// Whether the trimmed field text `t` says that the value is missing.
pub fn marks_missing(t: &str) -> (r: bool)
    ensures
        r == marks_missing_spec(t@),
{
    proof {
        reveal_strlit("N/A");
        reveal_strlit("unknown");
        assert(ascii_lower("N/A"@) =~= not_available_text());
        assert(ascii_lower("unknown"@) =~= unknown_text());
    }
    t.unicode_len() == 0 || eq_ignore_ascii_case(t, "N/A") || eq_ignore_ascii_case(t, "unknown")
}

/// Whether the field text `s`, once trimmed, says that the value is missing.
pub fn text_marks_missing(s: &str) -> (r: bool)
    ensures
        r == marks_missing_spec(trimmed(s@)),
{
    marks_missing(trim_text(s))
}

/// The truth value that an already trimmed text spells: "true" or "1" for true,
/// "false" or "0" for false, letters in any ASCII case; nothing for any other text.
pub open spec fn bool_text_spec(t: Seq<char>) -> Option<bool> {
    let l = ascii_lower(t);
    if l == seq!['t', 'r', 'u', 'e'] || l == seq!['1'] {
        Some(true)
    } else if l == seq!['f', 'a', 'l', 's', 'e'] || l == seq!['0'] {
        Some(false)
    } else {
        None
    }
}

/// The truth value that the trimmed text `t` spells.
pub fn bool_text(t: &str) -> (r: Option<bool>)
    ensures
        r == bool_text_spec(t@),
{
    proof {
        reveal_strlit("true");
        reveal_strlit("1");
        reveal_strlit("false");
        reveal_strlit("0");
        assert(ascii_lower("true"@) =~= seq!['t', 'r', 'u', 'e']);
        assert(ascii_lower("1"@) =~= seq!['1']);
        assert(ascii_lower("false"@) =~= seq!['f', 'a', 'l', 's', 'e']);
        assert(ascii_lower("0"@) =~= seq!['0']);
    }
    if eq_ignore_ascii_case(t, "true") || eq_ignore_ascii_case(t, "1") {
        Some(true)
    } else if eq_ignore_ascii_case(t, "false") || eq_ignore_ascii_case(t, "0") {
        Some(false)
    } else {
        None
    }
}

/// A flag field as the access point may write it: a boolean, a number or a text.
#[derive(Clone, Debug, PartialEq, Eq)]
pub enum BoolOrStr {
    Bool(bool),
    Int(u64),
    Str(String),
}

/// The truth value of a flag field: a boolean as it is, the numbers 1 and 0 as
/// true and false, a text as `bool_text_spec` reads it once trimmed; nothing for
/// an absent field, any other number or any other text.
pub open spec fn bool_from_any_spec(v: Option<BoolOrStr>) -> Option<bool> {
    match v {
        None => None,
        Some(BoolOrStr::Bool(b)) => Some(b),
        Some(BoolOrStr::Int(n)) => if n == 1 {
            Some(true)
        } else if n == 0 {
            Some(false)
        } else {
            None
        },
        Some(BoolOrStr::Str(s)) => bool_text_spec(trimmed(s@)),
    }
}

/// Reads a flag field.
pub fn bool_from_any(v: Option<BoolOrStr>) -> (r: Option<bool>)
    ensures
        r == bool_from_any_spec(v),
        v is None ==> r is None,
        v matches Some(BoolOrStr::Bool(b)) ==> r == Some(b),
        v == Some(BoolOrStr::Int(1)) ==> r == Some(true),
        v == Some(BoolOrStr::Int(0)) ==> r == Some(false),
        v matches Some(BoolOrStr::Int(n)) && n > 1 ==> r is None,
{
    match v {
        None => None,
        Some(BoolOrStr::Bool(b)) => Some(b),
        Some(BoolOrStr::Int(n)) => {
            if n == 1 {
                Some(true)
            } else if n == 0 {
                Some(false)
            } else {
                None
            }
        },
        Some(BoolOrStr::Str(s)) => bool_text(trim_text(s.as_str())),
    }
}

/// How each form of a flag reads: an absent flag as nothing; a boolean as
/// itself, for both values; the numbers 1 and 0 as true and false and any other
/// number as nothing; a text the same in upper and lower case, and the same
/// with or without white space around it.
pub proof fn law_flag_forms(b: bool, n: u64, s: String)
    ensures
        bool_from_any_spec(None) is None,
        bool_from_any_spec(Some(BoolOrStr::Bool(b))) == Some(b),
        bool_from_any_spec(Some(BoolOrStr::Bool(true))) == Some(true),
        bool_from_any_spec(Some(BoolOrStr::Bool(false))) == Some(false),
        bool_from_any_spec(Some(BoolOrStr::Int(1))) == Some(true),
        bool_from_any_spec(Some(BoolOrStr::Int(0))) == Some(false),
        n > 1 ==> bool_from_any_spec(Some(BoolOrStr::Int(n))) is None,
        bool_from_any_spec(Some(BoolOrStr::Str(s))) == bool_text_spec(ascii_lower(trimmed(s@))),
{
    let l = ascii_lower(trimmed(s@));
    assert(ascii_lower(l) =~= l);
}

} // verus!
