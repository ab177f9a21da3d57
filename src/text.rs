//! Small text operations, each stated over character sequences.

use vstd::prelude::*;

verus! {

/// The characters of an optional string.
pub open spec fn opt_view(o: Option<String>) -> Option<Seq<char>> {
    match o {
        Some(s) => Some(s@),
        None => None,
    }
}

/// `p` occurs somewhere in `s` as a contiguous run.
pub open spec fn has_infix(s: Seq<char>, p: Seq<char>) -> bool {
    exists|i: int| 0 <= i && i + p.len() <= s.len() && #[trigger] s.subrange(i, i + p.len()) == p
}

/// `s` with every leading occurrence of `c` removed.
pub open spec fn trim_start(s: Seq<char>, c: char) -> Seq<char>
    decreases s.len(),
{
    if s.len() > 0 && s[0] == c {
        trim_start(s.drop_first(), c)
    } else {
        s
    }
}

/// Strict lexicographic order on character sequences, the order in which
/// `String` values compare.
pub open spec fn lex_greater(a: Seq<char>, b: Seq<char>) -> bool
    decreases a.len(),
{
    if a.len() == 0 {
        false
    } else if b.len() == 0 {
        true
    } else if a[0] != b[0] {
        (a[0] as u32) > (b[0] as u32)
    } else {
        lex_greater(a.drop_first(), b.drop_first())
    }
}

/// The character of a decimal digit.
pub open spec fn digit_char(d: nat) -> char {
    seq!['0', '1', '2', '3', '4', '5', '6', '7', '8', '9'][d as int]
}

/// The decimal rendering of a natural number, without sign or padding.
pub open spec fn decimal(n: nat) -> Seq<char>
    decreases n,
{
    if n < 10 {
        seq![digit_char(n)]
    } else {
        decimal(n / 10).push(digit_char(n % 10))
    }
}

/// What `{:?}` prints for a string: the text quoted, with escapes.
pub uninterp spec fn debug_quoted(s: Seq<char>) -> Seq<char>;

/// What `Path::join` gives under Unix path rules, those of the targets the
/// extension is built for: a path that starts with `/` replaces the base;
/// any other is appended, after a `/` unless the base is empty or already
/// ends in one.
pub open spec fn path_joined(base: Seq<char>, rel: Seq<char>) -> Seq<char> {
    if rel.len() > 0 && rel[0] == '/' {
        rel
    } else if base.len() == 0 || base[base.len() - 1] == '/' {
        base + rel
    } else {
        base + "/"@ + rel
    }
}

/// Relies on `str::contains` with a `&str` pattern: true exactly when the
/// pattern occurs in the text.
#[verifier::external_body]
pub(crate) fn contains(s: &str, p: &str) -> (r: bool)
    ensures
        r == has_infix(s@, p@),
{
    s.contains(p)
}

/// Relies on `str::trim_start_matches` with a `char` pattern: all leading
/// occurrences of the character are removed.
#[verifier::external_body]
pub(crate) fn trim_start_char(s: &str, c: char) -> (r: String)
    ensures
        r@ == trim_start(s@, c),
{
    s.trim_start_matches(c).to_string()
}

/// Relies on `str::strip_prefix`: the rest of the text when it starts with
/// the prefix, nothing otherwise.
#[verifier::external_body]
pub(crate) fn strip_prefix(s: &str, p: &str) -> (r: Option<String>)
    ensures
        r is Some <==> p@.is_prefix_of(s@),
        r matches Some(t) ==> t@ == s@.skip(p@.len() as int),
{
    match s.strip_prefix(p) {
        Some(t) => Some(t.to_string()),
        None => None,
    }
}

/// Relies on `String`'s `PartialOrd`: strings compare lexicographically, and
/// UTF-8 byte order agrees with the order of the characters' code points.
#[verifier::external_body]
pub(crate) fn greater_than(a: &String, b: &String) -> (r: bool)
    ensures
        r == lex_greater(a@, b@),
{
    a > b
}

/// Relies on `ToString` for `u16`: the decimal digits of the number.
#[verifier::external_body]
pub(crate) fn u16_to_decimal(n: u16) -> (r: String)
    ensures
        r@ == decimal(n as nat),
{
    n.to_string()
}

/// Relies on the `Debug` formatting of `str`, which quotes and escapes.
#[verifier::external_body]
pub(crate) fn quoted(s: &str) -> (r: String)
    ensures
        r@ == debug_quoted(s@),
{
    format!("{:?}", s)
}

/// Relies on `std::path::Path::join` (that is, `PathBuf::push`) on a target
/// with Unix path rules, read back with `to_string_lossy`; both inputs are
/// valid UTF-8, so nothing is lost on the way back.
#[verifier::external_body]
pub(crate) fn join_path(base: &str, rel: &str) -> (r: String)
    ensures
        r@ == path_joined(base@, rel@),
{
    std::path::Path::new(base).join(rel).to_string_lossy().into_owned()
}

/// `a` followed by `b`, as a new string.
pub fn concat(a: &str, b: &str) -> (r: String)
    ensures
        r@ == a@ + b@,
{
    let mut r = String::from_str(a);
    r.append(b);
    r
}

} // verus!
