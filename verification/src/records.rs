//! How package records are stored and looked up: the language list kept as
//! a JSON array of ids, the short name of a new language, and the `LIKE`
//! patterns of searches.

use vstd::prelude::*;
use crate::text::{chars_of, decimal, decimal_string};

verus! {

/// The decimal text of an `i64` (`i64::to_string`).
pub open spec fn spec_i64_text(n: i64) -> Seq<char> {
    if n < 0 { "-"@ + decimal((0 - n) as nat) } else { decimal(n as nat) }
}

/// The compact JSON array of integers (`[1,2,3]`, `[]` when empty), as
/// `serde_json::to_string` writes it.
pub open spec fn spec_id_array(ids: Seq<i64>) -> Seq<char> {
    "["@ + ids_joined(ids) + "]"@
}

/// The decimal texts of the ids joined by commas.
pub open spec fn ids_joined(ids: Seq<i64>) -> Seq<char>
    decreases ids.len(),
{
    if ids.len() == 0 {
        Seq::empty()
    } else if ids.len() == 1 {
        spec_i64_text(ids[0])
    } else {
        ids_joined(ids.drop_last()) + ","@ + spec_i64_text(ids.last())
    }
}

/// The decimal text of an `i64`.
fn i64_text(n: i64) -> (r: String)
    ensures
        r@ == spec_i64_text(n),
{
    if n < 0 {
        let m: u64 = if n == i64::MIN { 0x8000_0000_0000_0000 } else { (-n) as u64 };
        let mut r = String::from_str("-");
        r.append(decimal_string(m).as_str());
        r
    } else {
        decimal_string(n as u64)
    }
}

/// The language ids of a package as stored: a compact JSON array.
pub fn language_ids_json(ids: &Vec<i64>) -> (r: String)
    ensures
        r@ == spec_id_array(ids@),
{
    let mut body = String::new();
    let mut i: usize = 0;
    while i < ids.len()
        invariant
            i <= ids.len(),
            body@ == ids_joined(ids@.subrange(0, i as int)),
        decreases ids.len() - i,
    {
        assert(ids@.subrange(0, i + 1).drop_last() =~= ids@.subrange(0, i as int));
        if i > 0 {
            body.append(",");
        } else {
            assert(ids@.subrange(0, 0) =~= Seq::<i64>::empty());
        }
        body.append(i64_text(ids[i]).as_str());
        i = i + 1;
    }
    assert(ids@.subrange(0, ids@.len() as int) =~= ids@);
    let mut r = String::from_str("[");
    r.append(body.as_str());
    r.append("]");
    r
}

/// What `serde_json` reads as a list of `i64` from the text: `None` when it
/// is no JSON array of integers that fit.
pub uninterp spec fn json_i64_list(text: Seq<char>) -> Option<Seq<i64>>;

/// `serde_json::from_str::<Vec<i64>>`. Claimed: the result is
/// `json_i64_list` of the text, and a compact JSON array of integers (as
/// `serde_json` writes one) reads back as those integers.
#[verifier::external_body]
fn read_i64_list(text: &str) -> (r: Option<Vec<i64>>)
    ensures
        match r {
            Some(v) => json_i64_list(text@) == Some(v@)
                && forall|ids: Seq<i64>| #[trigger] spec_id_array(ids) == text@ ==> v@ == ids,
            None => json_i64_list(text@) is None
                && forall|ids: Seq<i64>| #[trigger] spec_id_array(ids) != text@,
        },
{
    serde_json::from_str::<Vec<i64>>(text).ok()
}

/// The language ids of a stored JSON array; none when the text is no such
/// array. A list stored by `language_ids_json` reads back as it was.
pub fn parse_language_ids(json: &str) -> (r: Vec<i64>)
    ensures
        r@ == match json_i64_list(json@) {
            Some(v) => v,
            None => Seq::empty(),
        },
        forall|ids: Seq<i64>| #[trigger] spec_id_array(ids) == json@ ==> r@ == ids,
{
    match read_i64_list(json) {
        Some(v) => v,
        None => Vec::new(),
    }
}

/// The short name a new language gets: its first two characters.
pub fn language_short_name(name: &str) -> (r: String)
    ensures
        r@ == name@.subrange(0, if name@.len() < 2 { name@.len() as int } else { 2 }),
{
    let n = name.unicode_len();
    let k = if n < 2 { n } else { 2 };
    String::from_str(name.substring_char(0, k))
}

/// `keyword` with the `LIKE` wildcards `%` and `_` escaped by `\`.
pub open spec fn spec_like_escaped(keyword: Seq<char>) -> Seq<char>
    decreases keyword.len(),
{
    if keyword.len() == 0 {
        Seq::empty()
    } else {
        let c = keyword.last();
        spec_like_escaped(keyword.drop_last()) + if c == '%' || c == '_' {
            seq!['\\', c]
        } else {
            seq![c]
        }
    }
}

/// The pattern a search matches names and URLs with: the keyword, its
/// wildcards escaped, anywhere in the text.
pub fn search_like_pattern(keyword: &str) -> (r: String)
    ensures
        r@ == "%"@ + spec_like_escaped(keyword@) + "%"@,
{
    let v = chars_of(keyword);
    let mut body = String::new();
    let mut i: usize = 0;
    while i < v.len()
        invariant
            i <= v.len(),
            body@ == spec_like_escaped(v@.subrange(0, i as int)),
        decreases v.len() - i,
    {
        assert(v@.subrange(0, i + 1).drop_last() =~= v@.subrange(0, i as int));
        let c = v[i];
        let ghost before = body@;
        if c == '%' || c == '_' {
            crate::text::push_char(&mut body, '\\');
        }
        crate::text::push_char(&mut body, c);
        assert(body@ =~= before + if c == '%' || c == '_' { seq!['\\', c] } else { seq![c] });
        i = i + 1;
    }
    assert(v@.subrange(0, v@.len() as int) =~= v@);
    let mut r = String::from_str("%");
    r.append(body.as_str());
    r.append("%");
    r
}

/// The `LIKE` pattern the cached and backed-up files of a package are
/// looked up with besides their recorded name: file names that start with
/// the package name followed by `-`.
pub fn package_file_like_pattern(pkgname: &str) -> (r: String)
    ensures
        r@ == pkgname@ + "-%"@,
{
    let mut r = String::from_str(pkgname);
    r.append("-%");
    r
}

} // verus!
