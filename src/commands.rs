//! The command lines that the window-manager operations send to the interpreter.
use vstd::prelude::*;

use crate::protocol::is_white_space;
use crate::window_manager::{
    ratio_order,
    window_type_name,
    WMAspectRatio,
    X11WMAttrType,
};

verus! {

/// The character of a decimal digit.
pub open spec fn digit_char(d: nat) -> char {
    seq!['0', '1', '2', '3', '4', '5', '6', '7', '8', '9'][d as int]
}

/// The decimal notation of `n`, without sign or leading zeros.
pub open spec fn decimal_of(n: nat) -> Seq<char>
    decreases n,
{
    if n < 10 {
        seq![digit_char(n)]
    } else {
        decimal_of(n / 10) + seq![digit_char(n % 10)]
    }
}

/// The decimal notation of `n`.
pub fn decimal(n: u32) -> (r: String)
    ensures
        r@ == decimal_of(n as nat),
{
    let digits = "0123456789";
    proof {
        reveal_strlit("0123456789");
        assert(digits@ =~= seq!['0', '1', '2', '3', '4', '5', '6', '7', '8', '9']);
    }
    let d = (n % 10) as usize;
    let mut acc = String::from_str(digits.substring_char(d, d + 1));
    let mut m: u32 = n / 10;
    assert(acc@ =~= seq![digit_char((n % 10) as nat)]);
    while m > 0
        invariant
            m == 0 ==> acc@ == decimal_of(n as nat),
            m > 0 ==> decimal_of(n as nat) == decimal_of(m as nat) + acc@,
            digits@ =~= seq!['0', '1', '2', '3', '4', '5', '6', '7', '8', '9'],
        decreases m,
    {
        let d = (m % 10) as usize;
        let digit = String::from_str(digits.substring_char(d, d + 1));
        assert(digit@ =~= seq![digit_char((m % 10) as nat)]);
        let ghost old_acc = acc@;
        acc = digit.concat(acc.as_str());
        if m >= 10 {
            assert(decimal_of(m as nat) == decimal_of((m / 10) as nat) + seq![
                digit_char((m % 10) as nat),
            ]);
            assert(decimal_of(n as nat) =~= decimal_of((m / 10) as nat) + acc@);
        } else {
            assert(decimal_of(n as nat) =~= acc@);
        }
        m = m / 10;
    }
    acc
}

/// The two ratios in increasing order; equal ones keep their places.
pub open spec fn ordered(a: WMAspectRatio, b: WMAspectRatio) -> (WMAspectRatio, WMAspectRatio) {
    if ratio_order(b, a) == core::cmp::Ordering::Less {
        (b, a)
    } else {
        (a, b)
    }
}

/// Sorts a pair of aspect ratios, smaller ratio first.
pub fn order_ratios(a: WMAspectRatio, b: WMAspectRatio) -> (r: (WMAspectRatio, WMAspectRatio))
    ensures
        r == ordered(a, b),
{
    match b.compare(&a) {
        core::cmp::Ordering::Less => (b, a),
        _ => (a, b),
    }
}

/// The arguments of `wm aspect` that set the given bounds: four empty
/// arguments when both are unspecified, else the two fractions' parts.
pub open spec fn aspect_arguments(min: WMAspectRatio, max: WMAspectRatio) -> Seq<char> {
    if min.spec_width() == 0 && min.spec_height() == 0 {
        "\"\" \"\" \"\" \"\""@
    } else {
        decimal_of(min.spec_width() as nat) + seq![' '] + decimal_of(min.spec_height() as nat)
            + seq![' '] + decimal_of(max.spec_width() as nat) + seq![' '] + decimal_of(
            max.spec_height() as nat,
        )
    }
}

/// `wm aspect <path> `: the command that asks for the aspect bounds of a window.
pub open spec fn aspect_query_of(path_name: Seq<char>) -> Seq<char> {
    "wm aspect "@ + path_name + seq![' ']
}

/// The command that asks for the aspect bounds of the window `path_name`.
pub fn aspect_query(path_name: &str) -> (r: String)
    ensures
        r@ == aspect_query_of(path_name@),
{
    let r = String::from_str("wm aspect ").concat(path_name).concat(" ");
    proof {
        reveal_strlit(" ");
    }
    assert(r@ =~= aspect_query_of(path_name@));
    r
}

/// The command that sets the aspect bounds of the window `path_name`; `min`
/// and `max` must be both unspecified or both specified.
pub fn aspect_command(path_name: &str, min: WMAspectRatio, max: WMAspectRatio) -> (r: String)
    requires
        min.wf(),
        max.wf(),
        (min.spec_width() == 0) == (max.spec_width() == 0),
    ensures
        r@ == aspect_query_of(path_name@) + aspect_arguments(min, max),
{
    let cmd = aspect_query(path_name);
    if min.is_unspecified() {
        let r = cmd.concat("\"\" \"\" \"\" \"\"");
        r
    } else {
        let r = cmd.concat(decimal(min.width()).as_str()).concat(" ").concat(
            decimal(min.height()).as_str(),
        ).concat(" ").concat(decimal(max.width()).as_str()).concat(" ").concat(
            decimal(max.height()).as_str(),
        );
        proof {
            reveal_strlit(" ");
        }
        assert(r@ =~= aspect_query_of(path_name@) + aspect_arguments(min, max));
        r
    }
}

/// `wm attributes <path> <flag> `: the command that asks for an attribute of a
/// window, and that, followed by a value, sets it.
pub open spec fn attribute_query_of(path_name: Seq<char>, flag: Seq<char>) -> Seq<char> {
    "wm attributes "@ + path_name + seq![' '] + flag + seq![' ']
}

/// The command that asks for the attribute `flag` of the window `path_name`.
pub fn attribute_query(path_name: &str, flag: &str) -> (r: String)
    ensures
        r@ == attribute_query_of(path_name@, flag@),
{
    let r = String::from_str("wm attributes ").concat(path_name).concat(" ").concat(flag).concat(
        " ",
    );
    proof {
        reveal_strlit(" ");
    }
    assert(r@ =~= attribute_query_of(path_name@, flag@));
    r
}

/// How a boolean attribute is written: `1` or `0`.
pub open spec fn flag_of(b: bool) -> Seq<char> {
    if b {
        seq!['1']
    } else {
        seq!['0']
    }
}

/// The argument that sets a boolean attribute.
pub fn flag_argument(b: bool) -> (r: String)
    ensures
        r@ == flag_of(b),
{
    let r = if b {
        String::from_str("1")
    } else {
        String::from_str("0")
    };
    proof {
        reveal_strlit("1");
        reveal_strlit("0");
    }
    r
}

/// The names of the window types, separated by single spaces.
pub open spec fn joined_names(types: Seq<X11WMAttrType>) -> Seq<char>
    decreases types.len(),
{
    if types.len() == 0 {
        seq![]
    } else if types.len() == 1 {
        window_type_name(types[0])
    } else {
        joined_names(types.drop_last()) + seq![' '] + window_type_name(types.last())
    }
}

/// The argument that sets the window types: their names as one Tcl list,
/// `{name name ...}`.
pub fn types_argument(types: &Vec<X11WMAttrType>) -> (r: String)
    ensures
        r@ == seq!['{'] + joined_names(types@) + seq!['}'],
{
    let mut acc = String::new();
    let mut i: usize = 0;
    proof {
        reveal_strlit(" ");
    }
    while i < types.len()
        invariant
            i <= types@.len(),
            acc@ == joined_names(types@.subrange(0, i as int)),
        decreases types@.len() - i,
    {
        let name = types[i].name();
        let ghost before = acc@;
        if i > 0 {
            acc = acc.concat(" ");
        }
        acc = acc.concat(name.as_str());
        proof {
            reveal_strlit(" ");
            let next = types@.subrange(0, i + 1);
            assert(next.drop_last() =~= types@.subrange(0, i as int));
            assert(next.last() == types@[i as int]);
            if i == 0 {
                assert(acc@ =~= joined_names(next));
            } else {
                assert(acc@ =~= before + seq![' '] + window_type_name(types@[i as int]));
                assert(joined_names(next) == joined_names(next.drop_last()) + seq![' ']
                    + window_type_name(next.last()));
                assert(acc@ =~= joined_names(next));
            }
        }
        i = i + 1;
    }
    assert(types@.subrange(0, types@.len() as int) =~= types@);
    let r = String::from_str("{").concat(acc.as_str()).concat("}");
    proof {
        reveal_strlit("{");
        reveal_strlit("}");
    }
    assert(r@ =~= seq!['{'] + joined_names(types@) + seq!['}']);
    r
}

/// The value of a string of decimal digits.
pub open spec fn digits_value(s: Seq<char>) -> nat
    decreases s.len(),
{
    if s.len() == 0 {
        0
    } else {
        digits_value(s.drop_last()) * 10 + (s.last() as u32 - '0' as u32) as nat
    }
}

/// What `u8::from_str` reads from `s`: an optional `+` and at least one
/// decimal digit, with a value that fits in a `u8`.
pub open spec fn u8_value(s: Seq<char>) -> Option<u8> {
    let d = if s.len() > 0 && s[0] == '+' {
        s.drop_first()
    } else {
        s
    };
    if d.len() > 0 && (forall|i: int| 0 <= i < d.len() ==> '0' as u32 <= #[trigger] d[i] as u32 <= '9' as u32)
        && digits_value(d) < 256 {
        Some(digits_value(d) as u8)
    } else {
        None
    }
}

/// Relies on `u8::from_str` (`str::parse::<u8>`): it accepts an optional `+`
/// followed by decimal digits whose value fits in a `u8`, and nothing else.
#[verifier::external_body]
fn parse_u8(s: &str) -> (r: Option<u8>)
    ensures
        r == u8_value(s@),
{
    s.parse::<u8>().ok()
}

/// Reads a boolean attribute from the interpreter's answer, a number where
/// zero means false; `None` when the answer is no `u8`.
pub fn parse_flag(response: &str) -> (r: Option<bool>)
    ensures
        r == (match u8_value(response@) {
            Some(v) => Some(v != 0),
            None => None,
        }),
{
    match parse_u8(response) {
        Some(v) => Some(v != 0),
        None => None,
    }
}

/// The words of `s`: its maximal runs of characters that are not whitespace,
/// in order.
pub open spec fn words_of(s: Seq<char>) -> Seq<Seq<char>>
    decreases s.len(),
{
    if s.len() == 0 {
        seq![]
    } else {
        let rest = words_of(s.drop_last());
        if is_white_space(s.last()) {
            rest
        } else if s.len() > 1 && !is_white_space(s[s.len() - 2]) {
            rest.update(rest.len() - 1, rest.last().push(s.last()))
        } else {
            rest.push(seq![s.last()])
        }
    }
}

/// Relies on `str::split_whitespace`: it yields the maximal runs of characters
/// for which `char::is_whitespace` does not hold, in order.
#[verifier::external_body]
fn split_words(s: &str) -> (r: Vec<String>)
    ensures
        r@.map_values(|w: String| w@) == words_of(s@),
{
    s.split_whitespace().map(|w| w.to_string()).collect()
}

/// Reads the window types from the interpreter's answer, a list of their
/// names; `None` when a word names no type.
pub fn parse_types(response: &str) -> (r: Option<Vec<X11WMAttrType>>)
    ensures
        match r {
            Some(ts) => ts@.map_values(|t: X11WMAttrType| window_type_name(t)) == words_of(
                response@,
            ),
            None => exists|i: int|
                0 <= i < words_of(response@).len() && forall|t: X11WMAttrType|
                    window_type_name(t) != #[trigger] words_of(response@)[i],
        },
{
    let words = split_words(response);
    let ghost ws = words_of(response@);
    let ghost viewed = words@.map_values(|w: String| w@);
    assert(words@.len() == ws.len() && forall|k: int| 0 <= k < ws.len() ==> ws[k] == (
    #[trigger] words@[k])@) by {
        assert(forall|k: int| 0 <= k < ws.len() ==> ws[k] == #[trigger] viewed[k]);
    }
    let mut types: Vec<X11WMAttrType> = Vec::new();
    let mut i: usize = 0;
    while i < words.len()
        invariant
            i <= words@.len(),
            ws == words_of(response@),
            words@.len() == ws.len(),
            forall|k: int| 0 <= k < ws.len() ==> ws[k] == (#[trigger] words@[k])@,
            types@.len() == i,
            forall|k: int| 0 <= k < i ==> window_type_name(#[trigger] types@[k]) == ws[k],
        decreases words@.len() - i,
    {
        match X11WMAttrType::from_name(words[i].as_str()) {
            Some(t) => types.push(t),
            None => {
                assert(forall|t: X11WMAttrType| window_type_name(t) != #[trigger] ws[i as int]);
                assert(0 <= i < ws.len() && forall|t: X11WMAttrType|
                    window_type_name(t) != #[trigger] words_of(response@)[i as int]);
                return None;
            },
        }
        i = i + 1;
    }
    assert(types@.map_values(|t: X11WMAttrType| window_type_name(t)) =~= ws);
    Some(types)
}

} // verus!
