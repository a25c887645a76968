//! Text helpers shared by the diagnostics of the plugin lifecycle.
use vstd::prelude::*;
use vstd::string::StringExecFns;

verus! {

/// The characters of every string of `v`, in order.
pub open spec fn strings_view(v: Seq<String>) -> Seq<Seq<char>> {
    v.map_values(|s: String| s@)
}

/// Pushing a string onto a vector pushes its characters onto the vector's text.
pub proof fn lemma_strings_view_push(v: Seq<String>, s: String)
    ensures
        strings_view(v.push(s)) == strings_view(v).push(s@),
{
}

/// A copy of `items`, string by string.
pub fn clone_strings(items: &[String]) -> (r: Vec<String>)
    ensures
        strings_view(r@) == strings_view(items@),
{
    let mut out: Vec<String> = Vec::new();
    let mut i: usize = 0;
    while i < items.len()
        invariant
            i <= items.len(),
            out@.len() == i,
            forall|k: int| 0 <= k < i ==> out@[k]@ == items@[k]@,
        decreases items.len() - i,
    {
        out.push(items[i].clone());
        i += 1;
    }
    out
}

/// The text of one decimal digit; empty for a number that is no digit.
pub open spec fn digit_text(d: nat) -> Seq<char> {
    if d == 0 {
        "0"@
    } else if d == 1 {
        "1"@
    } else if d == 2 {
        "2"@
    } else if d == 3 {
        "3"@
    } else if d == 4 {
        "4"@
    } else if d == 5 {
        "5"@
    } else if d == 6 {
        "6"@
    } else if d == 7 {
        "7"@
    } else if d == 8 {
        "8"@
    } else if d == 9 {
        "9"@
    } else {
        Seq::empty()
    }
}

/// The decimal numeral of `n`, most significant digit first, without leading zeros.
pub open spec fn decimal_text(n: nat) -> Seq<char>
    decreases n,
{
    if n < 10 {
        digit_text(n)
    } else {
        decimal_text(n / 10) + digit_text(n % 10)
    }
}

fn digit_str(d: u64) -> (r: &'static str)
    requires
        d < 10,
    ensures
        r@ == digit_text(d as nat),
{
    if d == 0 {
        "0"
    } else if d == 1 {
        "1"
    } else if d == 2 {
        "2"
    } else if d == 3 {
        "3"
    } else if d == 4 {
        "4"
    } else if d == 5 {
        "5"
    } else if d == 6 {
        "6"
    } else if d == 7 {
        "7"
    } else if d == 8 {
        "8"
    } else {
        "9"
    }
}

/// Appends the decimal numeral of `n` to `out`.
pub fn push_decimal(out: &mut String, n: u64)
    ensures
        final(out)@ == old(out)@ + decimal_text(n as nat),
    decreases n,
{
    if n < 10 {
        out.append(digit_str(n));
    } else {
        push_decimal(out, n / 10);
        out.append(digit_str(n % 10));
        assert(final(out)@ == old(out)@ + decimal_text(n as nat)) by {
            assert(out@ =~= old(out)@ + (decimal_text((n / 10) as nat) + digit_text(
                (n % 10) as nat,
            )));
        }
    }
}

/// The text that `std` prints for a string under the `{:?}` format: the string
/// between double quotes, with the characters that `char::escape_debug` escapes
/// written as escapes.
pub uninterp spec fn debug_text(s: Seq<char>) -> Seq<char>;

/// `std`'s `Debug` rendering of a string slice, through `format!("{:?}", ..)`.
/// The contract names the result and claims nothing more: the rendering
/// depends on the characters of `s` alone.
#[verifier::external_body]
pub(crate) fn debug_string(s: &str) -> (r: String)
    ensures
        r@ == debug_text(s@),
{
    format!("{:?}", s)
}

/// The items of `items` joined by `", "`.
pub open spec fn comma_joined(items: Seq<Seq<char>>) -> Seq<char>
    decreases items.len(),
{
    if items.len() == 0 {
        Seq::empty()
    } else if items.len() == 1 {
        items[0]
    } else {
        comma_joined(items.drop_last()) + ", "@ + items.last()
    }
}

/// The `{:?}` rendering of a list of strings: the `{:?}` rendering of each,
/// separated by `", "`, between square brackets.
pub open spec fn debug_list_text(items: Seq<Seq<char>>) -> Seq<char> {
    "["@ + comma_joined(items.map_values(|s: Seq<char>| debug_text(s))) + "]"@
}

/// Renders a list of strings as `{:?}` renders a `Vec<String>`.
pub fn debug_list(items: &Vec<String>) -> (r: String)
    ensures
        r@ == debug_list_text(strings_view(items@)),
{
    let mut out = String::from_str("[");
    let ghost quoted = strings_view(items@).map_values(|s: Seq<char>| debug_text(s));
    let mut i: usize = 0;
    while i < items.len()
        invariant
            i <= items.len(),
            quoted == strings_view(items@).map_values(|s: Seq<char>| debug_text(s)),
            out@ == "["@ + comma_joined(quoted.take(i as int)),
        decreases items.len() - i,
    {
        let item = debug_string(items[i].as_str());
        proof {
            let prefix = quoted.take(i as int + 1);
            assert(prefix.drop_last() =~= quoted.take(i as int));
        }
        if i > 0 {
            out.append(", ");
        }
        out.append(item.as_str());
        i += 1;
    }
    assert(quoted.take(i as int) =~= quoted);
    out.append("]");
    out
}

} // verus!
