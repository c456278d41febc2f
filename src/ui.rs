use vstd::prelude::*;

pub mod mock_panel;
pub mod panel;

verus! {

#[verifier::external_type_specification]
#[verifier::external_body]
pub struct ExContentStyle(crossterm::style::ContentStyle);

/// How textwrap breaks a text into lines of at most `width` columns.
pub uninterp spec fn wrapped_lines(text: Seq<char>, width: usize) -> Seq<Seq<char>>;

/// Relies on `textwrap::wrap` with a plain width: its lines depend on the
/// text and the width alone.
#[verifier::external_body]
pub(crate) fn wrap_text(text: &str, width: usize) -> (r: Vec<String>)
    ensures
        r@.len() == wrapped_lines(text@, width).len(),
        forall|i: int| 0 <= i < r@.len() ==> #[trigger] r@[i]@ == wrapped_lines(text@, width)[i],
{
    textwrap::wrap(text, width).into_iter().map(|line| line.into_owned()).collect()
}

/// `n` copies of the text `s`, one after another.
pub open spec fn repeat(s: Seq<char>, n: nat) -> Seq<char>
    decreases n,
{
    if n == 0 {
        Seq::empty()
    } else {
        repeat(s, (n - 1) as nat) + s
    }
}

/// A string of `n` copies of `s`.
pub fn repeat_str(s: &str, n: usize) -> (r: String)
    ensures
        r@ == repeat(s@, n as nat),
{
    let mut out = String::new();
    let mut i: usize = 0;
    while i < n
        invariant
            i <= n,
            out@ == repeat(s@, i as nat),
        decreases n - i,
    {
        out.append(s);
        i = i + 1;
    }
    out
}

} // verus!
