//! How numbers and flags read in the one-line summaries of boxes.

use vstd::prelude::*;
use vstd::string::StringExecFns;

verus! {

/// The character of the decimal digit `d`.
pub open spec fn digit_char(d: nat) -> char {
    (48 + d) as char
}

/// The decimal digits of `n`, with no leading zero: how `Display` writes an unsigned integer.
#[verifier::opaque]
pub open spec fn decimal(n: nat) -> Seq<char>
    decreases n,
{
    if n < 10 {
        seq![digit_char(n)]
    } else {
        decimal(n / 10).push(digit_char(n % 10))
    }
}

/// How `Display` writes a flag.
#[verifier::opaque]
pub open spec fn bool_text(b: bool) -> Seq<char> {
    if b {
        "true"@
    } else {
        "false"@
    }
}

/// `text` shows `value` right after `key`, and the value ends at the end of the text or at a
/// space.
pub open spec fn shows(text: Seq<char>, key: Seq<char>, value: Seq<char>) -> bool {
    exists|pre: Seq<char>, post: Seq<char>|
        #![trigger pre + key, key + value + post]
        text == pre + key + value + post && (post.len() == 0 || post[0] == ' ')
}

/// A text made of a part before, the key, the value and a part after that is empty or begins
/// with a space shows the value after the key.
pub proof fn lemma_shows(
    text: Seq<char>,
    pre: Seq<char>,
    key: Seq<char>,
    value: Seq<char>,
    post: Seq<char>,
)
    requires
        text == pre + key + value + post,
        post.len() == 0 || post[0] == ' ',
    ensures
        shows(text, key, value),
{
    assert(text == pre + key + value + post);
    let _ = key + value + post;
}

/// std's `ToString` of a `u64`, which writes it by `Display`: its decimal digits, with no
/// leading zero.
#[verifier::external_body]
fn decimal_u64(n: u64) -> (s: String)
    ensures
        s@ == decimal(n as nat),
{
    n.to_string()
}

/// Appends the decimal digits of `n`.
pub(crate) fn push_decimal(s: &mut String, n: u64)
    ensures
        final(s)@ == old(s)@ + decimal(n as nat),
{
    let d = decimal_u64(n);
    s.append(d.as_str());
}

/// Appends `true` or `false`.
pub(crate) fn push_bool(s: &mut String, b: bool)
    ensures
        final(s)@ == old(s)@ + bool_text(b),
{
    reveal(bool_text);
    if b {
        s.append("true");
    } else {
        s.append("false");
    }
}

} // verus!
