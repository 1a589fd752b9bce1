//! Building the text of messages.
use vstd::prelude::*;

verus! {

/// Appends `c` with `String::push`.
///
/// Trusted: std documents `push` as appending the given char to the end of
/// the string.
#[verifier::external_body]
pub(crate) fn push_char(s: &mut String, c: char)
    ensures
        final(s)@ == old(s)@.push(c),
{
    s.push(c)
}

/// The ASCII digit for `d`, which is below ten.
pub open spec fn digit_char(d: nat) -> char {
    ((48 + d) as u8) as char
}

/// The decimal notation of `n`, without leading zeros (what `{}` shows for
/// an unsigned integer).
pub open spec fn decimal(n: nat) -> Seq<char>
    decreases n,
{
    if n < 10 {
        seq![digit_char(n)]
    } else {
        decimal(n / 10).push(digit_char(n % 10))
    }
}

/// Appends the decimal notation of `n` to `out`.
pub fn push_decimal(out: &mut String, n: u64)
    ensures
        final(out)@ == old(out)@ + decimal(n as nat),
    decreases n,
{
    if n >= 10 {
        push_decimal(out, n / 10);
    }
    let d: u8 = (n % 10) as u8;
    let c = (48u8 + d) as char;
    push_char(out, c);
    proof {
        assert(old(out)@ + decimal(n as nat) =~= (if n >= 10 {
            old(out)@ + decimal((n / 10) as nat)
        } else {
            old(out)@
        }).push(digit_char((n % 10) as nat)));
    }
}

} // verus!
