use vstd::prelude::*;

verus! {

/// The character of a decimal digit `d < 10`.
pub open spec fn digit_char(d: nat) -> char
    recommends
        d < 10,
{
    seq!['0', '1', '2', '3', '4', '5', '6', '7', '8', '9'][d as int]
}

/// The decimal notation of `n`: no sign, no leading zeros, "0" for zero.
pub open spec fn decimal(n: nat) -> Seq<char>
    decreases n,
{
    if n < 10 {
        seq![digit_char(n)]
    } else {
        decimal(n / 10).push(digit_char(n % 10))
    }
}

/// The text of the render-timing readout for a render of `ms` milliseconds.
pub open spec fn readout_text(ms: nat) -> Seq<char> {
    "The last rendering took "@ + decimal(ms) + " ms"@
}

fn digit_str(d: u128) -> (r: &'static str)
    requires
        d < 10,
    ensures
        r@ == seq![digit_char(d as nat)],
{
    proof {
        reveal_strlit("0");
        reveal_strlit("1");
        reveal_strlit("2");
        reveal_strlit("3");
        reveal_strlit("4");
        reveal_strlit("5");
        reveal_strlit("6");
        reveal_strlit("7");
        reveal_strlit("8");
        reveal_strlit("9");
    }
    if d == 0 {
        "0"
    } else if d == 1 {
        "1"
    } else if d == 2 {
        "2"
    } else if d == 3 {
        "3"
    } else if d == 4 {
        "4"
    } else if d == 5 {
        "5"
    } else if d == 6 {
        "6"
    } else if d == 7 {
        "7"
    } else if d == 8 {
        "8"
    } else {
        "9"
    }
}

/// Appends the decimal notation of `n` to `out`.
pub fn push_decimal(out: &mut String, n: u128)
    ensures
        final(out)@ == old(out)@ + decimal(n as nat),
    decreases n,
{
    if n >= 10 {
        push_decimal(out, n / 10);
    }
    out.append(digit_str(n % 10));
    assert(out@ =~= old(out)@ + decimal(n as nat));
}

/// The render-timing readout for a render that took `ms` milliseconds.
pub fn render_time_text(ms: u128) -> (r: String)
    ensures
        r@ == readout_text(ms as nat),
{
    let mut out = String::from_str("The last rendering took ");
    push_decimal(&mut out, ms);
    out.append(" ms");
    out
}

/// The render-timing readout shows a non-negative whole number of
/// milliseconds: the text between its fixed prefix and suffix is a non-empty
/// run of decimal digits, with no sign.
pub proof fn lemma_readout_non_negative(ms: nat)
    ensures
        readout_text(ms) == "The last rendering took "@ + decimal(ms) + " ms"@,
        decimal(ms).len() > 0,
        forall|i: int| 0 <= i < decimal(ms).len() ==> '0' <= #[trigger] decimal(ms)[i] <= '9',
    decreases ms,
{
    if ms >= 10 {
        lemma_readout_non_negative(ms / 10);
        assert forall|i: int| 0 <= i < decimal(ms).len() implies '0' <= #[trigger] decimal(ms)[i]
            <= '9' by {
            if i < decimal(ms / 10).len() {
                assert(decimal(ms)[i] == decimal(ms / 10)[i]);
            }
        }
    }
}

} // verus!
