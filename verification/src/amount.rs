//! Amounts, denominated by the precision their token declares.

use crate::error::{result_view, TransferError, TransferErrorView};
use vstd::prelude::*;
use vstd::string::StringExecFns;

verus! {

/// What the network said when asked for a token's decimal precision.
#[derive(Clone, Copy, Debug, PartialEq, Eq, Structural)]
pub enum PrecisionReply {
    /// The token declares this many decimal places.
    Declared(u8),
    /// The network answered, but knows no precision for the token.
    Undeclared,
    /// The network could not be reached.
    Unreachable,
}

/// A raw amount, together with the number of decimal places of its token.
/// It is made once, by `normalize`, and only read afterwards.
#[derive(Clone, Copy, Debug, PartialEq, Eq, Structural)]
pub struct NormalizedAmount {
    raw: u64,
    precision: u8,
}

/// A `NormalizedAmount` as two natural numbers.
pub struct NormalizedAmountView {
    pub raw: nat,
    pub precision: nat,
}

impl View for NormalizedAmount {
    type V = NormalizedAmountView;

    closed spec fn view(&self) -> NormalizedAmountView {
        NormalizedAmountView { raw: self.raw as nat, precision: self.precision as nat }
    }
}

impl NormalizedAmount {
    pub fn raw(&self) -> (raw: u64)
        ensures
            raw == self@.raw,
    {
        self.raw
    }

    pub fn precision(&self) -> (precision: u8)
        ensures
            precision == self@.precision,
    {
        self.precision
    }

    /// Writes the amount in decimal, with as many places after the point as
    /// the token has.
    pub fn to_text(&self) -> (text: String)
        ensures
            text@ == amount_text(self@),
    {
        let mut text = String::from_str("");
        proof {
            reveal_strlit("");
        }
        push_decimal(self.raw, &mut text);
        if self.precision > 0 {
            proof {
                reveal_strlit(".");
                reveal_strlit("0");
            }
            text.append(".");
            let ghost head = text@;
            let mut written: u8 = 0;
            while written < self.precision
                invariant
                    written <= self.precision,
                    text@ == head + zeros(written as nat),
                    "0"@ == seq!['0'],
                decreases self.precision - written,
            {
                text.append("0");
                written = written + 1;
            }
        }
        text
    }
}

/// The amount that a raw number and the network's reply make: the reply
/// has to declare a precision.
pub open spec fn normalize_spec(raw_amount: u64, reply: PrecisionReply) -> Result<
    NormalizedAmountView,
    TransferErrorView,
> {
    match reply {
        PrecisionReply::Declared(precision) => Ok(
            NormalizedAmountView { raw: raw_amount as nat, precision: precision as nat },
        ),
        PrecisionReply::Undeclared => Err(TransferErrorView::DenominationQueryFailed),
        PrecisionReply::Unreachable => Err(TransferErrorView::DenominationQueryFailed),
    }
}

/// Denominates a raw amount by the precision that the network declared for
/// its token.
pub fn normalize(raw_amount: u64, reply: PrecisionReply) -> (normalized: Result<
    NormalizedAmount,
    TransferError,
>)
    ensures
        result_view(normalized) == normalize_spec(raw_amount, reply),
{
    match reply {
        PrecisionReply::Declared(precision) => Ok(NormalizedAmount { raw: raw_amount, precision }),
        PrecisionReply::Undeclared => Err(TransferError::DenominationQueryFailed),
        PrecisionReply::Unreachable => Err(TransferError::DenominationQueryFailed),
    }
}

/// The ten decimal digits, in order of their value.
pub open spec fn decimal_digits() -> Seq<char> {
    seq!['0', '1', '2', '3', '4', '5', '6', '7', '8', '9']
}

/// A natural number in decimal, without leading zeros.
pub open spec fn decimal(n: nat) -> Seq<char>
    decreases n,
{
    if n < 10 {
        seq![decimal_digits()[n as int]]
    } else {
        decimal(n / 10).push(decimal_digits()[(n % 10) as int])
    }
}

/// A run of the digit zero.
pub open spec fn zeros(count: nat) -> Seq<char> {
    Seq::new(count, |i: int| '0')
}

/// An amount in decimal: the raw amount, then, where the token has decimal
/// places, a point and a zero for each of them.
pub open spec fn amount_text(amount: NormalizedAmountView) -> Seq<char> {
    if amount.precision == 0 {
        decimal(amount.raw)
    } else {
        decimal(amount.raw) + seq!['.'] + zeros(amount.precision)
    }
}

/// One decimal digit as a string.
fn digit_str(digit: u64) -> (text: &'static str)
    requires
        digit < 10,
    ensures
        text@ == seq![decimal_digits()[digit as int]],
{
    proof {
        reveal_strlit("0");
        reveal_strlit("1");
        reveal_strlit("2");
        reveal_strlit("3");
        reveal_strlit("4");
        reveal_strlit("5");
        reveal_strlit("6");
        reveal_strlit("7");
        reveal_strlit("8");
        reveal_strlit("9");
    }
    let text = if digit == 0 {
        "0"
    } else if digit == 1 {
        "1"
    } else if digit == 2 {
        "2"
    } else if digit == 3 {
        "3"
    } else if digit == 4 {
        "4"
    } else if digit == 5 {
        "5"
    } else if digit == 6 {
        "6"
    } else if digit == 7 {
        "7"
    } else if digit == 8 {
        "8"
    } else {
        "9"
    };
    assert(text@ =~= seq![decimal_digits()[digit as int]]);
    text
}

/// Appends a number in decimal to a string.
fn push_decimal(n: u64, text: &mut String)
    ensures
        final(text)@ == old(text)@ + decimal(n as nat),
    decreases n,
{
    if n >= 10 {
        push_decimal(n / 10, text);
    }
    text.append(digit_str(n % 10));
}

} // verus!
