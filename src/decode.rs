use vstd::prelude::*;

use crate::ledger::TxnType;

verus! {

/// One more than the largest `u64`: the cap at which digit accumulation saturates.
const SATURATION: u128 = 0x1_0000_0000_0000_0000;

pub open spec fn is_digit(b: u8) -> bool {
    48 <= b <= 57
}

pub open spec fn all_digits(s: Seq<u8>) -> bool {
    forall|i: int| 0 <= i < s.len() ==> is_digit(#[trigger] s[i])
}

/// The number that a run of ASCII digits spells in base ten.
pub open spec fn digits_value(s: Seq<u8>) -> nat
    decreases s.len(),
{
    if s.len() == 0 {
        0
    } else {
        digits_value(s.drop_last()) * 10 + (s.last() - 48) as nat
    }
}

/// Number of fraction digits in a decimal amount: the text ends in `.d` or `.dd`.
pub open spec fn fraction_len(s: Seq<u8>) -> int {
    if s.len() >= 3 && s[s.len() - 3] == 46u8 {
        2
    } else if s.len() >= 2 && s[s.len() - 2] == 46u8 {
        1
    } else {
        0
    }
}

pub open spec fn whole_part(s: Seq<u8>) -> Seq<u8> {
    if fraction_len(s) == 0 {
        s
    } else {
        s.take(s.len() - fraction_len(s) - 1)
    }
}

pub open spec fn fraction_part(s: Seq<u8>) -> Seq<u8> {
    s.skip(s.len() - fraction_len(s))
}

/// Whether `s` is a non-negative decimal with at most two fraction digits.
pub open spec fn well_formed_amount(s: Seq<u8>) -> bool {
    whole_part(s).len() > 0 && all_digits(whole_part(s)) && all_digits(fraction_part(s))
}

/// The amount, in hundredths, that a well-formed decimal spells.
pub open spec fn amount_value(s: Seq<u8>) -> nat {
    digits_value(whole_part(s)) * 100 + digits_value(fraction_part(s)) * (if fraction_len(s) == 1 {
        10nat
    } else {
        1nat
    })
}

proof fn lemma_short_digits(s: Seq<u8>)
    requires
        all_digits(s),
        s.len() <= 2,
    ensures
        digits_value(s) < 100,
        s.len() <= 1 ==> digits_value(s) < 10,
    decreases s.len(),
{
    if s.len() > 0 {
        let p = s.drop_last();
        assert(all_digits(p)) by {
            assert forall|k: int| 0 <= k < p.len() implies is_digit(#[trigger] p[k]) by {
                assert(p[k] == s[k]);
            }
        }
        lemma_short_digits(p);
        assert(is_digit(s[s.len() - 1]));
    }
}

proof fn lemma_saturate_step(x: nat, d: nat)
    ensures
        (if x < SATURATION { x } else { SATURATION as nat }) * 10 + d >= SATURATION
            <==> x * 10 + d >= SATURATION,
        x < SATURATION ==> (x * 10 + d) == x * 10 + d,
{
    if x >= SATURATION {
        assert(x * 10 + d >= SATURATION) by (nonlinear_arith)
            requires
                x >= SATURATION,
        ;
    }
}

/// Reads the digits `s[from..to]`, saturating at `SATURATION`; `None` when one of
/// them is not a digit.
fn read_digits(s: &[u8], from: usize, to: usize) -> (r: Option<u128>)
    requires
        from <= to <= s@.len(),
    ensures
        r is None <==> !all_digits(s@.subrange(from as int, to as int)),
        r matches Some(v) ==> v == (if digits_value(s@.subrange(from as int, to as int))
            < SATURATION { digits_value(s@.subrange(from as int, to as int)) } else {
            SATURATION as nat
        }),
{
    let mut acc: u128 = 0;
    let mut i: usize = from;
    while i < to
        invariant
            from <= i <= to <= s@.len(),
            all_digits(s@.subrange(from as int, i as int)),
            acc == (if digits_value(s@.subrange(from as int, i as int)) < SATURATION {
                digits_value(s@.subrange(from as int, i as int))
            } else {
                SATURATION as nat
            }),
        decreases to - i,
    {
        let b = s[i];
        if b < 48 || b > 57 {
            assert(s@.subrange(from as int, to as int)[i - from] == b);
            return None;
        }
        let ghost prev = s@.subrange(from as int, i as int);
        let ghost next = s@.subrange(from as int, i + 1);
        assert(next.drop_last() =~= prev);
        assert(next.last() == b);
        proof {
            lemma_saturate_step(digits_value(prev), (b - 48) as nat);
        }
        let step: u128 = acc * 10 + (b - 48) as u128;
        acc = if step >= SATURATION { SATURATION } else { step };
        i = i + 1;
        assert(all_digits(s@.subrange(from as int, i as int))) by {
            assert forall|k: int| 0 <= k < next.len() implies is_digit(#[trigger] next[k]) by {
                if k < prev.len() {
                    assert(next[k] == prev[k]);
                }
            }
        }
    }
    Some(acc)
}

/// Reads a decimal amount such as `80`, `80.5` or `80.00` into hundredths of
/// the currency unit. `None` when the text is not such a decimal, or when its
/// value does not fit in a `u64`.
pub fn parse_amount(text: &[u8]) -> (r: Option<u64>)
    ensures
        r is Some <==> well_formed_amount(text@) && amount_value(text@) <= u64::MAX,
        r matches Some(v) ==> v == amount_value(text@),
{
    let n = text.len();
    let frac: usize = if n >= 3 && text[n - 3] == 46u8 {
        2
    } else if n >= 2 && text[n - 2] == 46u8 {
        1
    } else {
        0
    };
    let whole_end: usize = if frac == 0 { n } else { n - frac - 1 };
    assert(text@.subrange(0, whole_end as int) =~= whole_part(text@));
    assert(text@.subrange((n - frac) as int, n as int) =~= fraction_part(text@));
    if whole_end == 0 {
        return None;
    }
    let whole = match read_digits(text, 0, whole_end) {
        Some(w) => w,
        None => return None,
    };
    let fraction = match read_digits(text, n - frac, n) {
        Some(f) => f,
        None => return None,
    };
    if whole >= SATURATION {
        assert(amount_value(text@) >= SATURATION * 100) by (nonlinear_arith)
            requires
                digits_value(whole_part(text@)) >= SATURATION,
                amount_value(text@) >= digits_value(whole_part(text@)) * 100,
        ;
        return None;
    }
    proof {
        lemma_short_digits(fraction_part(text@));
    }
    assert(fraction < 100);
    let scale: u128 = if frac == 1 { 10 } else { 1 };
    let value: u128 = whole * 100 + fraction * scale;
    if value > 0xffff_ffff_ffff_ffff {
        return None;
    }
    Some(value as u64)
}

/// The transaction type that a message names: `credit` or `purchase`.
pub open spec fn txn_type_named(s: Seq<char>) -> Option<TxnType> {
    if s == "credit"@ {
        Some(TxnType::Credit)
    } else if s == "purchase"@ {
        Some(TxnType::Purchase)
    } else {
        None
    }
}

/// Reads a transaction type from its name.
pub fn parse_txn_type(s: &str) -> (r: Option<TxnType>)
    ensures
        r == txn_type_named(s@),
{
    let owned = s.to_owned();
    if owned == String::from_str("credit") {
        Some(TxnType::Credit)
    } else if owned == String::from_str("purchase") {
        Some(TxnType::Purchase)
    } else {
        None
    }
}

} // verus!
