//! Text helpers shared by the conversions: string comparison, decimal
//! rendering of integers, and the check of text bound for a C string.

use vstd::prelude::*;

use vstd::string::StringSliceAdditionalSpecFns;

use crate::error::AVPlayerError;

verus! {

/// Compares two string slices by their contents.
pub(crate) fn str_eq(a: &str, b: &str) -> (r: bool)
    ensures
        r == (a@ == b@),
{
    a.to_owned() == b.to_owned()
}

/// The decimal digit character for `d` (0 ..= 9).
pub open spec fn digit_char(d: int) -> char {
    if d == 0 { '0' }
    else if d == 1 { '1' }
    else if d == 2 { '2' }
    else if d == 3 { '3' }
    else if d == 4 { '4' }
    else if d == 5 { '5' }
    else if d == 6 { '6' }
    else if d == 7 { '7' }
    else if d == 8 { '8' }
    else { '9' }
}

/// Decimal digits of a natural number, most significant first, no leading zeros.
pub open spec fn nat_digits(n: nat) -> Seq<char>
    decreases n,
{
    if n < 10 {
        seq![digit_char(n as int)]
    } else {
        nat_digits((n / 10) as nat).push(digit_char((n % 10) as int))
    }
}

/// Decimal rendering of an integer as `Display` writes it: a `-` before the
/// digits of the magnitude when negative.
pub open spec fn decimal_spec(n: int) -> Seq<char> {
    if n < 0 {
        seq!['-'] + nat_digits((-n) as nat)
    } else {
        nat_digits(n as nat)
    }
}

fn digit_string(d: u64) -> (r: String)
    requires
        d < 10,
    ensures
        r@ == seq![digit_char(d as int)],
{
    let s = if d == 0 { "0" } else if d == 1 { "1" } else if d == 2 { "2" } else if d == 3 {
        "3"
    } else if d == 4 { "4" } else if d == 5 { "5" } else if d == 6 { "6" } else if d == 7 {
        "7"
    } else if d == 8 { "8" } else { "9" };
    proof {
        reveal_strlit("0");
        reveal_strlit("1");
        reveal_strlit("2");
        reveal_strlit("3");
        reveal_strlit("4");
        reveal_strlit("5");
        reveal_strlit("6");
        reveal_strlit("7");
        reveal_strlit("8");
        reveal_strlit("9");
    }
    s.to_owned()
}

fn nat_string(n: u64) -> (r: String)
    ensures
        r@ == nat_digits(n as nat),
    decreases n,
{
    if n < 10 {
        digit_string(n)
    } else {
        let head = nat_string(n / 10);
        let last = digit_string(n % 10);
        let r = head.concat(last.as_str());
        r
    }
}

/// Renders `n` in decimal, exactly as `n.to_string()` does.
pub fn decimal(n: i64) -> (r: String)
    ensures
        r@ == decimal_spec(n as int),
{
    if n < 0 {
        let magnitude: u64 = if n == i64::MIN {
            9223372036854775808u64
        } else {
            (-n) as u64
        };
        let digits = nat_string(magnitude);
        let minus = "-";
        proof {
            reveal_strlit("-");
        }
        let r = minus.to_owned().concat(digits.as_str());
        r
    } else {
        nat_string(n as u64)
    }
}

/// Renders an unsigned `n` in decimal, exactly as `n.to_string()` does.
pub fn decimal_unsigned(n: u64) -> (r: String)
    ensures
        r@ == nat_digits(n as nat),
{
    nat_string(n)
}

/// `i` is the position of the first zero byte of `bytes`.
pub open spec fn is_first_zero_byte(bytes: Seq<u8>, i: int) -> bool {
    &&& 0 <= i < bytes.len()
    &&& bytes[i] == 0
    &&& forall|j: int| 0 <= j < i ==> bytes[j] != 0
}

/// Checks that `text` can be handed to the bridge as a C string, that is, that
/// it holds no NUL byte. One that does is the `InvalidArgument` error
/// `"<what> contains NUL byte: nul byte found in provided data at position: <i>"`,
/// with `i` the byte position of the first NUL.
pub fn check_c_text(text: &str, what: &str) -> (r: Result<(), AVPlayerError>)
    ensures
        (forall|j: int| 0 <= j < text.spec_bytes().len() ==> text.spec_bytes()[j] != 0) ==> r is Ok,
        forall|i: int|
            is_first_zero_byte(text.spec_bytes(), i) ==> (match r {
                Err(e) => e is InvalidArgument && e.message_of() == what@
                    + " contains NUL byte: nul byte found in provided data at position: "@ + nat_digits(
                    i as nat,
                ),
                Ok(_) => false,
            }),
{
    let bytes = text.as_bytes();
    let mut i: usize = 0;
    while i < bytes.len()
        invariant
            i <= bytes@.len(),
            bytes@ == text.spec_bytes(),
            forall|j: int| 0 <= j < i ==> bytes@[j] != 0,
        decreases bytes.len() - i,
    {
        if bytes[i] == 0 {
            let message = what.to_owned().concat(
                " contains NUL byte: nul byte found in provided data at position: ",
            ).concat(decimal_unsigned(i as u64).as_str());
            proof {
                assert forall|k: int| is_first_zero_byte(text.spec_bytes(), k) implies k == i by {
                    if k < i {
                    } else if k > i {
                        assert(bytes@[i as int] == 0);
                    }
                }
            }
            return Err(AVPlayerError::InvalidArgument(message));
        }
        i = i + 1;
    }
    Ok(())
}

} // verus!
