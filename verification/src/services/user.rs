use vstd::prelude::*;
use crate::text::{digit_char, digit_text, joined};
use rand::distributions::Uniform;
use rand::Rng;

verus! {

/// `rand::thread_rng` sampled over `Uniform::new(0, 10)`: some number of the
/// half-open range from 0 to 10.
#[verifier::external_body]
fn random_digit() -> (digit: u128)
    ensures
        digit < 10,
{
    rand::thread_rng().sample(Uniform::new(0u128, 10u128))
}

/// A text of decimal digits.
pub open spec fn all_digits(text: Seq<char>) -> bool {
    forall|i: int| 0 <= i < text.len() ==> exists|d: nat| d < 10 && #[trigger] text[i] == digit_char(d)
}

/// How many digits a verification code has.
pub const VERIFICATION_CODE_LENGTH: usize = 6;

/// Draws a verification code: six decimal digits.
pub fn create_verification_code() -> (code: String)
    ensures
        code@.len() == VERIFICATION_CODE_LENGTH,
        all_digits(code@),
{
    let mut code = String::new();
    let mut drawn: usize = 0;
    while drawn < VERIFICATION_CODE_LENGTH
        invariant
            drawn <= VERIFICATION_CODE_LENGTH,
            code@.len() == drawn,
            all_digits(code@),
        decreases VERIFICATION_CODE_LENGTH - drawn,
    {
        let digit = random_digit();
        let ghost before = code@;
        code = joined(code.as_str(), digit_text(digit));
        proof {
            assert forall|i: int| 0 <= i < code@.len() implies exists|d: nat|
                d < 10 && #[trigger] code@[i] == digit_char(d) by {
                if i < before.len() {
                    assert(code@[i] == before[i]);
                } else {
                    assert(code@[i] == digit_char(digit as nat));
                }
            }
        }
        drawn = drawn + 1;
    }
    code
}

} // verus!
