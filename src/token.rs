//! Random correlation tokens (file UID, transaction UID, client cookie).

use rand::Rng;
use vstd::prelude::*;

verus! {

/// The characters a token is drawn from: digits, upper-case and lower-case letters.
pub open spec fn token_alphabet() -> Seq<char> {
    "0123456789ABCDEFGHIJKLMNOPQRSTUVWXYZabcdefghijklmnopqrstuvwxyz"@
}

/// `s` is a token of exactly `len` characters, each taken from `token_alphabet()`.
pub open spec fn is_token(s: Seq<char>, len: nat) -> bool {
    &&& s.len() == len
    &&& forall|i: int| 0 <= i < s.len() ==> token_alphabet().contains(#[trigger] s[i])
}

/// Relies on rand's `thread_rng().gen_range(0, bound)`: a value in `0..bound`.
/// It panics on an empty range, which `requires` leaves out.
#[verifier::external_body]
fn random_below(bound: usize) -> (r: usize)
    requires
        bound > 0,
    ensures
        r < bound,
{
    rand::thread_rng().gen_range(0, bound)
}

/// Relies on std's `String::push`: the character is appended at the end.
#[verifier::external_body]
pub(crate) fn push_char(s: &mut String, c: char)
    ensures
        final(s)@ == old(s)@.push(c),
{
    s.push(c)
}

/// The token that the draws `draws` pick: the `i`-th character is the
/// `draws[i]`-th character of `token_alphabet()`.
pub open spec fn token_of(draws: Seq<usize>) -> Seq<char> {
    Seq::new(draws.len(), |i: int| token_alphabet()[draws[i] as int])
}

/// Every draw picks a character of the alphabet.
pub open spec fn valid_draws(draws: Seq<usize>) -> bool {
    forall|i: int| 0 <= i < draws.len() ==> #[trigger] draws[i] < 62
}

/// The token spelled by the draws, one alphabet character per draw.
pub fn token_from_draws(draws: &Vec<usize>) -> (r: String)
    requires
        valid_draws(draws@),
    ensures
        r@ == token_of(draws@),
        is_token(r@, draws@.len()),
{
    let chars = "0123456789ABCDEFGHIJKLMNOPQRSTUVWXYZabcdefghijklmnopqrstuvwxyz";
    proof {
        reveal_strlit("0123456789ABCDEFGHIJKLMNOPQRSTUVWXYZabcdefghijklmnopqrstuvwxyz");
    }
    let mut s = String::new();
    let mut i: usize = 0;
    while i < draws.len()
        invariant
            i <= draws@.len(),
            valid_draws(draws@),
            chars@ == token_alphabet(),
            chars@.len() == 62,
            s@ == token_of(draws@).take(i as int),
        decreases draws.len() - i,
    {
        let c = chars.get_char(draws[i]);
        push_char(&mut s, c);
        assert(s@ =~= token_of(draws@).take(i + 1));
        i = i + 1;
    }
    assert(s@ =~= token_of(draws@));
    assert forall|i: int| 0 <= i < s@.len() implies token_alphabet().contains(#[trigger] s@[i]) by {
        assert(token_alphabet()[draws@[i] as int] == s@[i]);
    }
    s
}

/// A fresh random string of `len` characters from `token_alphabet()`, each
/// picked by one uniform draw.
pub fn random_string(len: usize) -> (r: String)
    ensures
        is_token(r@, len as nat),
        exists|draws: Seq<usize>| draws.len() == len && valid_draws(draws) && r@ == token_of(draws),
{
    let mut draws: Vec<usize> = Vec::new();
    let mut i: usize = 0;
    while i < len
        invariant
            i <= len,
            draws@.len() == i,
            valid_draws(draws@),
        decreases len - i,
    {
        let k = random_below(62);
        draws.push(k);
        i = i + 1;
    }
    let r = token_from_draws(&draws);
    assert(draws@.len() == len && valid_draws(draws@) && r@ == token_of(draws@));
    r
}

/// The three correlation tokens of one request.
pub struct Tokens {
    /// The header's new-file UID, 32 characters.
    pub file_uid: String,
    /// The transaction UID of the message, 32 characters.
    pub transaction_uid: String,
    /// The client cookie of the message, 5 characters.
    pub cookie: String,
}

impl Tokens {
    /// The tokens have the lengths and characters that the protocol expects.
    pub open spec fn wf(&self) -> bool {
        &&& is_token(self.file_uid@, 32)
        &&& is_token(self.transaction_uid@, 32)
        &&& is_token(self.cookie@, 5)
    }

    /// Draws a fresh set of tokens.
    pub fn generate() -> (t: Tokens)
        ensures
            t.wf(),
    {
        let file_uid = random_string(32);
        let transaction_uid = random_string(32);
        let cookie = random_string(5);
        Tokens { file_uid, transaction_uid, cookie }
    }
}

} // verus!
