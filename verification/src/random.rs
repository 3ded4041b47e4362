//! Random tokens drawn from the alphanumeric alphabet, used for one-time
//! codes, application keys and CSRF values.

use vstd::prelude::*;

verus! {

/// `rand::rngs::ThreadRng`, the thread-local generator of `rand`.
#[verifier::external_type_specification]
#[verifier::external_body]
pub struct ExThreadRng(rand::rngs::ThreadRng);

/// `rand::rng`: a handle on the thread-local generator. Nothing is claimed of it.
#[verifier::external_body]
fn thread_rng() -> rand::rngs::ThreadRng {
    rand::rng()
}

/// `rand::Rng::random_range` on `0..bound`: a value drawn in that range.
/// `rand` panics on an empty range, so the bound must be positive; the drawn
/// value is below the bound, and nothing else is claimed of it.
#[verifier::external_body]
fn random_below(rng: &mut rand::rngs::ThreadRng, bound: usize) -> (r: usize)
    requires
        bound > 0,
    ensures
        r < bound,
{
    rand::Rng::random_range(rng, 0..bound)
}

/// A character of the token alphabet: an ASCII letter or digit.
pub open spec fn is_token_char(c: char) -> bool {
    ||| ('A' <= c && c <= 'Z')
    ||| ('a' <= c && c <= 'z')
    ||| ('0' <= c && c <= '9')
}

/// `s` is a token of exactly `len` characters of the alphabet.
pub open spec fn is_token(s: Seq<char>, len: nat) -> bool {
    &&& s.len() == len
    &&& forall|i: int| 0 <= i < s.len() ==> #[trigger] is_token_char(s[i])
}

/// The alphabet of tokens, in the order draws index it: the upper-case
/// letters, the digits, then the lower-case letters.
pub open spec fn token_alphabet() -> Seq<char> {
    seq!['A', 'B', 'C', 'D', 'E', 'F', 'G', 'H', 'I', 'J', 'K', 'L', 'M', 'N', 'O', 'P', 'Q', 'R', 'S',
        'T', 'U', 'V', 'W', 'X', 'Y', 'Z', '0', '1', '2', '3', '4', '5', '6', '7', '8', '9', 'a', 'b',
        'c', 'd', 'e', 'f', 'g', 'h', 'i', 'j', 'k', 'l', 'm', 'n', 'o', 'p', 'q', 'r', 's', 't', 'u', 'v',
        'w', 'x', 'y', 'z']
}

/// The number of characters in the token alphabet.
pub const TOKEN_ALPHABET_LEN: usize = 62;

/// The token that a sequence of draws spells: each draw picks the character
/// of the alphabet at that index.
pub open spec fn spelled(draws: Seq<usize>) -> Seq<char> {
    draws.map_values(|i: usize| token_alphabet()[i as int])
}

/// Every draw indexes the alphabet.
pub open spec fn draws_in_alphabet(draws: Seq<usize>) -> bool {
    forall|k: int| 0 <= k < draws.len() ==> #[trigger] draws[k] < TOKEN_ALPHABET_LEN
}

/// Every character of the alphabet is a token character.
pub proof fn lemma_alphabet_is_token()
    ensures
        token_alphabet().len() == TOKEN_ALPHABET_LEN,
        forall|i: int| 0 <= i < TOKEN_ALPHABET_LEN ==> #[trigger] is_token_char(token_alphabet()[i]),
{
    assert forall|i: int| 0 <= i < TOKEN_ALPHABET_LEN implies #[trigger] is_token_char(token_alphabet()[i]) by {
        if i < 26 {
            assert(token_alphabet()[i] == ((('A' as int) + i) as char));
        } else if i < 36 {
            assert(token_alphabet()[i] == ((('0' as int) + i - 26) as char));
        } else {
            assert(token_alphabet()[i] == ((('a' as int) + i - 36) as char));
        }
    }
}

/// A spelled token is a token of as many characters as there are draws.
pub proof fn lemma_spelled_is_token(draws: Seq<usize>)
    requires
        draws_in_alphabet(draws),
    ensures
        is_token(spelled(draws), draws.len()),
{
    lemma_alphabet_is_token();
    assert forall|i: int| 0 <= i < spelled(draws).len() implies #[trigger] is_token_char(spelled(draws)[i]) by {
        assert(draws[i] < TOKEN_ALPHABET_LEN);
        assert(is_token_char(token_alphabet()[draws[i] as int]));
    }
}

/// The token that `draws` spell.
pub fn token_from_draws(draws: &Vec<usize>) -> (r: String)
    requires
        draws_in_alphabet(draws@),
    ensures
        r@ == spelled(draws@),
{
    let charset = "ABCDEFGHIJKLMNOPQRSTUVWXYZ0123456789abcdefghijklmnopqrstuvwxyz";
    proof {
        reveal_strlit("ABCDEFGHIJKLMNOPQRSTUVWXYZ0123456789abcdefghijklmnopqrstuvwxyz");
    }
    assert(charset@ =~= token_alphabet());
    let mut out = String::new();
    let mut k: usize = 0;
    while k < draws.len()
        invariant
            charset@ == token_alphabet(),
            draws_in_alphabet(draws@),
            k <= draws@.len(),
            out@ =~= spelled(draws@.take(k as int)),
        decreases draws.len() - k,
    {
        let idx = draws[k];
        assert(draws@[k as int] < TOKEN_ALPHABET_LEN);
        let one = charset.substring_char(idx, idx + 1);
        assert(one@ =~= seq![token_alphabet()[idx as int]]);
        let ghost before = out@;
        out.append(one);
        assert(spelled(draws@.take(k + 1)) =~= spelled(draws@.take(k as int)).push(token_alphabet()[idx as int]));
        k = k + 1;
    }
    assert(draws@.take(draws.len() as int) =~= draws@);
    out
}

/// A fresh random token of `len` characters: `len` draws, each uniformly
/// below the size of the alphabet, spelled into characters.
pub fn random_token(len: usize) -> (r: String)
    ensures
        is_token(r@, len as nat),
        exists|draws: Seq<usize>| draws.len() == len && draws_in_alphabet(draws) && r@ == spelled(draws),
{
    let mut rng = thread_rng();
    let mut draws: Vec<usize> = Vec::new();
    let mut k: usize = 0;
    while k < len
        invariant
            k <= len,
            draws@.len() == k,
            draws_in_alphabet(draws@),
        decreases len - k,
    {
        let d = random_below(&mut rng, TOKEN_ALPHABET_LEN);
        draws.push(d);
        k = k + 1;
    }
    let r = token_from_draws(&draws);
    proof {
        lemma_spelled_is_token(draws@);
    }
    r
}

} // verus!
