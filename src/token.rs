//! Random opaque tokens used as OAuth `state` and OIDC `nonce`.
use vstd::prelude::*;
use rand::Rng;

verus! {

/// The 62 characters a token is drawn from: digits, then upper case, then lower case.
pub const STATE_CHAR_POOL: &'static str = "0123456789ABCDEFGHIJKLMNOPQRSTUVWXYZabcdefghijklmnopqrstuvwxyz";

/// Shortest token length accepted by the generator.
pub const MIN_STATE_SIZE: usize = 16;

/// Longest token length accepted by the generator.
pub const MAX_STATE_SIZE: usize = 1024;

/// Length of tokens produced by `generate_state_default`.
pub const STATE_LENGTH: usize = 36;

/// An ASCII letter or digit.
pub open spec fn is_state_char(c: char) -> bool {
    ('0' <= c && c <= '9') || ('A' <= c && c <= 'Z') || ('a' <= c && c <= 'z')
}

/// A length the generator accepts.
pub open spec fn valid_state_size(size: int) -> bool {
    MIN_STATE_SIZE <= size && size <= MAX_STATE_SIZE
}

/// `s` is a token of exactly `size` characters drawn from the pool.
pub open spec fn is_state_token(s: Seq<char>, size: int) -> bool {
    &&& s.len() == size
    &&& forall|i: int| 0 <= i < s.len() ==> #[trigger] is_state_char(s[i])
}

/// Relies on rand's `thread_rng().gen_range(0..bound)`: a uniformly drawn
/// index below `bound` (it panics only on an empty range, excluded here).
#[verifier::external_body]
fn random_index(bound: usize) -> (r: usize)
    requires
        bound > 0,
    ensures
        r < bound,
{
    rand::thread_rng().gen_range(0..bound)
}

/// A fresh random token of `size` characters from the 62-character pool.
pub fn generate_state_len(size: usize) -> (r: String)
    requires
        valid_state_size(size as int),
    ensures
        is_state_token(r@, size as int),
{
    let pool = STATE_CHAR_POOL;
    proof {
        reveal_strlit("0123456789ABCDEFGHIJKLMNOPQRSTUVWXYZabcdefghijklmnopqrstuvwxyz");
    }
    assert(pool@.len() == 62);
    assert(forall|k: int| 0 <= k < 62 ==> #[trigger] is_state_char(pool@[k]));
    let mut out = String::new();
    let mut i: usize = 0;
    while i < size
        invariant
            i <= size,
            pool@ == STATE_CHAR_POOL@,
            pool@.len() == 62,
            forall|k: int| 0 <= k < 62 ==> #[trigger] is_state_char(pool@[k]),
            is_state_token(out@, i as int),
        decreases size - i,
    {
        let k = random_index(62);
        let piece = pool.substring_char(k, k + 1);
        let ghost before = out@;
        out.append(piece);
        assert(out@ == before.push(pool@[k as int]));
        i = i + 1;
    }
    out
}

/// A fresh random token of the default length.
pub fn generate_state_default() -> (r: String)
    ensures
        is_state_token(r@, STATE_LENGTH as int),
{
    generate_state_len(STATE_LENGTH)
}

/// A fresh random token of `size` characters, or `None` when the length is
/// outside the accepted range.
pub fn try_generate_state(size: usize) -> (r: Option<String>)
    ensures
        r is Some <==> valid_state_size(size as int),
        r matches Some(s) ==> is_state_token(s@, size as int),
{
    if size < MIN_STATE_SIZE || MAX_STATE_SIZE < size {
        None
    } else {
        Some(generate_state_len(size))
    }
}

} // verus!
