//! Random names and numbers.
use rand::distributions::Alphanumeric;
use rand::Rng;
use vstd::prelude::*;

verus! {

/// The length of a random id.
pub const ID_LEN: usize = 7;

/// A letter or digit of ASCII.
pub open spec fn is_alphanumeric(c: char) -> bool {
    'A' <= c <= 'Z' || 'a' <= c <= 'z' || '0' <= c <= '9'
}

/// `Rng::sample` with the distribution `Alphanumeric`, on the generator of the thread: some
/// letter or digit of ASCII. Which one is left to chance.
#[verifier::external_body]
fn sample_alphanumeric() -> (c: char)
    ensures
        is_alphanumeric(c),
{
    char::from(rand::thread_rng().sample(Alphanumeric))
}

/// `Rng::gen_range` on the generator of the thread: some number from `low` to below `high`.
/// Which one is left to chance.
#[verifier::external_body]
fn gen_range(low: u16, high: u16) -> (n: u16)
    requires
        low < high,
    ensures
        low <= n < high,
{
    rand::thread_rng().gen_range(low..high)
}

/// Whether a character can have been drawn with [`sample_alphanumeric`].
pub closed spec fn drawn(c: char) -> bool {
    call_ensures(sample_alphanumeric, (), c)
}

/// Whether a number can have been drawn from `low` to below `high` with [`gen_range`].
pub closed spec fn drawn_from(low: u16, high: u16, n: u16) -> bool {
    call_ensures(gen_range, (low, high), n)
}

/// Draws a number from `low` to below `high`.
pub(crate) fn draw(low: u16, high: u16) -> (n: u16)
    requires
        low < high,
    ensures
        low <= n < high,
        drawn_from(low, high, n),
{
    gen_range(low, high)
}

/// A random name for a session: [`ID_LEN`] letters and digits, each of them drawn.
pub fn random_id() -> (id: String)
    ensures
        id@.len() == ID_LEN,
        id@.len() == 7,
        forall|i: int| 0 <= i < id@.len() ==> drawn(#[trigger] id@[i]),
        forall|i: int| 0 <= i < id@.len() ==> is_alphanumeric(#[trigger] id@[i]),
{
    let mut id = String::new();
    let mut n: usize = 0;
    while n < ID_LEN
        invariant
            n <= ID_LEN,
            id@.len() == n,
            forall|i: int| 0 <= i < id@.len() ==> drawn(#[trigger] id@[i]),
            forall|i: int| 0 <= i < id@.len() ==> is_alphanumeric(#[trigger] id@[i]),
        decreases ID_LEN - n,
    {
        id.push(sample_alphanumeric());
        n = n + 1;
    }
    id
}

} // verus!
