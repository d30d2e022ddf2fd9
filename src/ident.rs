use vstd::prelude::*;

verus! {

/// A uniformly random 16-bit value from the thread-local generator.
///
/// Relies on rand::random, which is `thread_rng().gen()`; nothing is promised
/// of the value drawn.
#[verifier::external_body]
pub fn rand() -> (r: u16) {
    ::rand::random::<u16>()
}

/// The pair of adjacent identifiers built around `id`: `id` and the one
/// after it, or the one before it and `id` when `id` is the largest 16-bit
/// value.
pub open spec fn adjacent_pair(id: u16) -> (u16, u16) {
    if id < u16::MAX {
        (id, (id + 1) as u16)
    } else {
        ((id - 1) as u16, id)
    }
}

/// Two adjacent identifiers built around `id`, never wrapping past the
/// largest 16-bit value.
pub fn sequential_identifiers_from(id: u16) -> (r: (u16, u16))
    ensures
        r == adjacent_pair(id),
        r.0 < r.1,
        r.1 == r.0 + 1,
{
    match id.checked_add(1) {
        Some(next) => (id, next),
        None => (id - 1, id),
    }
}

/// Two adjacent connection identifiers around a random 16-bit value: the
/// first for the receiver, the second for the sender.
pub fn generate_sequential_identifiers() -> (r: (u16, u16))
    ensures
        exists|id: u16| r == adjacent_pair(id),
        r.0 < r.1,
        r.1 == r.0 + 1,
{
    let id: u16 = rand();
    sequential_identifiers_from(id)
}

} // verus!
