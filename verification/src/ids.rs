use vstd::prelude::*;

use crate::models::Timestamp;

verus! {

/// The characters of nanoid's `SAFE` alphabet: `_`, `-`, the digits and the
/// ASCII letters of either case.
pub open spec fn is_id_char(c: char) -> bool {
    ||| c == '_'
    ||| c == '-'
    ||| ('0' <= c && c <= '9')
    ||| ('a' <= c && c <= 'z')
    ||| ('A' <= c && c <= 'Z')
}

/// A random identifier of `size` characters: it calls `nanoid::format` with
/// the crate's default random source (`nanoid::rngs::default`) and its `SAFE`
/// alphabet, as the `nanoid!` macro does. The contract claims what the
/// crate's source shows of every outcome: exactly `size` characters, each
/// taken from that alphabet. Which characters come is left open: they are
/// random. `size` is nonzero (for zero the crate's loop never ends) and
/// small enough that `8 * size` fits in a `usize`.
#[verifier::external_body]
pub(crate) fn random_id(size: usize) -> (id: String)
    requires
        0 < size <= usize::MAX / 8,
    ensures
        id@.len() == size,
        forall|i: int| 0 <= i < size ==> is_id_char(#[trigger] id@[i]),
{
    nanoid::format(nanoid::rngs::default, &nanoid::alphabet::SAFE, size)
}

/// The current time: `chrono::Utc::now()`, taken apart into its
/// `timestamp()` and `timestamp_subsec_nanos()`. Per chrono's source the
/// reading is the system clock's distance from the Unix epoch, so the
/// seconds are never negative and the nanoseconds stay below one second;
/// nothing more is claimed of the value, which depends on the clock. (chrono
/// panics where the clock stands before the epoch.)
#[verifier::external_body]
pub(crate) fn utc_now() -> (t: Timestamp)
    ensures
        t.secs >= 0,
        t.nanos < 1_000_000_000,
{
    let now = chrono::Utc::now();
    Timestamp { secs: now.timestamp(), nanos: now.timestamp_subsec_nanos() }
}

} // verus!
