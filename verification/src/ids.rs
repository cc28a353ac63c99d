//! Discord ids as the database stores them: a `u64` id is kept in a signed
//! 64-bit column by reinterpreting its bits, and read back the same way.

use vstd::prelude::*;

verus! {

/// The number that `x as i64` gives for a `u64`.
pub open spec fn as_signed(x: u64) -> int {
    if x <= 0x7fff_ffff_ffff_ffff {
        x as int
    } else {
        x as int - 0x1_0000_0000_0000_0000
    }
}

/// The number that `x as u64` gives for an `i64`.
pub open spec fn as_unsigned(x: i64) -> int {
    if x >= 0 {
        x as int
    } else {
        x as int + 0x1_0000_0000_0000_0000
    }
}

/// The database key of a Discord id.
pub fn db_id(id: u64) -> (r: i64)
    ensures
        r == as_signed(id),
{
    if id <= 0x7fff_ffff_ffff_ffffu64 {
        id as i64
    } else {
        let below: u64 = u64::MAX - id;
        -(below as i64) - 1
    }
}

/// The Discord id of a database key.
pub fn id_from_db(key: i64) -> (r: u64)
    ensures
        r == as_unsigned(key),
{
    if key >= 0 {
        key as u64
    } else {
        let below: u64 = (-(key + 1)) as u64;
        u64::MAX - below
    }
}

/// The event id that a command argument names: its low 64 bits, as
/// `id as u64` takes them.
pub fn event_id_argument(id: u128) -> (r: u64)
    ensures
        r == id % 0x1_0000_0000_0000_0000,
{
    (id % 0x1_0000_0000_0000_0000u128) as u64
}

/// An id that is stored and read back is the id itself.
pub proof fn law_id_roundtrip(id: u64)
    ensures
        as_unsigned(as_signed(id) as i64) == id,
{
}

/// A key that is read and stored again is the key itself.
pub proof fn law_key_roundtrip(key: i64)
    ensures
        as_signed(as_unsigned(key) as u64) == key,
{
}

} // verus!
