//! Non-interference of the operations: an operation acting as one
//! identity never touches another identity's record, so concurrent
//! operations on distinct identities — serialized in either order by the
//! host's transaction isolation — cannot disturb each other.

use vstd::prelude::*;

use crate::ops::{spec_create, spec_move, spec_set_enabled};
use crate::types::{CreativeCamera, DbVector3, Identity};

verus! {

/// An operation acting as identity `a` leaves identity `b`'s record
/// exactly as it was: `b` has a record afterwards if and only if it had
/// one before, and that record is unchanged.
pub proof fn lemma_ops_frame_distinct(
    m: Map<Identity, CreativeCamera>,
    a: Identity,
    b: Identity,
    enabled: bool,
    position: DbVector3,
    rotation: DbVector3,
)
    requires
        a != b,
    ensures
        spec_create(m, a).contains_key(b) == m.contains_key(b),
        m.contains_key(b) ==> spec_create(m, a)[b] == m[b],
        spec_set_enabled(m, a, enabled).contains_key(b) == m.contains_key(b),
        m.contains_key(b) ==> spec_set_enabled(m, a, enabled)[b] == m[b],
        spec_move(m, a, position, rotation).contains_key(b) == m.contains_key(b),
        m.contains_key(b) ==> spec_move(m, a, position, rotation)[b] == m[b],
{
}

/// A set-enabled call acting as `a` and a move call acting as `b`, for
/// distinct identities, reach the same table in either order.
pub proof fn lemma_set_enabled_move_commute(
    m: Map<Identity, CreativeCamera>,
    a: Identity,
    b: Identity,
    enabled: bool,
    position: DbVector3,
    rotation: DbVector3,
)
    requires
        a != b,
    ensures
        spec_move(spec_set_enabled(m, a, enabled), b, position, rotation)
            == spec_set_enabled(spec_move(m, b, position, rotation), a, enabled),
{
    let lhs = spec_move(spec_set_enabled(m, a, enabled), b, position, rotation);
    let rhs = spec_set_enabled(spec_move(m, b, position, rotation), a, enabled);
    assert(lhs =~= rhs);
}

/// Two move calls acting as distinct identities reach the same table in
/// either order.
pub proof fn lemma_move_move_commute(
    m: Map<Identity, CreativeCamera>,
    a: Identity,
    b: Identity,
    position_a: DbVector3,
    rotation_a: DbVector3,
    position_b: DbVector3,
    rotation_b: DbVector3,
)
    requires
        a != b,
    ensures
        spec_move(spec_move(m, a, position_a, rotation_a), b, position_b, rotation_b)
            == spec_move(spec_move(m, b, position_b, rotation_b), a, position_a, rotation_a),
{
    let lhs = spec_move(spec_move(m, a, position_a, rotation_a), b, position_b, rotation_b);
    let rhs = spec_move(spec_move(m, b, position_b, rotation_b), a, position_a, rotation_a);
    assert(lhs =~= rhs);
}

/// Two set-enabled calls acting as distinct identities reach the same
/// table in either order.
pub proof fn lemma_set_enabled_set_enabled_commute(
    m: Map<Identity, CreativeCamera>,
    a: Identity,
    b: Identity,
    enabled_a: bool,
    enabled_b: bool,
)
    requires
        a != b,
    ensures
        spec_set_enabled(spec_set_enabled(m, a, enabled_a), b, enabled_b)
            == spec_set_enabled(spec_set_enabled(m, b, enabled_b), a, enabled_a),
{
    let lhs = spec_set_enabled(spec_set_enabled(m, a, enabled_a), b, enabled_b);
    let rhs = spec_set_enabled(spec_set_enabled(m, b, enabled_b), a, enabled_a);
    assert(lhs =~= rhs);
}

} // verus!
