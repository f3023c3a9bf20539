//! The three operations on the camera table. Each takes the acting
//! identity explicitly — the host's session layer supplies it — and runs
//! as one atomic unit of work: it observes the table, decides, and
//! applies at most one insert or one update.
//!
//! The missing-record policy is deliberately asymmetric: set-enabled
//! silently succeeds when the acting identity has no record, while move
//! reports a not-found error.

use vstd::prelude::*;
use vstd::string::StringExecFns;

use crate::table::CameraTable;
use crate::types::{CreativeCamera, DbVector3, Identity};

verus! {

/// The record that create makes for `sender`: creative-camera mode off,
/// position and rotation zeroed.
pub open spec fn new_camera(sender: Identity) -> CreativeCamera {
    CreativeCamera {
        identity: sender,
        enabled: false,
        position: DbVector3::spec_zero(),
        rotation: DbVector3::spec_zero(),
    }
}

/// What create does to the table's map: a fresh, zeroed, disabled record
/// for `sender` when none exists; no change when one does.
pub open spec fn spec_create(
    m: Map<Identity, CreativeCamera>,
    sender: Identity,
) -> Map<Identity, CreativeCamera> {
    if m.contains_key(sender) {
        m
    } else {
        m.insert(sender, new_camera(sender))
    }
}

/// What set-enabled does to the table's map: overwrites the `enabled`
/// field of `sender`'s record, leaving its pose unchanged; no change when
/// `sender` has no record.
pub open spec fn spec_set_enabled(
    m: Map<Identity, CreativeCamera>,
    sender: Identity,
    enabled: bool,
) -> Map<Identity, CreativeCamera> {
    if m.contains_key(sender) {
        m.insert(
            sender,
            (CreativeCamera {
                identity: sender,
                enabled: enabled,
                position: m[sender].position,
                rotation: m[sender].rotation,
            }),
        )
    } else {
        m
    }
}

/// What move does to the table's map: overwrites the pose of `sender`'s
/// record, leaving its `enabled` flag unchanged; no change when `sender`
/// has no record.
pub open spec fn spec_move(
    m: Map<Identity, CreativeCamera>,
    sender: Identity,
    position: DbVector3,
    rotation: DbVector3,
) -> Map<Identity, CreativeCamera> {
    if m.contains_key(sender) {
        m.insert(
            sender,
            (CreativeCamera {
                identity: sender,
                enabled: m[sender].enabled,
                position: position,
                rotation: rotation,
            }),
        )
    } else {
        m
    }
}

/// The error move reports when the acting identity has no record.
pub open spec fn not_found_message() -> Seq<char> {
    "Creative camera not found"@
}

/// The error create reports when the acting identity already has a
/// record: the table's uniqueness on `identity` refuses a second one.
pub open spec fn already_exists_message() -> Seq<char> {
    "Creative camera already exists"@
}

/// Creates the camera record for `sender`: disabled, with zeroed position
/// and rotation. Fails, leaving the table unchanged, when `sender`
/// already has a record.
pub fn creative_camera_create(table: &mut CameraTable, sender: Identity) -> (r: Result<(), String>)
    requires
        old(table).wf(),
    ensures
        final(table).wf(),
        final(table)@ == spec_create(old(table)@, sender),
        r is Ok <==> !old(table)@.contains_key(sender),
        r matches Err(m) ==> m@ == already_exists_message(),
{
    match table.get(sender) {
        Some(_) => Err(String::from_str("Creative camera already exists")),
        None => {
            let creative_camera = CreativeCamera {
                identity: sender,
                enabled: false,
                position: DbVector3::default(),
                rotation: DbVector3::default(),
            };
            table.upsert(creative_camera);
            Ok(())
        },
    }
}

/// Overwrites the `enabled` flag of `sender`'s record, leaving its pose
/// unchanged. Succeeds without touching the table when `sender` has no
/// record: an intentional, permissive policy.
pub fn creative_camera_set_enabled(
    table: &mut CameraTable,
    sender: Identity,
    enabled: bool,
) -> (r: Result<(), String>)
    requires
        old(table).wf(),
    ensures
        final(table).wf(),
        final(table)@ == spec_set_enabled(old(table)@, sender, enabled),
        r is Ok,
{
    if let Some(found) = table.get(sender) {
        let mut creative_camera = found;
        creative_camera.enabled = enabled;
        table.upsert(creative_camera);
    }
    Ok(())
}

/// Overwrites the position and rotation of `sender`'s record, leaving its
/// `enabled` flag unchanged. Reports a not-found error, and changes
/// nothing, when `sender` has no record.
pub fn creative_camera_move(
    table: &mut CameraTable,
    sender: Identity,
    position: DbVector3,
    rotation: DbVector3,
) -> (r: Result<(), String>)
    requires
        old(table).wf(),
    ensures
        final(table).wf(),
        final(table)@ == spec_move(old(table)@, sender, position, rotation),
        r is Ok <==> old(table)@.contains_key(sender),
        r matches Err(m) ==> m@ == not_found_message(),
{
    if let Some(found) = table.get(sender) {
        let mut creative_camera = found;
        creative_camera.position = position;
        creative_camera.rotation = rotation;
        table.upsert(creative_camera);
        Ok(())
    } else {
        Err(String::from_str("Creative camera not found"))
    }
}

} // verus!
