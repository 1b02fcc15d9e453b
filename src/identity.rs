//! Stable gamepad ids across disconnections and reconnections.

use vstd::prelude::*;

use crate::ev::GamepadId;

verus! {

/// What is known of one gamepad id: the identity signature of its device
/// (vendor, product and serial, or a UUID) and whether it is connected.
#[derive(Clone, Copy, Debug, PartialEq, Eq, Structural)]
pub struct DeviceRecord {
    pub signature: u128,
    pub connected: bool,
}

#[derive(Clone, Copy, Debug, PartialEq, Eq, Structural)]
pub enum IdentityError {
    /// No gamepad has that id.
    UnknownDevice,
    /// A new id is needed and the table already holds the maximum number of devices.
    TooManyDevices,
}

/// Record `i` is a disconnected device with signature `sig`, whose id a
/// reconnecting device with that signature takes back.
pub open spec fn reusable(rs: Seq<DeviceRecord>, sig: u128, i: int) -> bool {
    0 <= i < rs.len() && !rs[i].connected && rs[i].signature == sig
}

/// What a connection of a device with signature `sig` does: the first
/// disconnected record with that signature is taken back; otherwise a new id,
/// one past the last, is allocated if the table has room; otherwise it fails.
pub open spec fn connect_rel(
    rs: Seq<DeviceRecord>,
    max: usize,
    sig: u128,
    rs2: Seq<DeviceRecord>,
    r: Result<GamepadId, IdentityError>,
) -> bool {
    let rec = DeviceRecord { signature: sig, connected: true };
    if exists|i: int| reusable(rs, sig, i) {
        r is Ok && reusable(rs, sig, r->Ok_0.0 as int) && (forall|j: int|
            0 <= j < r->Ok_0.0 ==> !reusable(rs, sig, j)) && rs2 == rs.update(r->Ok_0.0 as int, rec)
    } else if rs.len() < max {
        r == Ok::<GamepadId, IdentityError>(GamepadId(rs.len() as usize)) && rs2 == rs.push(rec)
    } else {
        r == Err::<GamepadId, IdentityError>(IdentityError::TooManyDevices) && rs2 == rs
    }
}

/// What a disconnection of gamepad `id` does: its record is kept, marked
/// disconnected; an id with no record is an error.
pub open spec fn disconnect_rel(
    rs: Seq<DeviceRecord>,
    id: GamepadId,
    rs2: Seq<DeviceRecord>,
    r: Result<(), IdentityError>,
) -> bool {
    if id.0 < rs.len() {
        r is Ok && rs2 == rs.update(id.0 as int, DeviceRecord { connected: false, ..rs[id.0 as int] })
    } else {
        r == Err::<(), IdentityError>(IdentityError::UnknownDevice) && rs2 == rs
    }
}

/// Maps devices to stable ids; the id of a gamepad is its position in the table.
pub struct DeviceManager {
    records: Vec<DeviceRecord>,
    max_devices: usize,
}

impl DeviceManager {
    pub closed spec fn records_spec(&self) -> Seq<DeviceRecord> {
        self.records@
    }

    pub closed spec fn max_spec(&self) -> usize {
        self.max_devices
    }

    /// An empty table that allocates at most `max_devices` ids.
    pub fn new(max_devices: usize) -> (r: DeviceManager)
        ensures
            r.records_spec() == Seq::<DeviceRecord>::empty(),
            r.max_spec() == max_devices,
    {
        DeviceManager { records: Vec::new(), max_devices }
    }

    pub fn len(&self) -> (r: usize)
        ensures
            r == self.records_spec().len(),
    {
        self.records.len()
    }

    /// Handles a device that appeared with identity signature `signature`.
    pub fn connect(&mut self, signature: u128) -> (r: Result<GamepadId, IdentityError>)
        ensures
            final(self).max_spec() == old(self).max_spec(),
            connect_rel(old(self).records_spec(), old(self).max_spec(), signature, final(self).records_spec(), r),
    {
        let mut i: usize = 0;
        while i < self.records.len()
            invariant
                self.records@ == old(self).records@,
                self.max_devices == old(self).max_devices,
                i <= self.records.len(),
                forall|j: int| 0 <= j < i ==> !reusable(self.records@, signature, j),
            decreases self.records.len() - i,
        {
            let rec = self.records[i];
            if !rec.connected && rec.signature == signature {
                assert(reusable(self.records@, signature, i as int));
                self.records.set(i, DeviceRecord { signature, connected: true });
                return Ok(GamepadId(i));
            }
            i = i + 1;
        }
        if self.records.len() < self.max_devices {
            let id = self.records.len();
            self.records.push(DeviceRecord { signature, connected: true });
            Ok(GamepadId(id))
        } else {
            Err(IdentityError::TooManyDevices)
        }
    }

    /// Handles a device that vanished: its record stays for a later reconnection.
    pub fn disconnect(&mut self, id: GamepadId) -> (r: Result<(), IdentityError>)
        ensures
            final(self).max_spec() == old(self).max_spec(),
            disconnect_rel(old(self).records_spec(), id, final(self).records_spec(), r),
    {
        if id.0 < self.records.len() {
            let rec = self.records[id.0];
            self.records.set(id.0, DeviceRecord { signature: rec.signature, connected: false });
            Ok(())
        } else {
            Err(IdentityError::UnknownDevice)
        }
    }

    /// Whether gamepad `id` is connected now.
    pub fn is_connected(&self, id: GamepadId) -> (r: Result<bool, IdentityError>)
        ensures
            id.0 < self.records_spec().len() ==> r == Ok::<bool, IdentityError>(
                self.records_spec()[id.0 as int].connected,
            ),
            id.0 >= self.records_spec().len() ==> r == Err::<bool, IdentityError>(
                IdentityError::UnknownDevice,
            ),
    {
        if id.0 < self.records.len() {
            Ok(self.records[id.0].connected)
        } else {
            Err(IdentityError::UnknownDevice)
        }
    }
}

/// Reconnection keeps identity: when device A with signature `s` disconnects,
/// a device B with another signature connects, and a device with signature `s`
/// connects again, B's id differs from A's and the last connection gets A's
/// id back.
pub proof fn lemma_reconnect_identity(
    rs0: Seq<DeviceRecord>,
    max: usize,
    a: GamepadId,
    s: u128,
    t: u128,
    rs1: Seq<DeviceRecord>,
    r1: Result<(), IdentityError>,
    rs2: Seq<DeviceRecord>,
    b: Result<GamepadId, IdentityError>,
    rs3: Seq<DeviceRecord>,
    r3: Result<GamepadId, IdentityError>,
)
    requires
        a.0 < rs0.len(),
        rs0[a.0 as int].connected,
        rs0[a.0 as int].signature == s,
        t != s,
        forall|j: int| 0 <= j < rs0.len() ==> !reusable(rs0, s, j),
        disconnect_rel(rs0, a, rs1, r1),
        connect_rel(rs1, max, t, rs2, b),
        connect_rel(rs2, max, s, rs3, r3),
    ensures
        b is Ok ==> b->Ok_0 != a,
        r3 == Ok::<GamepadId, IdentityError>(a),
{
    assert(reusable(rs1, s, a.0 as int));
    assert forall|j: int| 0 <= j < rs1.len() && j != a.0 implies !reusable(rs1, s, j) by {
        assert(rs1[j] == rs0[j]);
        assert(!reusable(rs0, s, j));
    }
    assert(!reusable(rs1, t, a.0 as int));
    assert(reusable(rs2, s, a.0 as int));
    assert forall|j: int| 0 <= j < rs2.len() && j != a.0 implies !reusable(rs2, s, j) by {
        if j < rs1.len() && (b is Err || j != b->Ok_0.0) {
            assert(rs2[j] == rs1[j]);
            assert(!reusable(rs1, s, j));
        }
    }
}

} // verus!
