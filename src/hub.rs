//! All gamepads together: identities, states and the filter pipeline.

use vstd::prelude::*;

use crate::ev::{Event, EventType, GamepadId, BUTTON_COUNT};
use crate::filter::{filter_event, filtered, FilterConfig};
use crate::repeat::{advanced, observed_all, repeats, Hold, Repeater};
use crate::identity::{connect_rel, disconnect_rel, DeviceManager, DeviceRecord, IdentityError};
use crate::state::{apply_event, apply_events, neutral_model, GamepadState, PadModel};

verus! {

/// What a raw sample of a gamepad delivers: samples of a disconnected gamepad
/// and connection notices (which go through `connect` and `disconnect`)
/// deliver nothing; anything else goes through the filter pipeline.
pub open spec fn sample_output(cfg: FilterConfig, connected: bool, m: PadModel, raw: EventType) -> Seq<EventType> {
    if !connected || raw is Connected || raw is Disconnected {
        seq![]
    } else {
        filtered(cfg, m, raw)
    }
}

/// Events of gamepad `id` at `time`, one per payload, in order.
pub open spec fn stamped(id: GamepadId, time: u64, s: Seq<EventType>) -> Seq<Event> {
    s.map_values(|e: EventType| Event { id, event: e, time })
}

/// The repeats that a tick at `now` delivers for the first `n` gamepads: those
/// of each connected gamepad in id order, each in button order.
pub open spec fn repeats_upto(
    records: Seq<DeviceRecord>,
    helds: Seq<Seq<Option<Hold>>>,
    interval: u64,
    now: u64,
    n: int,
) -> Seq<Event>
    decreases n,
{
    if n <= 0 {
        seq![]
    } else if records[n - 1].connected {
        repeats_upto(records, helds, interval, now, n - 1) + stamped(
            GamepadId((n - 1) as usize),
            now,
            repeats(helds[n - 1], interval, now, BUTTON_COUNT as int),
        )
    } else {
        repeats_upto(records, helds, interval, now, n - 1)
    }
}

/// Gamepads known in this process, with a stable id each, the last known state
/// of each, the buttons each holds, and the filter settings applied to their
/// raw samples.
pub struct Gamepads {
    devices: DeviceManager,
    pads: Vec<GamepadState>,
    repeaters: Vec<Repeater>,
    config: FilterConfig,
    repeat_interval: u64,
    stale: u64,
}

impl Gamepads {
    pub closed spec fn records(&self) -> Seq<DeviceRecord> {
        self.devices.records_spec()
    }

    pub closed spec fn max_devices(&self) -> usize {
        self.devices.max_spec()
    }

    pub closed spec fn pad(&self, i: int) -> PadModel {
        self.pads@[i]@
    }

    /// The buttons that gamepad `i` holds, with when each was pressed or last repeated.
    pub closed spec fn held(&self, i: int) -> Seq<Option<Hold>> {
        self.repeaters@[i].held_spec()
    }

    pub closed spec fn helds(&self) -> Seq<Seq<Option<Hold>>> {
        self.repeaters@.map_values(|r: Repeater| r.held_spec())
    }

    pub closed spec fn config_spec(&self) -> FilterConfig {
        self.config
    }

    pub closed spec fn interval_spec(&self) -> u64 {
        self.repeat_interval
    }

    pub closed spec fn stale_spec(&self) -> u64 {
        self.stale
    }

    /// How many raw samples arrived for a disconnected gamepad and were
    /// dropped (saturating at `u64::MAX`).
    pub fn stale_samples(&self) -> (r: u64)
        ensures
            r == self.stale_spec(),
    {
        self.stale
    }

    pub closed spec fn wf(&self) -> bool {
        &&& self.pads@.len() == self.devices.records_spec().len()
        &&& self.repeaters@.len() == self.devices.records_spec().len()
        &&& forall|i: int| #![trigger self.pads@[i]]
            0 <= i < self.pads@.len()
                ==> self.pads@[i].wf()
        &&& forall|i: int| #![trigger self.repeaters@[i]]
            0 <= i < self.repeaters@.len()
                ==> self.repeaters@[i].wf()
                && self.repeaters@[i].interval_spec() == self.repeat_interval
    }

    /// No gamepad yet; at most `max_devices` ids will be allocated, and a held
    /// button repeats every `repeat_interval` milliseconds.
    pub fn new(max_devices: usize, config: FilterConfig, repeat_interval: u64) -> (r: Gamepads)
        ensures
            r.wf(),
            r.records() == Seq::<DeviceRecord>::empty(),
            r.max_devices() == max_devices,
            r.config_spec() == config,
            r.interval_spec() == repeat_interval,
            r.stale_spec() == 0,
    {
        Gamepads {
            devices: DeviceManager::new(max_devices),
            pads: Vec::new(),
            repeaters: Vec::new(),
            config,
            repeat_interval,
            stale: 0,
        }
    }

    pub fn config(&self) -> (r: FilterConfig)
        ensures
            r == self.config_spec(),
    {
        self.config
    }

    /// A device with identity signature `signature` appeared at `time`: it gets
    /// its id back if it was known and disconnected, a new id otherwise; its
    /// state starts neutral.
    pub fn connect(&mut self, signature: u128, time: u64) -> (r: Result<Event, IdentityError>)
        requires
            old(self).wf(),
        ensures
            final(self).wf(),
            final(self).max_devices() == old(self).max_devices(),
            final(self).config_spec() == old(self).config_spec(),
            connect_rel(
                old(self).records(),
                old(self).max_devices(),
                signature,
                final(self).records(),
                match r {
                    Ok(e) => Ok(e.id),
                    Err(x) => Err(x),
                },
            ),
            final(self).interval_spec() == old(self).interval_spec(),
            final(self).stale_spec() == old(self).stale_spec(),
            r is Ok ==> r->Ok_0.event == EventType::Connected && r->Ok_0.time == time
                && final(self).pad(r->Ok_0.id.0 as int) == neutral_model()
                && final(self).held(r->Ok_0.id.0 as int) == Seq::new(BUTTON_COUNT as nat, |i: int| None::<Hold>),
            forall|j: int|
                0 <= j < old(self).records().len() && (r is Err || j != r->Ok_0.id.0)
                    ==> final(self).pad(j) == old(self).pad(j) && final(self).held(j) == old(self).held(j),
    {
        match self.devices.connect(signature) {
            Ok(id) => {
                if id.0 < self.pads.len() {
                    self.pads.set(id.0, GamepadState::new());
                    self.repeaters.set(id.0, Repeater::new(self.repeat_interval));
                } else {
                    self.pads.push(GamepadState::new());
                    self.repeaters.push(Repeater::new(self.repeat_interval));
                }
                Ok(Event { id, event: EventType::Connected, time })
            },
            Err(x) => Err(x),
        }
    }

    /// Gamepad `id` vanished at `time`: it is marked disconnected, its record
    /// kept for a later reconnection.
    pub fn disconnect(&mut self, id: GamepadId, time: u64) -> (r: Result<Event, IdentityError>)
        requires
            old(self).wf(),
        ensures
            final(self).wf(),
            final(self).max_devices() == old(self).max_devices(),
            final(self).config_spec() == old(self).config_spec(),
            disconnect_rel(
                old(self).records(),
                id,
                final(self).records(),
                match r {
                    Ok(_) => Ok(()),
                    Err(x) => Err(x),
                },
            ),
            final(self).interval_spec() == old(self).interval_spec(),
            final(self).stale_spec() == old(self).stale_spec(),
            r is Ok ==> r->Ok_0 == (Event { id, event: EventType::Disconnected, time })
                && final(self).pad(id.0 as int) == apply_event(old(self).pad(id.0 as int), EventType::Disconnected)
                && final(self).held(id.0 as int) == Seq::new(BUTTON_COUNT as nat, |i: int| None::<Hold>),
            forall|j: int|
                0 <= j < old(self).records().len() && j != id.0
                    ==> final(self).pad(j) == old(self).pad(j) && final(self).held(j) == old(self).held(j),
    {
        match self.devices.disconnect(id) {
            Ok(()) => {
                self.pads[id.0].update(&EventType::Disconnected);
                self.repeaters.set(id.0, Repeater::new(self.repeat_interval));
                Ok(Event { id, event: EventType::Disconnected, time })
            },
            Err(x) => Err(x),
        }
    }

    /// Whether gamepad `id` is connected now.
    pub fn is_connected(&self, id: GamepadId) -> (r: Result<bool, IdentityError>)
        ensures
            id.0 < self.records().len() ==> r == Ok::<bool, IdentityError>(self.records()[id.0 as int].connected),
            id.0 >= self.records().len() ==> r == Err::<bool, IdentityError>(IdentityError::UnknownDevice),
    {
        self.devices.is_connected(id)
    }

    /// The last known state of gamepad `id`.
    pub fn state(&self, id: GamepadId) -> (r: Result<&GamepadState, IdentityError>)
        requires
            self.wf(),
        ensures
            id.0 < self.records().len() ==> r is Ok && r->Ok_0@ == self.pad(id.0 as int) && r->Ok_0.wf(),
            id.0 >= self.records().len() ==> r == Err::<&GamepadState, IdentityError>(IdentityError::UnknownDevice),
    {
        if id.0 < self.pads.len() {
            Ok(&self.pads[id.0])
        } else {
            Err(IdentityError::UnknownDevice)
        }
    }

    /// A raw sample of gamepad `id` at `time`: it goes through the filter
    /// pipeline, every delivered event updates the gamepad's state and the
    /// buttons it holds, and the delivered events come back in order.
    pub fn handle(&mut self, id: GamepadId, raw: &EventType, time: u64) -> (r: Result<Vec<Event>, IdentityError>)
        requires
            old(self).wf(),
        ensures
            final(self).wf(),
            final(self).records() == old(self).records(),
            final(self).max_devices() == old(self).max_devices(),
            final(self).config_spec() == old(self).config_spec(),
            id.0 >= old(self).records().len() ==> r == Err::<Vec<Event>, IdentityError>(IdentityError::UnknownDevice)
                && final(self).pad(id.0 as int) == old(self).pad(id.0 as int),
            id.0 < old(self).records().len() ==> ({
                let out = sample_output(
                    old(self).config_spec(),
                    old(self).records()[id.0 as int].connected,
                    old(self).pad(id.0 as int),
                    *raw,
                );
                r is Ok && r->Ok_0@ == stamped(id, time, out) && final(self).pad(id.0 as int)
                    == apply_events(old(self).pad(id.0 as int), out) && final(self).held(id.0 as int)
                    == observed_all(old(self).held(id.0 as int), out, time)
            }),
            final(self).interval_spec() == old(self).interval_spec(),
            final(self).stale_spec() == if id.0 < old(self).records().len()
                && !old(self).records()[id.0 as int].connected && !(*raw is Connected)
                && !(*raw is Disconnected) && old(self).stale_spec() < u64::MAX {
                (old(self).stale_spec() + 1) as u64
            } else {
                old(self).stale_spec()
            },
            forall|j: int|
                0 <= j < old(self).records().len() && j != id.0
                    ==> final(self).pad(j) == old(self).pad(j) && final(self).held(j) == old(self).held(j),
    {
        if id.0 >= self.pads.len() {
            return Err(IdentityError::UnknownDevice);
        }
        let connected = match self.devices.is_connected(id) {
            Ok(c) => c,
            Err(x) => false,
        };
        let mut out: Vec<Event> = Vec::new();
        if matches!(*raw, EventType::Connected | EventType::Disconnected) {
            assert(out@ =~= stamped(id, time, Seq::<EventType>::empty()));
            assert(apply_events(self.pad(id.0 as int), Seq::<EventType>::empty()) == self.pad(id.0 as int));
            assert(observed_all(self.held(id.0 as int), Seq::<EventType>::empty(), time) == self.held(id.0 as int));
            return Ok(out);
        }
        if !connected {
            if self.stale < u64::MAX {
                self.stale = self.stale + 1;
            }
            assert(out@ =~= stamped(id, time, Seq::<EventType>::empty()));
            assert(apply_events(self.pad(id.0 as int), Seq::<EventType>::empty()) == self.pad(id.0 as int));
            assert(observed_all(self.held(id.0 as int), Seq::<EventType>::empty(), time) == self.held(id.0 as int));
            return Ok(out);
        }
        let i = id.0;
        let o = filter_event(&self.config, &self.pads[i], raw);
        let ghost m1 = self.pads@[i as int]@;
        let ghost pads0 = self.pads@;
        let ghost reps0 = self.repeaters@;
        let ghost h1 = self.repeaters@[i as int].held_spec();
        let mut j: usize = 0;
        while j < o.len()
            invariant
                self.devices == old(self).devices,
                self.config == old(self).config,
                self.repeat_interval == old(self).repeat_interval,
                self.stale == old(self).stale,
                self.repeaters@.len() == reps0.len(),
                reps0.len() == pads0.len(),
                self.repeaters@[i as int].wf(),
                self.repeaters@[i as int].interval_spec() == self.repeat_interval,
                self.repeaters@[i as int].held_spec() == observed_all(h1, o@.take(j as int), time),
                forall|k: int| 0 <= k < reps0.len() && k != i ==> self.repeaters@[k] == reps0[k],
                forall|k: int| #![trigger reps0[k]]
                    0 <= k < reps0.len()
                        ==> reps0[k].wf() && reps0[k].interval_spec()
                        == self.repeat_interval,
                self.pads@.len() == pads0.len(),
                i < pads0.len(),
                self.pads@[i as int].wf(),
                self.pads@[i as int]@ == apply_events(m1, o@.take(j as int)),
                forall|k: int| 0 <= k < pads0.len() && k != i ==> self.pads@[k] == pads0[k],
                forall|k: int| #![trigger pads0[k]] 0 <= k < pads0.len() ==> pads0[k].wf(),
                j <= o.len(),
                out@ == stamped(id, time, o@.take(j as int)),
            decreases o.len() - j,
        {
            assert(o@.take(j as int + 1).drop_last() =~= o@.take(j as int));
            self.pads[i].update(&o[j]);
            self.repeaters[i].observe(&o[j], time);
            out.push(Event { id, event: o[j], time });
            j = j + 1;
            assert(out@ =~= stamped(id, time, o@.take(j as int)));
        }
        assert(o@.take(j as int) =~= o@);
        assert forall|k: int| #![trigger self.pads@[k]]
            0 <= k < self.pads@.len()
                implies self.pads@[k].wf() by {
            if k != i {
                assert(self.pads@[k] == pads0[k]);
            }
        }
        assert forall|k: int| #![trigger self.repeaters@[k]]
            0 <= k < self.repeaters@.len()
                implies self.repeaters@[k].wf()
            && self.repeaters@[k].interval_spec() == self.repeat_interval by {
            if k != i {
                assert(self.repeaters@[k] == reps0[k]);
            }
        }
        Ok(out)
    }

    /// The repeats due at `now`: for each connected gamepad in id order, a
    /// `ButtonRepeated` for each button it has held for an interval since its
    /// press or last repeat, in button order. Each hold that fired moves on by
    /// one interval.
    pub fn tick(&mut self, now: u64) -> (r: Vec<Event>)
        requires
            old(self).wf(),
        ensures
            final(self).wf(),
            final(self).records() == old(self).records(),
            final(self).max_devices() == old(self).max_devices(),
            final(self).config_spec() == old(self).config_spec(),
            final(self).interval_spec() == old(self).interval_spec(),
            final(self).stale_spec() == old(self).stale_spec(),
            r@ == repeats_upto(
                old(self).records(),
                old(self).helds(),
                old(self).interval_spec(),
                now,
                old(self).records().len() as int,
            ),
            forall|j: int|
                0 <= j < old(self).records().len() ==> final(self).pad(j) == old(self).pad(j),
            forall|j: int|
                0 <= j < old(self).records().len() && old(self).records()[j].connected ==> final(self).held(j)
                    == Seq::new(
                    BUTTON_COUNT as nat,
                    |b: int| advanced(old(self).held(j)[b], old(self).interval_spec(), now),
                ),
            forall|j: int|
                0 <= j < old(self).records().len() && !old(self).records()[j].connected
                    ==> final(self).held(j) == old(self).held(j),
    {
        let ghost reps0 = self.repeaters@;
        let ghost helds0 = self.helds();
        let mut out: Vec<Event> = Vec::new();
        let mut i: usize = 0;
        while i < self.repeaters.len()
            invariant
                self.devices == old(self).devices,
                self.pads == old(self).pads,
                self.config == old(self).config,
                self.repeat_interval == old(self).repeat_interval,
                self.stale == old(self).stale,
                reps0 == old(self).repeaters@,
                helds0 == old(self).helds(),
                self.repeaters@.len() == reps0.len(),
                reps0.len() == self.devices.records_spec().len(),
                i <= reps0.len(),
                forall|k: int| #![trigger reps0[k]]
                    0 <= k < reps0.len()
                        ==> reps0[k].wf() && reps0[k].interval_spec()
                        == self.repeat_interval,
                forall|k: int| #![trigger self.repeaters@[k]]
                    0 <= k < reps0.len()
                        ==> self.repeaters@[k].wf()
                        && self.repeaters@[k].interval_spec() == self.repeat_interval,
                forall|k: int| i <= k < reps0.len() ==> self.repeaters@[k] == reps0[k],
                forall|k: int|
                    0 <= k < i && self.devices.records_spec()[k].connected ==> self.repeaters@[k].held_spec()
                        == Seq::new(
                        BUTTON_COUNT as nat,
                        |b: int| advanced(reps0[k].held_spec()[b], self.repeat_interval, now),
                    ),
                forall|k: int|
                    0 <= k < i && !self.devices.records_spec()[k].connected
                        ==> self.repeaters@[k] == reps0[k],
                out@ == repeats_upto(self.devices.records_spec(), helds0, self.repeat_interval, now, i as int),
            decreases reps0.len() - i,
        {
            assert(helds0[i as int] == reps0[i as int].held_spec());
            let connected = match self.devices.is_connected(GamepadId(i)) {
                Ok(c) => c,
                Err(_) => false,
            };
            let ghost reps_before = self.repeaters@;
            if connected {
                let fired = self.repeaters[i].tick(now);
                assert(forall|k: int| 0 <= k < reps0.len() && k != i ==> self.repeaters@[k] == reps_before[k]);
                assert(self.repeaters@[i as int].wf());
                let ghost before = out@;
                let mut k: usize = 0;
                while k < fired.len()
                    invariant
                        k <= fired.len(),
                        out@ == before + stamped(GamepadId(i), now, fired@.take(k as int)),
                    decreases fired.len() - k,
                {
                    out.push(Event { id: GamepadId(i), event: fired[k], time: now });
                    k = k + 1;
                    assert(out@ =~= before + stamped(GamepadId(i), now, fired@.take(k as int)));
                }
                assert(fired@.take(k as int) =~= fired@);
            }
            assert forall|k: int| #![trigger self.repeaters@[k]]
                0 <= k < reps0.len()
                    implies self.repeaters@[k].wf()
                && self.repeaters@[k].interval_spec() == self.repeat_interval by {
                if k != i {
                    assert(self.repeaters@[k] == reps_before[k]);
                }
            }
            i = i + 1;
        }
        assert forall|k: int| #![trigger self.pads@[k]]
            0 <= k < self.pads@.len()
                implies self.pads@[k].wf() by {
            assert(self.pads@[k] == old(self).pads@[k]);
        }
        out
    }
}

} // verus!
