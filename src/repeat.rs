//! Repeated presses of buttons that stay held.

use vstd::prelude::*;

use crate::ev::{button_at, button_index, Button, Code, EventType, BUTTON_COUNT};

verus! {

/// A held button: when it was pressed, or last repeated, and its code.
#[derive(Clone, Copy, Debug, PartialEq, Eq, Structural)]
pub struct Hold {
    pub since: u64,
    pub code: Code,
}

/// What the repeat filter remembers of each button after an event at `now`:
/// a press starts a hold, a release or a value of zero ends it.
pub open spec fn observed(held: Seq<Option<Hold>>, e: EventType, now: u64) -> Seq<Option<Hold>> {
    match e {
        EventType::ButtonPressed(b, c) => held.update(button_index(b), Some(Hold { since: now, code: c })),
        EventType::ButtonReleased(b, _) => held.update(button_index(b), None),
        EventType::ButtonChanged(b, v, _) => if v <= 0 {
            held.update(button_index(b), None)
        } else {
            held
        },
        _ => held,
    }
}

/// What the repeat filter remembers after each event of `es` in turn, all at `now`.
pub open spec fn observed_all(held: Seq<Option<Hold>>, es: Seq<EventType>, now: u64) -> Seq<Option<Hold>>
    decreases es.len(),
{
    if es.len() == 0 {
        held
    } else {
        observed(observed_all(held, es.drop_last(), now), es.last(), now)
    }
}

/// Whether a hold is due for a repeat at `now`.
pub open spec fn due(h: Option<Hold>, interval: u64, now: u64) -> bool {
    h is Some && now as int >= h->Some_0.since as int + interval as int
}

/// The repeats due at `now` among the first `n` buttons, in button order.
pub open spec fn repeats(held: Seq<Option<Hold>>, interval: u64, now: u64, n: int) -> Seq<EventType>
    decreases n,
{
    if n <= 0 {
        seq![]
    } else if due(held[n - 1], interval, now) {
        repeats(held, interval, now, n - 1) + seq![
            EventType::ButtonRepeated(button_at(n - 1), held[n - 1]->Some_0.code),
        ]
    } else {
        repeats(held, interval, now, n - 1)
    }
}

/// A hold after a tick at `now`: one that fired moves on by one interval.
pub open spec fn advanced(h: Option<Hold>, interval: u64, now: u64) -> Option<Hold> {
    if due(h, interval, now) {
        Some(Hold { since: (h->Some_0.since + interval) as u64, code: h->Some_0.code })
    } else {
        h
    }
}

/// Emits `ButtonRepeated` for buttons held longer than an interval, at that cadence.
pub struct Repeater {
    interval: u64,
    held: Vec<Option<Hold>>,
}

impl Repeater {
    pub closed spec fn interval_spec(&self) -> u64 {
        self.interval
    }

    pub closed spec fn held_spec(&self) -> Seq<Option<Hold>> {
        self.held@
    }

    pub open spec fn wf(&self) -> bool {
        self.held_spec().len() == BUTTON_COUNT
    }

    /// A repeat filter with no button held.
    pub fn new(interval: u64) -> (r: Repeater)
        ensures
            r.wf(),
            r.interval_spec() == interval,
            r.held_spec() == Seq::new(BUTTON_COUNT as nat, |i: int| None::<Hold>),
    {
        let mut held: Vec<Option<Hold>> = Vec::new();
        let mut i: usize = 0;
        while i < BUTTON_COUNT
            invariant
                i <= BUTTON_COUNT,
                held@ == Seq::new(i as nat, |j: int| None::<Hold>),
            decreases BUTTON_COUNT - i,
        {
            held.push(None);
            i = i + 1;
            assert(held@ =~= Seq::new(i as nat, |j: int| None::<Hold>));
        }
        Repeater { interval, held }
    }

    pub fn interval(&self) -> (r: u64)
        ensures
            r == self.interval_spec(),
    {
        self.interval
    }

    /// Whether `b` is held, as far as this filter has seen.
    pub fn is_held(&self, b: Button) -> (r: bool)
        requires
            self.wf(),
        ensures
            r == (self.held_spec()[button_index(b)] is Some),
    {
        self.held[b.index()].is_some()
    }

    /// Takes note of a delivered event that happened at `now`.
    pub fn observe(&mut self, e: &EventType, now: u64)
        requires
            old(self).wf(),
        ensures
            final(self).wf(),
            final(self).interval_spec() == old(self).interval_spec(),
            final(self).held_spec() == observed(old(self).held_spec(), *e, now),
    {
        match *e {
            EventType::ButtonPressed(b, c) => {
                self.held.set(b.index(), Some(Hold { since: now, code: c }));
            },
            EventType::ButtonReleased(b, _) => {
                self.held.set(b.index(), None);
            },
            EventType::ButtonChanged(b, v, _) => {
                if v <= 0 {
                    self.held.set(b.index(), None);
                }
            },
            _ => {},
        }
    }

    /// The repeats due at `now`, one per held button at most, in button order;
    /// each hold that fired moves on by one interval.
    pub fn tick(&mut self, now: u64) -> (r: Vec<EventType>)
        requires
            old(self).wf(),
        ensures
            final(self).wf(),
            final(self).interval_spec() == old(self).interval_spec(),
            r@ == repeats(old(self).held_spec(), old(self).interval_spec(), now, BUTTON_COUNT as int),
            final(self).held_spec() == Seq::new(
                BUTTON_COUNT as nat,
                |i: int| advanced(old(self).held_spec()[i], old(self).interval_spec(), now),
            ),
    {
        let ghost h0 = self.held@;
        let mut out: Vec<EventType> = Vec::new();
        let mut i: usize = 0;
        while i < BUTTON_COUNT
            invariant
                self.wf(),
                self.interval == old(self).interval,
                h0 == old(self).held_spec(),
                i <= BUTTON_COUNT,
                out@ == repeats(h0, self.interval, now, i as int),
                forall|j: int| 0 <= j < i ==> self.held@[j] == advanced(h0[j], self.interval, now),
                forall|j: int| i <= j < BUTTON_COUNT ==> self.held@[j] == h0[j],
            decreases BUTTON_COUNT - i,
        {
            match self.held[i] {
                Some(h) => {
                    if now >= h.since && now - h.since >= self.interval {
                        out.push(EventType::ButtonRepeated(Button::from_index(i), h.code));
                        self.held.set(i, Some(Hold { since: h.since + self.interval, code: h.code }));
                    }
                },
                None => {},
            }
            i = i + 1;
        }
        assert(self.held@ =~= Seq::new(
            BUTTON_COUNT as nat,
            |i: int| advanced(h0[i], self.interval, now),
        ));
        out
    }
}

} // verus!
