//! The filter pipeline: range normalization, deadzones and d-pad buttons.

use vstd::prelude::*;

use crate::ev::{spec_second_axis, Axis, Button, Code, EventType, FULL};
use crate::state::{apply_event, apply_events, model_axis, model_button, GamepadState, PadModel};

verus! {

/// Settings of the filter pipeline. Thresholds are in thousandths of full scale.
#[derive(Clone, Copy, Debug, PartialEq, Eq)]
pub struct FilterConfig {
    /// A button below this value reads as released.
    pub button_deadzone: u16,
    /// A stick whose two axes together lie within this radius reads as at rest;
    /// an unpaired axis within this distance of zero too.
    pub axis_deadzone: u16,
    /// Whether d-pad axes also produce d-pad button presses and releases.
    pub dpad_buttons: bool,
}

pub open spec fn clamp_spec(v: int, lo: int, hi: int) -> int {
    if v < lo {
        lo
    } else if v > hi {
        hi
    } else {
        v
    }
}

/// A button value after normalization and the deadzone.
pub open spec fn button_filtered(cfg: FilterConfig, v: i32) -> int {
    let cv = clamp_spec(v as int, 0, FULL as int);
    if cv < cfg.button_deadzone as int {
        0
    } else {
        cv
    }
}

/// An axis value after normalization and the deadzone, given the current
/// value of the paired axis when there is one.
pub open spec fn axis_filtered(cfg: FilterConfig, m: PadModel, a: Axis, v: i32) -> int {
    let cv = clamp_spec(v as int, -FULL as int, FULL as int);
    let t = cfg.axis_deadzone as int;
    let other = match spec_second_axis(a) {
        Some(o) => clamp_spec(model_axis(m, o) as int, -FULL as int, FULL as int),
        None => 0,
    };
    if cv * cv + other * other < t * t {
        0
    } else {
        cv
    }
}

pub open spec fn is_down(v: int) -> bool {
    v > 0
}

/// A press when `is_now` became true, a release when it became false.
pub open spec fn edge(b: Button, was: bool, is_now: bool, c: Code) -> Seq<EventType> {
    if !was && is_now {
        seq![EventType::ButtonPressed(b, c)]
    } else if was && !is_now {
        seq![EventType::ButtonReleased(b, c)]
    } else {
        seq![]
    }
}

/// D-pad buttons for a d-pad axis that moved from `prev` to `now`.
pub open spec fn dpad_events(cfg: FilterConfig, a: Axis, prev: int, now: int, c: Code) -> Seq<EventType> {
    if !cfg.dpad_buttons {
        seq![]
    } else if a == Axis::DPadX {
        edge(Button::DPadLeft, prev <= -FULL, now <= -FULL, c) + edge(
            Button::DPadRight,
            prev >= FULL,
            now >= FULL,
            c,
        )
    } else if a == Axis::DPadY {
        edge(Button::DPadUp, prev >= FULL, now >= FULL, c) + edge(
            Button::DPadDown,
            prev <= -FULL,
            now <= -FULL,
            c,
        )
    } else {
        seq![]
    }
}

/// What the pipeline delivers for one raw event, given the gamepad's state:
/// nothing for a dropped event, for an input of a disconnected gamepad, or
/// for a value that does not change the state; otherwise the filtered event,
/// followed by the presses and releases it causes.
pub open spec fn filtered(cfg: FilterConfig, m: PadModel, e: EventType) -> Seq<EventType> {
    match e {
        EventType::ButtonChanged(b, v, c) => {
            let f = button_filtered(cfg, v);
            let prev = model_button(m, b) as int;
            if !m.connected || f == prev {
                seq![]
            } else {
                seq![EventType::ButtonChanged(b, f as i32, c)] + edge(b, is_down(prev), is_down(f), c)
            }
        },
        EventType::AxisChanged(a, v, c) => {
            let f = axis_filtered(cfg, m, a, v);
            let prev = model_axis(m, a) as int;
            if !m.connected || f == prev {
                seq![]
            } else {
                seq![EventType::AxisChanged(a, f as i32, c)] + dpad_events(cfg, a, prev, f, c)
            }
        },
        EventType::ButtonPressed(..) | EventType::ButtonReleased(..) | EventType::ButtonRepeated(
            ..,
        ) => if m.connected {
            seq![e]
        } else {
            seq![]
        },
        EventType::Dropped => seq![],
        _ => seq![e],
    }
}

/// Filters each raw event in turn, recording what is delivered in the state:
/// the final state, and everything delivered in order.
pub open spec fn run(cfg: FilterConfig, m: PadModel, raw: Seq<EventType>) -> (PadModel, Seq<EventType>)
    decreases raw.len(),
{
    if raw.len() == 0 {
        (m, seq![])
    } else {
        let (m1, out1) = run(cfg, m, raw.drop_last());
        let o = filtered(cfg, m1, raw.last());
        (apply_events(m1, o), out1 + o)
    }
}

fn clamp(v: i32, lo: i32, hi: i32) -> (r: i32)
    requires
        lo <= hi,
    ensures
        r == clamp_spec(v as int, lo as int, hi as int),
{
    if v < lo {
        lo
    } else if v > hi {
        hi
    } else {
        v
    }
}

fn push_edge(out: &mut Vec<EventType>, b: Button, was: bool, is_now: bool, c: Code)
    ensures
        final(out)@ == old(out)@ + edge(b, was, is_now, c),
{
    if !was && is_now {
        out.push(EventType::ButtonPressed(b, c));
    } else if was && !is_now {
        out.push(EventType::ButtonReleased(b, c));
    }
    assert(final(out)@ =~= old(out)@ + edge(b, was, is_now, c));
}

fn push_dpad(out: &mut Vec<EventType>, cfg: &FilterConfig, a: Axis, prev: i32, now: i32, c: Code)
    ensures
        final(out)@ == old(out)@ + dpad_events(*cfg, a, prev as int, now as int, c),
{
    if !cfg.dpad_buttons {
        assert(final(out)@ =~= old(out)@ + dpad_events(*cfg, a, prev as int, now as int, c));
        return;
    }
    let ghost start = out@;
    match a {
        Axis::DPadX => {
            push_edge(out, Button::DPadLeft, prev <= -FULL, now <= -FULL, c);
            push_edge(out, Button::DPadRight, prev >= FULL, now >= FULL, c);
        },
        Axis::DPadY => {
            push_edge(out, Button::DPadUp, prev >= FULL, now >= FULL, c);
            push_edge(out, Button::DPadDown, prev <= -FULL, now <= -FULL, c);
        },
        _ => {},
    }
    assert(out@ =~= start + dpad_events(*cfg, a, prev as int, now as int, c));
}

/// Runs one raw event through the pipeline against the gamepad's current state.
pub fn filter_event(cfg: &FilterConfig, st: &GamepadState, e: &EventType) -> (r: Vec<EventType>)
    requires
        st.wf(),
    ensures
        r@ == filtered(*cfg, st@, *e),
{
    let mut out: Vec<EventType> = Vec::new();
    match *e {
        EventType::ButtonChanged(b, v, c) => {
            let cv = clamp(v, 0, FULL);
            let f: i32 = if cv < cfg.button_deadzone as i32 { 0 } else { cv };
            let prev = st.button_value(b);
            if st.is_connected() && f != prev {
                out.push(EventType::ButtonChanged(b, f, c));
                push_edge(&mut out, b, prev > 0, f > 0, c);
            }
        },
        EventType::AxisChanged(a, v, c) => {
            let cv = clamp(v, -FULL, FULL);
            let t = cfg.axis_deadzone as i64;
            let other: i32 = match a.second_axis() {
                Some(o) => clamp(st.axis_value(o), -FULL, FULL),
                None => 0,
            };
            assert(-1000 <= cv <= 1000 && -1000 <= other <= 1000);
            assert(0 <= (cv as i64) * (cv as i64) <= 1000000) by (nonlinear_arith)
                requires -1000 <= cv <= 1000;
            assert(0 <= (other as i64) * (other as i64) <= 1000000) by (nonlinear_arith)
                requires -1000 <= other <= 1000;
            let mag = (cv as i64) * (cv as i64) + (other as i64) * (other as i64);
            assert(0 <= t * t <= 65535 * 65535) by (nonlinear_arith)
                requires 0 <= t <= 65535;
            let f: i32 = if mag < t * t { 0 } else { cv };
            let prev = st.axis_value(a);
            if st.is_connected() && f != prev {
                out.push(EventType::AxisChanged(a, f, c));
                push_dpad(&mut out, cfg, a, prev, f, c);
            }
        },
        EventType::ButtonPressed(..) | EventType::ButtonReleased(..) | EventType::ButtonRepeated(..) => {
            if st.is_connected() {
                out.push(*e);
            }
        },
        EventType::Dropped => {},
        _ => {
            out.push(*e);
        },
    }
    assert(out@ =~= filtered(*cfg, st@, *e));
    out
}

/// Runs raw events of one gamepad through the pipeline in order, updating its
/// state with every delivered event; returns what is delivered, in order.
pub fn process(cfg: &FilterConfig, st: &mut GamepadState, raw: &Vec<EventType>) -> (r: Vec<EventType>)
    requires
        old(st).wf(),
    ensures
        final(st).wf(),
        (final(st)@, r@) == run(*cfg, old(st)@, raw@),
{
    let ghost m0 = st@;
    let mut out: Vec<EventType> = Vec::new();
    let mut i: usize = 0;
    while i < raw.len()
        invariant
            st.wf(),
            i <= raw.len(),
            (st@, out@) == run(*cfg, m0, raw@.take(i as int)),
        decreases raw.len() - i,
    {
        assert(raw@.take(i as int + 1).drop_last() =~= raw@.take(i as int));
        assert(raw@.take(i as int + 1).last() == raw@[i as int]);
        let ghost m1 = st@;
        let ghost out1 = out@;
        let o = filter_event(cfg, st, &raw[i]);
        let mut j: usize = 0;
        while j < o.len()
            invariant
                st.wf(),
                j <= o.len(),
                st@ == apply_events(m1, o@.take(j as int)),
                out@ == out1 + o@.take(j as int),
            decreases o.len() - j,
        {
            assert(o@.take(j as int + 1).drop_last() =~= o@.take(j as int));
            st.update(&o[j]);
            out.push(o[j]);
            j = j + 1;
            assert(out@ =~= out1 + o@.take(j as int));
        }
        assert(o@.take(j as int) =~= o@);
        i = i + 1;
    }
    assert(raw@.take(i as int) =~= raw@);
    out
}

/// Applying two runs of events one after the other is applying their concatenation.
pub proof fn lemma_apply_events_concat(m: PadModel, a: Seq<EventType>, b: Seq<EventType>)
    ensures
        apply_events(m, a + b) == apply_events(apply_events(m, a), b),
    decreases b.len(),
{
    if b.len() == 0 {
        assert(a + b =~= a);
    } else {
        assert((a + b).drop_last() =~= a + b.drop_last());
        lemma_apply_events_concat(m, a, b.drop_last());
    }
}

/// Events that only report presses, releases and repeats leave the state as it is.
pub proof fn lemma_apply_passive(m: PadModel, s: Seq<EventType>)
    requires
        forall|i: int|
            0 <= i < s.len() ==> (s[i] is ButtonPressed || s[i] is ButtonReleased
                || s[i] is ButtonRepeated),
    ensures
        apply_events(m, s) == m,
    decreases s.len(),
{
    if s.len() > 0 {
        lemma_apply_passive(m, s.drop_last());
    }
}

proof fn lemma_apply_single(m: PadModel, e: EventType, s: Seq<EventType>)
    requires
        forall|i: int|
            0 <= i < s.len() ==> (s[i] is ButtonPressed || s[i] is ButtonReleased
                || s[i] is ButtonRepeated),
    ensures
        apply_events(m, seq![e] + s) == apply_event(m, e),
{
    lemma_apply_events_concat(m, seq![e], s);
    assert(seq![e].drop_last() =~= Seq::<EventType>::empty());
    assert(apply_events(m, Seq::<EventType>::empty()) == m);
    assert(seq![e].last() == e);
    assert(apply_events(m, seq![e]) == apply_event(m, e));
    lemma_apply_passive(apply_event(m, e), s);
}

/// Feeding the same raw value twice: the second time nothing is delivered and
/// the state stays as the first left it, so at most one state change and no
/// repeated presses or releases come of it.
pub proof fn lemma_deadzone_idempotent(cfg: FilterConfig, m: PadModel, e: EventType)
    requires
        crate::state::model_wf(m),
        e is ButtonChanged || e is AxisChanged,
    ensures
        ({
            let m1 = apply_events(m, filtered(cfg, m, e));
            let second = filtered(cfg, m1, e);
            second.len() == 0 && apply_events(m1, second) == m1
        }),
{
    let o = filtered(cfg, m, e);
    match e {
        EventType::ButtonChanged(b, v, c) => {
            let f = button_filtered(cfg, v);
            if o.len() > 0 {
                lemma_apply_single(m, EventType::ButtonChanged(b, f as i32, c), edge(b, is_down(model_button(m, b) as int), is_down(f), c));
            }
        },
        EventType::AxisChanged(a, v, c) => {
            let f = axis_filtered(cfg, m, a, v);
            if o.len() > 0 {
                let prev = model_axis(m, a) as int;
                lemma_apply_single(m, EventType::AxisChanged(a, f as i32, c), dpad_events(cfg, a, prev, f, c));
                let m1 = apply_events(m, o);
                assert(m1.axes == m.axes.update(crate::ev::axis_index(a), f as i32));
                assert(axis_filtered(cfg, m1, a, v) == f);
            }
        },
        _ => {},
    }
}

/// Per-device ordering: what a run delivers for a sequence of raw events is
/// what it delivers for a first part, followed by what the rest delivers from
/// the state the first part left; nothing is reordered across raw events.
pub proof fn lemma_run_in_order(cfg: FilterConfig, m: PadModel, a: Seq<EventType>, b: Seq<EventType>)
    ensures
        run(cfg, m, a + b).0 == run(cfg, run(cfg, m, a).0, b).0,
        run(cfg, m, a + b).1 == run(cfg, m, a).1 + run(cfg, run(cfg, m, a).0, b).1,
    decreases b.len(),
{
    if b.len() == 0 {
        assert(a + b =~= a);
        assert(run(cfg, m, a).1 + Seq::<EventType>::empty() =~= run(cfg, m, a).1);
    } else {
        assert((a + b).drop_last() =~= a + b.drop_last());
        assert((a + b).last() == b.last());
        lemma_run_in_order(cfg, m, a, b.drop_last());
        let mid = run(cfg, m, a).0;
        let o = filtered(cfg, run(cfg, mid, b.drop_last()).0, b.last());
        assert(run(cfg, m, a).1 + run(cfg, mid, b.drop_last()).1 + o =~= run(cfg, m, a).1 + (run(
            cfg,
            mid,
            b.drop_last(),
        ).1 + o));
    }
}

} // verus!
