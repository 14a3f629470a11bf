//! Event-loop decisions: a single-threaded multiplexer polls four
//! sources in fixed priority order and hands each serviced event to
//! `step`, which mutates the monitor state and returns the effects the
//! caller must perform (transmit a mode command, render a snapshot,
//! quit).
//!
//! The caller owns the actual waiting (bus socket, keyboard, timer);
//! this module owns every decision: what a telemetry event changes,
//! what a key does, when the heartbeat is suppressed, when the timer is
//! re-armed or disarmed, and how redraw requests coalesce.

use vstd::prelude::*;

use crate::liveness::{
    pack_swept, sweep, sweep_requests_redraw, sweep_stay_awake,
};
use crate::mode::{
    key_command, spec_key_command, spec_tick_command, tick_command, KeyCommand, Mode,
};
use crate::telemetry::{
    apply_event, store_updated, AdcRails, AdcVoltages, ChargeLimit, DiagnosticConnect, Event,
    HvStatus, Module, Pack, PackHvStatus, PackSoc, StateOfCharge, TemperaturesA, TemperaturesB,
    BRICKS_PER_MODULE, MODULE_SLOTS,
};

verus! {

broadcast use vstd::array::axiom_spec_array_fill_for_copy_type;

/// A module slot before any message has arrived: all telemetry fields
/// zero-valued and the slot absent.
pub open spec fn module_initial(m: Module) -> bool {
    &&& m.serial_number == 0
    &&& m.adc_voltages == (AdcVoltages { pack_mv: 0, common_drain_mv: 0, load_mv: 0 })
    &&& m.adc_rails == (AdcRails { rail_5v_mv: 0, rail_12v_mv: 0, rail_3v3_mv: 0 })
    &&& m.hv_status == (HvStatus { voltage_mv: 0, current_ma: 0 })
    &&& m.charge_limit == (ChargeLimit { voltage_mv: 0, current_ma: 0 })
    &&& m.soc == (StateOfCharge { soc_mpct: 0, soh_mpct: 0 })
    &&& m.temperatures_a == (TemperaturesA { ambient_mdeg: 0, module1_mdeg: 0, module2_mdeg: 0 })
    &&& m.temperatures_b == (TemperaturesB { fet_mdeg: 0, shunt_mdeg: 0 })
    &&& forall|k: int| 0 <= k < BRICKS_PER_MODULE ==> m.brick_mv@[k] == 0
    &&& forall|k: int| 0 <= k < BRICKS_PER_MODULE ==> m.balancing@[k] == false
    &&& m.last_seen is None
}

/// The pack at process start: mode `Idle`, every slot initial, no
/// charge request, pack-level aggregates zeroed.
pub open spec fn pack_initial(p: Pack) -> bool {
    &&& p.mode is Idle
    &&& forall|i: int| 0 <= i < MODULE_SLOTS ==> module_initial(p.modules@[i])
    &&& p.charge_request is None
    &&& p.diagnostic_connect == (DiagnosticConnect {
        charge_connected: 0,
        drive_connected: 0,
        charge_standby: 0,
        drive_standby: 0,
    })
    &&& p.pack_hv_status == (PackHvStatus { voltage_mv: 0, current_ma: 0 })
    &&& p.pack_soc == (PackSoc { soc_mpct: 0, user_soc_mpct: 0 })
}

impl Default for Module {
    /// A zero-valued, absent module slot.
    fn default() -> (m: Module)
        ensures
            module_initial(m),
    {
        Module {
            serial_number: 0,
            adc_voltages: AdcVoltages { pack_mv: 0, common_drain_mv: 0, load_mv: 0 },
            adc_rails: AdcRails { rail_5v_mv: 0, rail_12v_mv: 0, rail_3v3_mv: 0 },
            hv_status: HvStatus { voltage_mv: 0, current_ma: 0 },
            charge_limit: ChargeLimit { voltage_mv: 0, current_ma: 0 },
            soc: StateOfCharge { soc_mpct: 0, soh_mpct: 0 },
            temperatures_a: TemperaturesA { ambient_mdeg: 0, module1_mdeg: 0, module2_mdeg: 0 },
            temperatures_b: TemperaturesB { fet_mdeg: 0, shunt_mdeg: 0 },
            brick_mv: [0; BRICKS_PER_MODULE],
            balancing: [false; BRICKS_PER_MODULE],
            last_seen: None,
        }
    }
}

impl Default for Pack {
    /// The pack as the process starts.
    fn default() -> (p: Pack)
        ensures
            pack_initial(p),
    {
        let m = Module::default();
        let modules = vstd::array::array_fill_for_copy_types::<Module, MODULE_SLOTS>(m);
        assert(forall|i: int| 0 <= i < MODULE_SLOTS ==> modules@[i] == m);
        Pack {
            mode: Mode::Idle,
            modules,
            charge_request: None,
            diagnostic_connect: DiagnosticConnect {
                charge_connected: 0,
                drive_connected: 0,
                charge_standby: 0,
                drive_standby: 0,
            },
            pack_hv_status: PackHvStatus { voltage_mv: 0, current_ma: 0 },
            pack_soc: PackSoc { soc_mpct: 0, user_soc_mpct: 0 },
        }
    }
}

/// Everything the loop owns: the pack, whether the periodic timer is
/// armed, and the coalescing redraw flag (any number of requests before
/// the next poll collapse into one pending bit).
#[derive(Clone, Copy, Debug)]
pub struct LoopState {
    pub pack: Pack,
    pub timer_armed: bool,
    pub redraw_pending: bool,
}

/// One serviced occurrence from one of the four sources.
#[derive(Debug)]
pub enum LoopEvent {
    /// An inbound decoded telemetry message.
    Telemetry(Event),
    /// A pressed key.
    Key(char),
    /// The coalesced redraw signal fired.
    Redraw,
    /// The periodic timer fired.
    Tick,
}

/// What the caller must do after a step: send a mode command, render a
/// snapshot of the pack, or leave the loop.
#[derive(Clone, Copy, Debug, PartialEq, Eq, Structural)]
pub struct Effects {
    pub transmit: Option<Mode>,
    pub render: bool,
    pub quit: bool,
}

impl Effects {
    /// No transmit, no render, no quit.
    pub open spec fn none() -> Effects {
        Effects { transmit: None, render: false, quit: false }
    }
}

/// State `n` and effects `eff` are what servicing `ev` at time `now`
/// makes of state `o`:
///
/// - telemetry is stored, a redraw is requested, and the timer is
///   re-armed, so that the new data can be timed out later;
/// - a recognized mode key sets the mode and transmits it immediately —
///   for `Sleep` this is the single one-shot send, for every other mode
///   the ordinary send — re-arms the timer and requests a redraw; `q`
///   quits; anything else is ignored;
/// - servicing the redraw signal renders once and clears the pending
///   flag;
/// - a tick attempts the heartbeat (suppressed while asleep), sweeps
///   liveness, and leaves the timer armed only while something still
///   needs tracking.
pub open spec fn stepped(o: LoopState, n: LoopState, ev: LoopEvent, now: u64, eff: Effects) -> bool {
    match ev {
        LoopEvent::Telemetry(e) => {
            &&& store_updated(o.pack, n.pack, e, now)
            &&& n.timer_armed
            &&& n.redraw_pending
            &&& eff == Effects::none()
        },
        LoopEvent::Key(k) => match spec_key_command(k) {
            KeyCommand::Quit => {
                &&& n == o
                &&& eff == (Effects { transmit: None, render: false, quit: true })
            },
            KeyCommand::SetMode(m) => {
                &&& n.pack.mode == m
                &&& n.pack.modules@ == o.pack.modules@
                &&& n.pack.charge_request == o.pack.charge_request
                &&& n.pack.diagnostic_connect == o.pack.diagnostic_connect
                &&& n.pack.pack_hv_status == o.pack.pack_hv_status
                &&& n.pack.pack_soc == o.pack.pack_soc
                &&& n.timer_armed
                &&& n.redraw_pending
                &&& eff == (Effects { transmit: Some(m), render: false, quit: false })
            },
            KeyCommand::Ignore => {
                &&& n == o
                &&& eff == Effects::none()
            },
        },
        LoopEvent::Redraw => {
            &&& n.pack == o.pack
            &&& n.timer_armed == o.timer_armed
            &&& !n.redraw_pending
            &&& eff == (Effects { transmit: None, render: true, quit: false })
        },
        LoopEvent::Tick => {
            &&& pack_swept(o.pack, n.pack, now)
            &&& n.timer_armed == sweep_stay_awake(o.pack, now)
            &&& n.redraw_pending == (o.redraw_pending || sweep_requests_redraw(o.pack, now))
            &&& eff == (Effects {
                transmit: spec_tick_command(o.pack.mode),
                render: false,
                quit: false,
            })
        },
    }
}

/// Services one event: updates the state and returns the effects the
/// caller must perform before polling again.
pub fn step(state: &mut LoopState, ev: &LoopEvent, now: u64) -> (eff: Effects)
    requires
        ev matches LoopEvent::Telemetry(e) ==> e.wf(),
    ensures
        stepped(*old(state), *final(state), *ev, now, eff),
{
    match ev {
        LoopEvent::Telemetry(e) => {
            apply_event(&mut state.pack, e, now);
            state.timer_armed = true;
            state.redraw_pending = true;
            Effects { transmit: None, render: false, quit: false }
        },
        LoopEvent::Key(k) => match key_command(*k) {
            KeyCommand::Quit => Effects { transmit: None, render: false, quit: true },
            KeyCommand::SetMode(m) => {
                state.pack.mode = m;
                state.timer_armed = true;
                state.redraw_pending = true;
                Effects { transmit: Some(m), render: false, quit: false }
            },
            KeyCommand::Ignore => Effects { transmit: None, render: false, quit: false },
        },
        LoopEvent::Redraw => {
            state.redraw_pending = false;
            Effects { transmit: None, render: true, quit: false }
        },
        LoopEvent::Tick => {
            let cmd = tick_command(state.pack.mode);
            let out = sweep(&mut state.pack, now);
            state.timer_armed = out.stay_awake;
            state.redraw_pending = state.redraw_pending || out.redraw;
            Effects { transmit: cmd, render: false, quit: false }
        },
    }
}

impl LoopState {
    /// The monitor as the loop starts: initial pack, timer armed for
    /// the first tick, no redraw pending (the caller renders once
    /// before polling).
    pub fn new() -> (s: LoopState)
        ensures
            pack_initial(s.pack),
            s.timer_armed,
            !s.redraw_pending,
    {
        LoopState { pack: Pack::default(), timer_armed: true, redraw_pending: false }
    }
}

/// What happens before the first poll: render once immediately so the
/// first frame is not blank, and send the current mode once through
/// the ordinary (sleep-suppressed) path so the hardware does not wait a
/// full period.
pub fn startup_effects(state: &LoopState) -> (eff: Effects)
    ensures
        eff.transmit == spec_tick_command(state.pack.mode),
        eff.render,
        !eff.quit,
{
    Effects { transmit: tick_command(state.pack.mode), render: true, quit: false }
}

/// Law: entering `Sleep` transmits exactly once, at the moment of the
/// keypress, and puts the pack's commanded mode to `Sleep`.
pub proof fn lemma_sleep_one_shot(o: LoopState, n: LoopState, now: u64, eff: Effects)
    requires
        stepped(o, n, LoopEvent::Key('s'), now, eff),
    ensures
        eff.transmit == Some(Mode::Sleep),
        n.pack.mode is Sleep,
        !eff.render,
        !eff.quit,
{
}

/// The mode after `j` chained periodic ticks from a sleeping state is
/// still `Sleep`: a sweep never touches the mode.
proof fn lemma_sleep_mode_at(
    states: Seq<LoopState>,
    times: Seq<u64>,
    effs: Seq<Effects>,
    j: int,
)
    requires
        states.len() == times.len() + 1,
        effs.len() == times.len(),
        states[0].pack.mode is Sleep,
        forall|t: int| 0 <= t < times.len() ==> stepped(
            states[t],
            states[t + 1],
            LoopEvent::Tick,
            times[t],
            effs[t],
        ),
        0 <= j < states.len(),
    ensures
        states[j].pack.mode is Sleep,
    decreases j,
{
    if j > 0 {
        lemma_sleep_mode_at(states, times, effs, j - 1);
        assert(stepped(states[j - 1], states[j], LoopEvent::Tick, times[j - 1], effs[j - 1]));
    }
}

/// Law: while the commanded mode is `Sleep`, periodic ticks transmit
/// nothing — however many fire, and whatever the sweeps do to
/// liveness — and the mode stays `Sleep` throughout.
pub proof fn lemma_sleep_suppresses_ticks(
    states: Seq<LoopState>,
    times: Seq<u64>,
    effs: Seq<Effects>,
)
    requires
        states.len() == times.len() + 1,
        effs.len() == times.len(),
        states[0].pack.mode is Sleep,
        forall|t: int| 0 <= t < times.len() ==> stepped(
            states[t],
            states[t + 1],
            LoopEvent::Tick,
            times[t],
            effs[t],
        ),
    ensures
        forall|t: int| 0 <= t < states.len() ==> states[t].pack.mode is Sleep,
        forall|t: int| 0 <= t < effs.len() ==> effs[t].transmit is None,
{
    assert forall|t: int| 0 <= t < states.len() implies states[t].pack.mode is Sleep by {
        lemma_sleep_mode_at(states, times, effs, t);
    }
    assert forall|t: int| 0 <= t < effs.len() implies effs[t].transmit is None by {
        lemma_sleep_mode_at(states, times, effs, t);
        assert(stepped(states[t], states[t + 1], LoopEvent::Tick, times[t], effs[t]));
    }
}

/// Law: setting a mode other than `Sleep` — here, `Charge`, while the
/// pack was asleep and the timer disarmed — transmits the new mode
/// immediately and re-arms the periodic timer.
pub proof fn lemma_mode_resume(o: LoopState, n: LoopState, now: u64, eff: Effects)
    requires
        o.pack.mode is Sleep,
        !o.timer_armed,
        stepped(o, n, LoopEvent::Key('c'), now, eff),
    ensures
        eff.transmit == Some(Mode::Charge),
        n.pack.mode is Charge,
        n.timer_armed,
        spec_tick_command(n.pack.mode) == Some(Mode::Charge),
{
}

/// The event raises the coalescing redraw flag when serviced: inbound
/// telemetry, or a recognized mode key.
pub open spec fn requests_redraw(ev: LoopEvent) -> bool {
    match ev {
        LoopEvent::Telemetry(_) => true,
        LoopEvent::Key(k) => spec_key_command(k) matches KeyCommand::SetMode(_),
        _ => false,
    }
}

/// Law: redraw requests coalesce. A run of steps that each raise the
/// redraw flag renders nothing itself and leaves exactly one pending
/// request, however long the run; the single step that services the
/// redraw source then renders exactly once and clears the flag, so a
/// further poll finds the source idle.
pub proof fn lemma_redraw_coalesces(
    states: Seq<LoopState>,
    events: Seq<LoopEvent>,
    times: Seq<u64>,
    effs: Seq<Effects>,
    served: LoopState,
    serve_time: u64,
    serve_eff: Effects,
)
    requires
        states.len() == events.len() + 1,
        times.len() == events.len(),
        effs.len() == events.len(),
        events.len() >= 1,
        forall|t: int| 0 <= t < events.len() ==> requests_redraw(events[t]),
        forall|t: int| 0 <= t < events.len() ==> stepped(
            states[t],
            states[t + 1],
            events[t],
            times[t],
            effs[t],
        ),
        stepped(states.last(), served, LoopEvent::Redraw, serve_time, serve_eff),
    ensures
        forall|t: int| 0 <= t < effs.len() ==> !effs[t].render,
        states.last().redraw_pending,
        serve_eff.render,
        !served.redraw_pending,
{
    assert forall|t: int| 0 <= t < effs.len() implies !effs[t].render by {
        assert(stepped(states[t], states[t + 1], events[t], times[t], effs[t]));
    }
    assert(stepped(
        states[events.len() - 1],
        states[events.len() as int],
        events[events.len() - 1],
        times[events.len() - 1],
        effs[events.len() - 1],
    ));
}

/// Law: servicing the redraw source is the only step that renders.
pub proof fn lemma_only_redraw_renders(
    o: LoopState,
    n: LoopState,
    ev: LoopEvent,
    now: u64,
    eff: Effects,
)
    requires
        stepped(o, n, ev, now, eff),
    ensures
        eff.render <==> ev is Redraw,
{
}

/// The four event sources, in descending service priority.
#[derive(Clone, Copy, Debug, PartialEq, Eq, Structural)]
pub enum Source {
    Telemetry,
    Input,
    Redraw,
    Timer,
}

/// Strict priority: telemetry outranks input, input outranks redraw,
/// redraw outranks the timer; a source is consulted only when no
/// higher-priority source is ready.
pub open spec fn spec_pick_source(
    telemetry: bool,
    input: bool,
    redraw: bool,
    timer: bool,
) -> Option<Source> {
    if telemetry {
        Some(Source::Telemetry)
    } else if input {
        Some(Source::Input)
    } else if redraw {
        Some(Source::Redraw)
    } else if timer {
        Some(Source::Timer)
    } else {
        None
    }
}

/// Picks the source to service this iteration from the set of ready
/// sources, in strict descending priority.
pub fn pick_source(telemetry: bool, input: bool, redraw: bool, timer: bool) -> (src: Option<
    Source,
>)
    ensures
        src == spec_pick_source(telemetry, input, redraw, timer),
{
    if telemetry {
        Some(Source::Telemetry)
    } else if input {
        Some(Source::Input)
    } else if redraw {
        Some(Source::Redraw)
    } else if timer {
        Some(Source::Timer)
    } else {
        None
    }
}

} // verus!
