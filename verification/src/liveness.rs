//! Liveness tracker: one sweep per timer tick clears entities that
//! have been silent for longer than the liveness window.

use vstd::prelude::*;

use crate::telemetry::{ChargeRequest, Module, Pack, MODULE_SLOTS};

verus! {

/// Maximum silence, in milliseconds, before an entity is considered
/// absent.
pub const LIVENESS_WINDOW_MS: u64 = 2000;

/// An entity last refreshed at `last_seen` is still live at `now` when
/// less than the liveness window has passed. A `last_seen` in the
/// future (impossible on a monotonic clock) counts as live.
pub open spec fn spec_is_live(last_seen: u64, now: u64) -> bool {
    now - last_seen < LIVENESS_WINDOW_MS
}

/// Runtime form of `spec_is_live`.
pub fn is_live(last_seen: u64, now: u64) -> (live: bool)
    ensures
        live == spec_is_live(last_seen, now),
{
    now < last_seen || now - last_seen < LIVENESS_WINDOW_MS
}

/// The module still carries a timestamp that is within the window.
pub open spec fn module_live(m: Module, now: u64) -> bool {
    m.last_seen matches Some(t) && spec_is_live(t, now)
}

/// The module carries a timestamp that has fallen out of the window,
/// so a sweep at `now` would clear it.
pub open spec fn module_expires(m: Module, now: u64) -> bool {
    m.last_seen matches Some(t) && !spec_is_live(t, now)
}

/// The charge request exists and is within its window.
pub open spec fn charge_request_live(cr: Option<ChargeRequest>, now: u64) -> bool {
    cr matches Some(c) && spec_is_live(c.last_seen, now)
}

/// The charge request exists but has fallen out of its window.
pub open spec fn charge_request_expires(cr: Option<ChargeRequest>, now: u64) -> bool {
    cr matches Some(c) && !spec_is_live(c.last_seen, now)
}

/// Module `n` is module `o` after a sweep at `now`: a live module is
/// untouched, an expired one loses only its `last_seen`, an absent one
/// is untouched — the present-to-absent transition happens exactly
/// once.
pub open spec fn module_swept(o: Module, n: Module, now: u64) -> bool {
    if module_expires(o, now) {
        &&& crate::telemetry::same_telemetry(o, n)
        &&& n.last_seen is None
    } else {
        n == o
    }
}

/// Some entity still carries a timestamp within its window, so the
/// periodic timer must stay armed to time it out later.
pub open spec fn sweep_stay_awake(p: Pack, now: u64) -> bool {
    ||| exists|i: int| 0 <= i < MODULE_SLOTS && module_live(p.modules@[i], now)
    ||| charge_request_live(p.charge_request, now)
}

/// Some entity transitions present-to-absent in a sweep at `now`, so
/// the screen must be redrawn.
pub open spec fn sweep_requests_redraw(p: Pack, now: u64) -> bool {
    ||| exists|i: int| 0 <= i < MODULE_SLOTS && module_expires(p.modules@[i], now)
    ||| charge_request_expires(p.charge_request, now)
}

/// Pack `n` is pack `o` after a sweep at `now`: every module slot is
/// swept, the charge request is cleared exactly when expired, and
/// nothing else changes.
pub open spec fn pack_swept(o: Pack, n: Pack, now: u64) -> bool {
    &&& n.mode == o.mode
    &&& n.diagnostic_connect == o.diagnostic_connect
    &&& n.pack_hv_status == o.pack_hv_status
    &&& n.pack_soc == o.pack_soc
    &&& forall|i: int| 0 <= i < MODULE_SLOTS ==> module_swept(o.modules@[i], n.modules@[i], now)
    &&& n.charge_request == (if charge_request_expires(o.charge_request, now) {
        None
    } else {
        o.charge_request
    })
}

/// What a sweep found: whether any entity still needs a future tick,
/// and whether any transition to absent asks for a redraw.
#[derive(Clone, Copy, Debug, PartialEq, Eq, Structural)]
pub struct SweepOutcome {
    pub stay_awake: bool,
    pub redraw: bool,
}

/// Sweeps the pack at `now`: clears `last_seen` of every module silent
/// for the whole window, clears an expired charge request, and reports
/// whether anything is still being tracked and whether a redraw is due.
pub fn sweep(pack: &mut Pack, now: u64) -> (out: SweepOutcome)
    ensures
        pack_swept(*old(pack), *final(pack), now),
        out.stay_awake == sweep_stay_awake(*old(pack), now),
        out.redraw == sweep_requests_redraw(*old(pack), now),
{
    let ghost p0 = *pack;
    let mut stay_awake = false;
    let mut redraw = false;
    let mut i: usize = 0;
    while i < MODULE_SLOTS
        invariant
            i <= MODULE_SLOTS,
            pack.mode == p0.mode,
            pack.charge_request == p0.charge_request,
            pack.diagnostic_connect == p0.diagnostic_connect,
            pack.pack_hv_status == p0.pack_hv_status,
            pack.pack_soc == p0.pack_soc,
            pack.modules@.len() == MODULE_SLOTS,
            p0.modules@.len() == MODULE_SLOTS,
            forall|j: int| 0 <= j < i ==> module_swept(p0.modules@[j], pack.modules@[j], now),
            forall|j: int| i <= j < MODULE_SLOTS ==> pack.modules@[j] == p0.modules@[j],
            stay_awake == exists|j: int| 0 <= j < i && module_live(p0.modules@[j], now),
            redraw == exists|j: int| 0 <= j < i && module_expires(p0.modules@[j], now),
        decreases MODULE_SLOTS - i,
    {
        let mut m = pack.modules[i];
        match m.last_seen {
            Some(t) => {
                if is_live(t, now) {
                    stay_awake = true;
                    assert(module_live(p0.modules@[i as int], now));
                } else {
                    m.last_seen = None;
                    pack.modules[i] = m;
                    redraw = true;
                    assert(module_expires(p0.modules@[i as int], now));
                }
            },
            None => {},
        }
        i = i + 1;
    }
    match pack.charge_request {
        Some(cr) => {
            if is_live(cr.last_seen, now) {
                stay_awake = true;
            } else {
                pack.charge_request = None;
                redraw = true;
            }
        },
        None => {},
    }
    SweepOutcome { stay_awake, redraw }
}

/// Law: absence is idempotent at the module level — an absent module
/// is a fixed point of the sweep, never keeps the timer armed, and
/// never asks for a redraw again.
pub proof fn lemma_absent_module_is_fixed(m: Module, now: u64)
    requires
        m.last_seen is None,
    ensures
        module_swept(m, m, now),
        !module_live(m, now),
        !module_expires(m, now),
{
}

/// Law: once a sweep finds nothing left to track, the pack is
/// quiescent — every later sweep changes nothing, asks for no redraw,
/// and leaves the timer disarmed.
pub proof fn lemma_sweep_quiescent(o: Pack, n: Pack, t1: u64, n2: Pack, t2: u64)
    requires
        pack_swept(o, n, t1),
        !sweep_stay_awake(o, t1),
        pack_swept(n, n2, t2),
    ensures
        forall|i: int| 0 <= i < MODULE_SLOTS ==> n.modules@[i].last_seen is None,
        !sweep_stay_awake(n, t2),
        !sweep_requests_redraw(n, t2),
        forall|i: int| 0 <= i < MODULE_SLOTS ==> n2.modules@[i] == n.modules@[i],
        n2.charge_request == n.charge_request,
        n2.mode == n.mode,
{
    assert forall|i: int| 0 <= i < MODULE_SLOTS implies n.modules@[i].last_seen is None by {
        assert(!module_live(o.modules@[i], t1));
        assert(module_swept(o.modules@[i], n.modules@[i], t1));
    }
    assert forall|i: int| 0 <= i < MODULE_SLOTS implies n2.modules@[i] == n.modules@[i] by {
        assert(module_swept(n.modules@[i], n2.modules@[i], t2));
    }
}

/// Law: the liveness boundary sits at the window's edge — with the
/// last update at `t0`, a sweep 1999 ms later leaves the module
/// exactly as it was, and a sweep 2001 ms later clears its `last_seen`
/// (and nothing else) and counts as a present-to-absent transition.
pub proof fn lemma_liveness_boundary(m: Module, n_early: Module, n_late: Module, t0: u64)
    requires
        m.last_seen == Some(t0),
        t0 + 2001 <= u64::MAX,
        module_swept(m, n_early, (t0 + 1999) as u64),
        module_swept(m, n_late, (t0 + 2001) as u64),
    ensures
        module_live(m, (t0 + 1999) as u64),
        n_early == m,
        module_expires(m, (t0 + 2001) as u64),
        n_late.last_seen is None,
        crate::telemetry::same_telemetry(m, n_late),
{
}

} // verus!
