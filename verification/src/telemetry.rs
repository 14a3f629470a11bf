//! Telemetry store: the latest known values for each battery module and
//! the pack-level aggregate, with one partial-update operation per
//! decoded message kind.
//!
//! Electrical quantities are stored as fixed-point integers in
//! thousandths of their unit (millivolts, milliamps, millidegrees,
//! thousandths of a percent); timestamps are milliseconds on the
//! caller's monotonic clock.

use vstd::prelude::*;

use crate::mode::Mode;

verus! {

/// Number of module slots the pack carries.
pub const MODULE_SLOTS: usize = 10;

/// Slots addressed by the module-scoped message kinds; the remaining
/// slots are reserved.
pub const ADDRESSABLE_MODULES: usize = 8;

/// Individually monitored cell-voltage taps per module.
pub const BRICKS_PER_MODULE: usize = 14;

/// Board-supply voltages from the first ADC group, in millivolts.
#[derive(Clone, Copy, Debug, PartialEq, Eq, Structural)]
pub struct AdcVoltages {
    pub pack_mv: i64,
    pub common_drain_mv: i64,
    pub load_mv: i64,
}

/// Logic-rail voltages from the second ADC group, in millivolts.
#[derive(Clone, Copy, Debug, PartialEq, Eq, Structural)]
pub struct AdcRails {
    pub rail_5v_mv: i64,
    pub rail_12v_mv: i64,
    pub rail_3v3_mv: i64,
}

/// A high-voltage status pair: terminal voltage and filtered current.
#[derive(Clone, Copy, Debug, PartialEq, Eq, Structural)]
pub struct HvStatus {
    pub voltage_mv: i64,
    pub current_ma: i64,
}

/// Charge-limit pair: voltage ceiling and continuous current limit.
#[derive(Clone, Copy, Debug, PartialEq, Eq, Structural)]
pub struct ChargeLimit {
    pub voltage_mv: i64,
    pub current_ma: i64,
}

/// State of charge and state of health, in thousandths of a percent.
#[derive(Clone, Copy, Debug, PartialEq, Eq, Structural)]
pub struct StateOfCharge {
    pub soc_mpct: i64,
    pub soh_mpct: i64,
}

/// First temperature group, in millidegrees Celsius.
#[derive(Clone, Copy, Debug, PartialEq, Eq, Structural)]
pub struct TemperaturesA {
    pub ambient_mdeg: i64,
    pub module1_mdeg: i64,
    pub module2_mdeg: i64,
}

/// Second temperature group, in millidegrees Celsius.
#[derive(Clone, Copy, Debug, PartialEq, Eq, Structural)]
pub struct TemperaturesB {
    pub fet_mdeg: i64,
    pub shunt_mdeg: i64,
}

/// Latest known telemetry of one battery module. Fields start
/// zero-valued and become meaningful when the matching message kind
/// arrives; `last_seen` is `None` exactly when the module is considered
/// absent.
#[derive(Clone, Copy, Debug)]
pub struct Module {
    pub serial_number: u64,
    pub adc_voltages: AdcVoltages,
    pub adc_rails: AdcRails,
    pub hv_status: HvStatus,
    pub charge_limit: ChargeLimit,
    pub soc: StateOfCharge,
    pub temperatures_a: TemperaturesA,
    pub temperatures_b: TemperaturesB,
    pub brick_mv: [i64; BRICKS_PER_MODULE],
    pub balancing: [bool; BRICKS_PER_MODULE],
    pub last_seen: Option<u64>,
}

/// The charger's most recent request, replaced wholesale on each
/// charger-control message and timed out independently of the modules.
#[derive(Clone, Copy, Debug, PartialEq, Eq, Structural)]
pub struct ChargeRequest {
    pub voltage_mv: i64,
    pub current_ma: i64,
    pub enable: bool,
    pub last_seen: u64,
}

/// Pack-level diagnostic connect counts.
#[derive(Clone, Copy, Debug, PartialEq, Eq, Structural)]
pub struct DiagnosticConnect {
    pub charge_connected: u16,
    pub drive_connected: u16,
    pub charge_standby: u16,
    pub drive_standby: u16,
}

/// Pack-level high-voltage status.
#[derive(Clone, Copy, Debug, PartialEq, Eq, Structural)]
pub struct PackHvStatus {
    pub voltage_mv: i64,
    pub current_ma: i64,
}

/// Pack-level state of charge, raw and user-facing.
#[derive(Clone, Copy, Debug, PartialEq, Eq, Structural)]
pub struct PackSoc {
    pub soc_mpct: i64,
    pub user_soc_mpct: i64,
}

/// The whole pack: commanded mode, the module slots, the charger's
/// request, and the always-current pack-level aggregates.
#[derive(Clone, Copy, Debug)]
pub struct Pack {
    pub mode: Mode,
    pub modules: [Module; MODULE_SLOTS],
    pub charge_request: Option<ChargeRequest>,
    pub diagnostic_connect: DiagnosticConnect,
    pub pack_hv_status: PackHvStatus,
    pub pack_soc: PackSoc,
}

/// One decoded telemetry message, keyed by message kind. Module-scoped
/// kinds carry the index of the module they address; pack-scoped kinds
/// carry none.
#[derive(Debug)]
pub enum Event {
    DeviceInfo { module: usize, serial_number: u64 },
    AdcVoltages { module: usize, pack_mv: i64, common_drain_mv: i64, load_mv: i64 },
    AdcRails { module: usize, rail_5v_mv: i64, rail_12v_mv: i64, rail_3v3_mv: i64 },
    HvStatus { module: usize, voltage_mv: i64, current_ma: i64 },
    ChargeLimits { module: usize, voltage_mv: i64, current_ma: i64 },
    Soc { module: usize, soc_mpct: i64, soh_mpct: i64 },
    TemperaturesA { module: usize, ambient_mdeg: i64, module1_mdeg: i64, module2_mdeg: i64 },
    TemperaturesB { module: usize, fet_mdeg: i64, shunt_mdeg: i64 },
    BrickVoltages { module: usize, first_brick: usize, brick_mv: Vec<i64> },
    Balancing { module: usize, active: [bool; BRICKS_PER_MODULE] },
    ChargerControl { voltage_mv: i64, current_ma: i64, enable: bool },
    DiagnosticConnect { charge_connected: u16, drive_connected: u16, charge_standby: u16, drive_standby: u16 },
    PackHvStatus { voltage_mv: i64, current_ma: i64 },
    PackSoc { soc_mpct: i64, user_soc_mpct: i64 },
}

impl Event {
    /// Whether the event addresses a single module slot (as opposed to
    /// the pack as a whole).
    pub open spec fn is_module_scoped(self) -> bool {
        match self {
            Event::DeviceInfo { .. } => true,
            Event::AdcVoltages { .. } => true,
            Event::AdcRails { .. } => true,
            Event::HvStatus { .. } => true,
            Event::ChargeLimits { .. } => true,
            Event::Soc { .. } => true,
            Event::TemperaturesA { .. } => true,
            Event::TemperaturesB { .. } => true,
            Event::BrickVoltages { .. } => true,
            Event::Balancing { .. } => true,
            Event::ChargerControl { .. } => false,
            Event::DiagnosticConnect { .. } => false,
            Event::PackHvStatus { .. } => false,
            Event::PackSoc { .. } => false,
        }
    }

    /// Index of the addressed module; meaningful for module-scoped
    /// events only.
    pub open spec fn target(self) -> int {
        match self {
            Event::DeviceInfo { module, .. } => module as int,
            Event::AdcVoltages { module, .. } => module as int,
            Event::AdcRails { module, .. } => module as int,
            Event::HvStatus { module, .. } => module as int,
            Event::ChargeLimits { module, .. } => module as int,
            Event::Soc { module, .. } => module as int,
            Event::TemperaturesA { module, .. } => module as int,
            Event::TemperaturesB { module, .. } => module as int,
            Event::BrickVoltages { module, .. } => module as int,
            Event::Balancing { module, .. } => module as int,
            _ => 0,
        }
    }

    /// A well-formed event addresses an addressable module and, for
    /// brick voltages, a run of taps that exists.
    pub open spec fn wf(self) -> bool {
        &&& self.is_module_scoped() ==> self.target() < ADDRESSABLE_MODULES
        &&& self matches Event::BrickVoltages { first_brick, brick_mv, .. }
            ==> first_brick + brick_mv@.len() <= BRICKS_PER_MODULE
    }

    /// Runtime check of `wf`, for callers outside verified code.
    pub fn check_wf(&self) -> (ok: bool)
        ensures
            ok == self.wf(),
    {
        match self {
            Event::DeviceInfo { module, .. } => *module < ADDRESSABLE_MODULES,
            Event::AdcVoltages { module, .. } => *module < ADDRESSABLE_MODULES,
            Event::AdcRails { module, .. } => *module < ADDRESSABLE_MODULES,
            Event::HvStatus { module, .. } => *module < ADDRESSABLE_MODULES,
            Event::ChargeLimits { module, .. } => *module < ADDRESSABLE_MODULES,
            Event::Soc { module, .. } => *module < ADDRESSABLE_MODULES,
            Event::TemperaturesA { module, .. } => *module < ADDRESSABLE_MODULES,
            Event::TemperaturesB { module, .. } => *module < ADDRESSABLE_MODULES,
            Event::BrickVoltages { module, first_brick, brick_mv } => {
                *module < ADDRESSABLE_MODULES
                    && *first_brick <= BRICKS_PER_MODULE
                    && brick_mv.len() <= BRICKS_PER_MODULE - *first_brick
            },
            Event::Balancing { module, .. } => *module < ADDRESSABLE_MODULES,
            _ => true,
        }
    }
}

/// The telemetry fields of `n` other than `group` equal those of `o`;
/// one clause per field group, so each message kind can state exactly
/// which groups it leaves untouched.
pub open spec fn same_serial(o: Module, n: Module) -> bool {
    n.serial_number == o.serial_number
}

pub open spec fn same_adc_voltages(o: Module, n: Module) -> bool {
    n.adc_voltages == o.adc_voltages
}

pub open spec fn same_adc_rails(o: Module, n: Module) -> bool {
    n.adc_rails == o.adc_rails
}

pub open spec fn same_hv_status(o: Module, n: Module) -> bool {
    n.hv_status == o.hv_status
}

pub open spec fn same_charge_limit(o: Module, n: Module) -> bool {
    n.charge_limit == o.charge_limit
}

pub open spec fn same_soc(o: Module, n: Module) -> bool {
    n.soc == o.soc
}

pub open spec fn same_temperatures_a(o: Module, n: Module) -> bool {
    n.temperatures_a == o.temperatures_a
}

pub open spec fn same_temperatures_b(o: Module, n: Module) -> bool {
    n.temperatures_b == o.temperatures_b
}

pub open spec fn same_bricks(o: Module, n: Module) -> bool {
    n.brick_mv@ == o.brick_mv@
}

pub open spec fn same_balancing(o: Module, n: Module) -> bool {
    n.balancing@ == o.balancing@
}

/// All telemetry fields of `n` equal those of `o` (`last_seen` not
/// included).
pub open spec fn same_telemetry(o: Module, n: Module) -> bool {
    &&& same_serial(o, n)
    &&& same_adc_voltages(o, n)
    &&& same_adc_rails(o, n)
    &&& same_hv_status(o, n)
    &&& same_charge_limit(o, n)
    &&& same_soc(o, n)
    &&& same_temperatures_a(o, n)
    &&& same_temperatures_b(o, n)
    &&& same_bricks(o, n)
    &&& same_balancing(o, n)
}

/// Module `n` is module `o` after applying module-scoped event `ev` at
/// time `now`: exactly the fields the message kind carries change, and
/// the module is stamped as seen now.
pub open spec fn module_updated(o: Module, n: Module, ev: Event, now: u64) -> bool {
    &&& n.last_seen == Some(now)
    &&& match ev {
        Event::DeviceInfo { serial_number, .. } => {
            &&& n.serial_number == serial_number
            &&& same_adc_voltages(o, n)
            &&& same_adc_rails(o, n)
            &&& same_hv_status(o, n)
            &&& same_charge_limit(o, n)
            &&& same_soc(o, n)
            &&& same_temperatures_a(o, n)
            &&& same_temperatures_b(o, n)
            &&& same_bricks(o, n)
            &&& same_balancing(o, n)
        },
        Event::AdcVoltages { pack_mv, common_drain_mv, load_mv, .. } => {
            &&& n.adc_voltages == (AdcVoltages { pack_mv, common_drain_mv, load_mv })
            &&& same_serial(o, n)
            &&& same_adc_rails(o, n)
            &&& same_hv_status(o, n)
            &&& same_charge_limit(o, n)
            &&& same_soc(o, n)
            &&& same_temperatures_a(o, n)
            &&& same_temperatures_b(o, n)
            &&& same_bricks(o, n)
            &&& same_balancing(o, n)
        },
        Event::AdcRails { rail_5v_mv, rail_12v_mv, rail_3v3_mv, .. } => {
            &&& n.adc_rails == (AdcRails { rail_5v_mv, rail_12v_mv, rail_3v3_mv })
            &&& same_serial(o, n)
            &&& same_adc_voltages(o, n)
            &&& same_hv_status(o, n)
            &&& same_charge_limit(o, n)
            &&& same_soc(o, n)
            &&& same_temperatures_a(o, n)
            &&& same_temperatures_b(o, n)
            &&& same_bricks(o, n)
            &&& same_balancing(o, n)
        },
        Event::HvStatus { voltage_mv, current_ma, .. } => {
            &&& n.hv_status == (HvStatus { voltage_mv, current_ma })
            &&& same_serial(o, n)
            &&& same_adc_voltages(o, n)
            &&& same_adc_rails(o, n)
            &&& same_charge_limit(o, n)
            &&& same_soc(o, n)
            &&& same_temperatures_a(o, n)
            &&& same_temperatures_b(o, n)
            &&& same_bricks(o, n)
            &&& same_balancing(o, n)
        },
        Event::ChargeLimits { voltage_mv, current_ma, .. } => {
            &&& n.charge_limit == (ChargeLimit { voltage_mv, current_ma })
            &&& same_serial(o, n)
            &&& same_adc_voltages(o, n)
            &&& same_adc_rails(o, n)
            &&& same_hv_status(o, n)
            &&& same_soc(o, n)
            &&& same_temperatures_a(o, n)
            &&& same_temperatures_b(o, n)
            &&& same_bricks(o, n)
            &&& same_balancing(o, n)
        },
        Event::Soc { soc_mpct, soh_mpct, .. } => {
            &&& n.soc == (StateOfCharge { soc_mpct, soh_mpct })
            &&& same_serial(o, n)
            &&& same_adc_voltages(o, n)
            &&& same_adc_rails(o, n)
            &&& same_hv_status(o, n)
            &&& same_charge_limit(o, n)
            &&& same_temperatures_a(o, n)
            &&& same_temperatures_b(o, n)
            &&& same_bricks(o, n)
            &&& same_balancing(o, n)
        },
        Event::TemperaturesA { ambient_mdeg, module1_mdeg, module2_mdeg, .. } => {
            &&& n.temperatures_a == (TemperaturesA { ambient_mdeg, module1_mdeg, module2_mdeg })
            &&& same_serial(o, n)
            &&& same_adc_voltages(o, n)
            &&& same_adc_rails(o, n)
            &&& same_hv_status(o, n)
            &&& same_charge_limit(o, n)
            &&& same_soc(o, n)
            &&& same_temperatures_b(o, n)
            &&& same_bricks(o, n)
            &&& same_balancing(o, n)
        },
        Event::TemperaturesB { fet_mdeg, shunt_mdeg, .. } => {
            &&& n.temperatures_b == (TemperaturesB { fet_mdeg, shunt_mdeg })
            &&& same_serial(o, n)
            &&& same_adc_voltages(o, n)
            &&& same_adc_rails(o, n)
            &&& same_hv_status(o, n)
            &&& same_charge_limit(o, n)
            &&& same_soc(o, n)
            &&& same_temperatures_a(o, n)
            &&& same_bricks(o, n)
            &&& same_balancing(o, n)
        },
        Event::BrickVoltages { first_brick, brick_mv, .. } => {
            &&& forall|k: int| 0 <= k < BRICKS_PER_MODULE ==> n.brick_mv@[k] == (
                if first_brick <= k < first_brick + brick_mv@.len() {
                    brick_mv@[k - first_brick]
                } else {
                    o.brick_mv@[k]
                })
            &&& same_serial(o, n)
            &&& same_adc_voltages(o, n)
            &&& same_adc_rails(o, n)
            &&& same_hv_status(o, n)
            &&& same_charge_limit(o, n)
            &&& same_soc(o, n)
            &&& same_temperatures_a(o, n)
            &&& same_temperatures_b(o, n)
            &&& same_balancing(o, n)
        },
        Event::Balancing { active, .. } => {
            &&& n.balancing@ == active@
            &&& same_serial(o, n)
            &&& same_adc_voltages(o, n)
            &&& same_adc_rails(o, n)
            &&& same_hv_status(o, n)
            &&& same_charge_limit(o, n)
            &&& same_soc(o, n)
            &&& same_temperatures_a(o, n)
            &&& same_temperatures_b(o, n)
            &&& same_bricks(o, n)
        },
        _ => false,
    }
}

/// Pack fields of `n` other than the module slots equal those of `o`.
pub open spec fn same_pack_level(o: Pack, n: Pack) -> bool {
    &&& n.mode == o.mode
    &&& n.charge_request == o.charge_request
    &&& n.diagnostic_connect == o.diagnostic_connect
    &&& n.pack_hv_status == o.pack_hv_status
    &&& n.pack_soc == o.pack_soc
}

/// Pack `n` is pack `o` after storing decoded event `ev` received at
/// time `now`. A module-scoped event rewrites exactly its target slot;
/// a pack-scoped event rewrites exactly its pack-level group and never
/// stamps liveness (pack-level data is always considered current),
/// except the charger-control kind, which replaces `charge_request`
/// wholesale together with its own timestamp.
pub open spec fn store_updated(o: Pack, n: Pack, ev: Event, now: u64) -> bool {
    if ev.is_module_scoped() {
        &&& same_pack_level(o, n)
        &&& forall|j: int| 0 <= j < MODULE_SLOTS && j != ev.target()
            ==> n.modules@[j] == o.modules@[j]
        &&& module_updated(o.modules@[ev.target()], n.modules@[ev.target()], ev, now)
    } else {
        &&& n.modules@ == o.modules@
        &&& n.mode == o.mode
        &&& match ev {
            Event::ChargerControl { voltage_mv, current_ma, enable } => {
                &&& n.charge_request == Some(
                    ChargeRequest { voltage_mv, current_ma, enable, last_seen: now },
                )
                &&& n.diagnostic_connect == o.diagnostic_connect
                &&& n.pack_hv_status == o.pack_hv_status
                &&& n.pack_soc == o.pack_soc
            },
            Event::DiagnosticConnect {
                charge_connected,
                drive_connected,
                charge_standby,
                drive_standby,
            } => {
                &&& n.diagnostic_connect == (DiagnosticConnect {
                    charge_connected,
                    drive_connected,
                    charge_standby,
                    drive_standby,
                })
                &&& n.charge_request == o.charge_request
                &&& n.pack_hv_status == o.pack_hv_status
                &&& n.pack_soc == o.pack_soc
            },
            Event::PackHvStatus { voltage_mv, current_ma } => {
                &&& n.pack_hv_status == (PackHvStatus { voltage_mv, current_ma })
                &&& n.charge_request == o.charge_request
                &&& n.diagnostic_connect == o.diagnostic_connect
                &&& n.pack_soc == o.pack_soc
            },
            Event::PackSoc { soc_mpct, user_soc_mpct } => {
                &&& n.pack_soc == (PackSoc { soc_mpct, user_soc_mpct })
                &&& n.charge_request == o.charge_request
                &&& n.diagnostic_connect == o.diagnostic_connect
                &&& n.pack_hv_status == o.pack_hv_status
            },
            _ => false,
        }
    }
}

/// Stores one decoded event: writes the fields the message kind
/// carries into its target, leaves every other field of the pack
/// untouched, and stamps the target module's `last_seen` (module-scoped
/// kinds) or the charge request's (charger control).
pub fn apply_event(pack: &mut Pack, ev: &Event, now: u64)
    requires
        ev.wf(),
    ensures
        store_updated(*old(pack), *final(pack), *ev, now),
{
    match ev {
        Event::DeviceInfo { module, serial_number } => {
            let i = *module;
            let mut m = pack.modules[i];
            m.serial_number = *serial_number;
            m.last_seen = Some(now);
            pack.modules[i] = m;
        },
        Event::AdcVoltages { module, pack_mv, common_drain_mv, load_mv } => {
            let i = *module;
            let mut m = pack.modules[i];
            m.adc_voltages = AdcVoltages {
                pack_mv: *pack_mv,
                common_drain_mv: *common_drain_mv,
                load_mv: *load_mv,
            };
            m.last_seen = Some(now);
            pack.modules[i] = m;
        },
        Event::AdcRails { module, rail_5v_mv, rail_12v_mv, rail_3v3_mv } => {
            let i = *module;
            let mut m = pack.modules[i];
            m.adc_rails = AdcRails {
                rail_5v_mv: *rail_5v_mv,
                rail_12v_mv: *rail_12v_mv,
                rail_3v3_mv: *rail_3v3_mv,
            };
            m.last_seen = Some(now);
            pack.modules[i] = m;
        },
        Event::HvStatus { module, voltage_mv, current_ma } => {
            let i = *module;
            let mut m = pack.modules[i];
            m.hv_status = HvStatus { voltage_mv: *voltage_mv, current_ma: *current_ma };
            m.last_seen = Some(now);
            pack.modules[i] = m;
        },
        Event::ChargeLimits { module, voltage_mv, current_ma } => {
            let i = *module;
            let mut m = pack.modules[i];
            m.charge_limit = ChargeLimit { voltage_mv: *voltage_mv, current_ma: *current_ma };
            m.last_seen = Some(now);
            pack.modules[i] = m;
        },
        Event::Soc { module, soc_mpct, soh_mpct } => {
            let i = *module;
            let mut m = pack.modules[i];
            m.soc = StateOfCharge { soc_mpct: *soc_mpct, soh_mpct: *soh_mpct };
            m.last_seen = Some(now);
            pack.modules[i] = m;
        },
        Event::TemperaturesA { module, ambient_mdeg, module1_mdeg, module2_mdeg } => {
            let i = *module;
            let mut m = pack.modules[i];
            m.temperatures_a = TemperaturesA {
                ambient_mdeg: *ambient_mdeg,
                module1_mdeg: *module1_mdeg,
                module2_mdeg: *module2_mdeg,
            };
            m.last_seen = Some(now);
            pack.modules[i] = m;
        },
        Event::TemperaturesB { module, fet_mdeg, shunt_mdeg } => {
            let i = *module;
            let mut m = pack.modules[i];
            m.temperatures_b = TemperaturesB { fet_mdeg: *fet_mdeg, shunt_mdeg: *shunt_mdeg };
            m.last_seen = Some(now);
            pack.modules[i] = m;
        },
        Event::BrickVoltages { module, first_brick, brick_mv } => {
            let i = *module;
            let mut m = pack.modules[i];
            let ghost m0 = m;
            let first = *first_brick;
            let mut k: usize = 0;
            while k < brick_mv.len()
                invariant
                    k <= brick_mv@.len(),
                    first + brick_mv@.len() <= BRICKS_PER_MODULE,
                    same_serial(m0, m),
                    same_adc_voltages(m0, m),
                    same_adc_rails(m0, m),
                    same_hv_status(m0, m),
                    same_charge_limit(m0, m),
                    same_soc(m0, m),
                    same_temperatures_a(m0, m),
                    same_temperatures_b(m0, m),
                    same_balancing(m0, m),
                    m.last_seen == m0.last_seen,
                    forall|t: int| 0 <= t < BRICKS_PER_MODULE ==> m.brick_mv@[t] == (
                        if first <= t < first + k {
                            brick_mv@[t - first]
                        } else {
                            m0.brick_mv@[t]
                        }),
                decreases brick_mv@.len() - k,
            {
                m.brick_mv[first + k] = brick_mv[k];
                k = k + 1;
            }
            m.last_seen = Some(now);
            pack.modules[i] = m;
        },
        Event::Balancing { module, active } => {
            let i = *module;
            let mut m = pack.modules[i];
            m.balancing = *active;
            m.last_seen = Some(now);
            pack.modules[i] = m;
        },
        Event::ChargerControl { voltage_mv, current_ma, enable } => {
            pack.charge_request = Some(
                ChargeRequest {
                    voltage_mv: *voltage_mv,
                    current_ma: *current_ma,
                    enable: *enable,
                    last_seen: now,
                },
            );
        },
        Event::DiagnosticConnect {
            charge_connected,
            drive_connected,
            charge_standby,
            drive_standby,
        } => {
            pack.diagnostic_connect = DiagnosticConnect {
                charge_connected: *charge_connected,
                drive_connected: *drive_connected,
                charge_standby: *charge_standby,
                drive_standby: *drive_standby,
            };
        },
        Event::PackHvStatus { voltage_mv, current_ma } => {
            pack.pack_hv_status = PackHvStatus {
                voltage_mv: *voltage_mv,
                current_ma: *current_ma,
            };
        },
        Event::PackSoc { soc_mpct, user_soc_mpct } => {
            pack.pack_soc = PackSoc { soc_mpct: *soc_mpct, user_soc_mpct: *user_soc_mpct };
        },
    }
}

/// Law: storing a module-scoped event changes exactly the fields its
/// message kind carries. The target module's `last_seen` becomes the
/// event's time, the carried field groups take the event's values,
/// every field group the kind does not carry keeps its value, and
/// every other module and all pack-level state are untouched.
pub proof fn lemma_partial_update(o: Pack, n: Pack, ev: Event, now: u64)
    requires
        ev.wf(),
        ev.is_module_scoped(),
        store_updated(o, n, ev, now),
    ensures
        n.modules@[ev.target()].last_seen == Some(now),
        crate::liveness::module_live(n.modules@[ev.target()], now),
        forall|j: int| 0 <= j < MODULE_SLOTS && j != ev.target() ==> n.modules@[j]
            == o.modules@[j],
        same_pack_level(o, n),
        !(ev matches Event::DeviceInfo { .. }) ==> same_serial(
            o.modules@[ev.target()],
            n.modules@[ev.target()],
        ),
        !(ev matches Event::AdcVoltages { .. }) ==> same_adc_voltages(
            o.modules@[ev.target()],
            n.modules@[ev.target()],
        ),
        !(ev matches Event::AdcRails { .. }) ==> same_adc_rails(
            o.modules@[ev.target()],
            n.modules@[ev.target()],
        ),
        !(ev matches Event::HvStatus { .. }) ==> same_hv_status(
            o.modules@[ev.target()],
            n.modules@[ev.target()],
        ),
        !(ev matches Event::ChargeLimits { .. }) ==> same_charge_limit(
            o.modules@[ev.target()],
            n.modules@[ev.target()],
        ),
        !(ev matches Event::Soc { .. }) ==> same_soc(
            o.modules@[ev.target()],
            n.modules@[ev.target()],
        ),
        !(ev matches Event::TemperaturesA { .. }) ==> same_temperatures_a(
            o.modules@[ev.target()],
            n.modules@[ev.target()],
        ),
        !(ev matches Event::TemperaturesB { .. }) ==> same_temperatures_b(
            o.modules@[ev.target()],
            n.modules@[ev.target()],
        ),
        !(ev matches Event::BrickVoltages { .. }) ==> same_bricks(
            o.modules@[ev.target()],
            n.modules@[ev.target()],
        ),
        !(ev matches Event::Balancing { .. }) ==> same_balancing(
            o.modules@[ev.target()],
            n.modules@[ev.target()],
        ),
        ev matches Event::BrickVoltages { first_brick, brick_mv, .. } ==> forall|k: int|
            0 <= k < BRICKS_PER_MODULE && !(first_brick <= k < first_brick + brick_mv@.len())
                ==> n.modules@[ev.target()].brick_mv@[k] == o.modules@[ev.target()].brick_mv@[k],
{
}

} // verus!
