//! Power daemon data model: the closed set of performance profiles, the
//! governor / energy-preference / turbo values each carries, profile name
//! parsing, and the ordered write plan over the per-CPU control files.

use vstd::prelude::*;
use vstd::string::StringSliceAdditionalSpecFns;
use crate::errors::CpuError;
use crate::text::spec_eq_ignore_case;
use crate::text::eq_ignore_case;

verus! {

/// The closed set of performance profiles.
#[derive(Clone, Copy, Debug, PartialEq, Eq, Structural)]
pub enum PerformanceProfile {
    Silent,
    Balanced,
    WarSpeed,
}

/// A CPU frequency-scaling governor value.
#[derive(Clone, Copy, Debug, PartialEq, Eq, Structural)]
pub enum GovValue {
    Powersave,
    Performance,
}

/// An energy-performance-preference value.
#[derive(Clone, Copy, Debug, PartialEq, Eq, Structural)]
pub enum EppValue {
    Power,
    BalancePerformance,
    Performance,
}

pub open spec fn spec_gov_name(v: GovValue) -> Seq<char> {
    match v {
        GovValue::Powersave => "powersave"@,
        GovValue::Performance => "performance"@,
    }
}

pub open spec fn spec_epp_name(v: EppValue) -> Seq<char> {
    match v {
        EppValue::Power => "power"@,
        EppValue::BalancePerformance => "balance_performance"@,
        EppValue::Performance => "performance"@,
    }
}

/// The exact string written to a governor control file.
pub fn gov_name(v: GovValue) -> (r: &'static str)
    ensures
        r@ == spec_gov_name(v),
{
    match v {
        GovValue::Powersave => "powersave",
        GovValue::Performance => "performance",
    }
}

/// The exact string written to an energy-preference control file.
pub fn epp_name(v: EppValue) -> (r: &'static str)
    ensures
        r@ == spec_epp_name(v),
{
    match v {
        EppValue::Power => "power",
        EppValue::BalancePerformance => "balance_performance",
        EppValue::Performance => "performance",
    }
}

impl PerformanceProfile {
    pub open spec fn spec_governor(self) -> GovValue {
        match self {
            PerformanceProfile::Silent => GovValue::Powersave,
            PerformanceProfile::Balanced => GovValue::Powersave,
            PerformanceProfile::WarSpeed => GovValue::Performance,
        }
    }

    pub open spec fn spec_epp(self) -> EppValue {
        match self {
            PerformanceProfile::Silent => EppValue::Power,
            PerformanceProfile::Balanced => EppValue::BalancePerformance,
            PerformanceProfile::WarSpeed => EppValue::Performance,
        }
    }

    pub open spec fn spec_turbo_enabled(self) -> bool {
        match self {
            PerformanceProfile::Silent => false,
            PerformanceProfile::Balanced => true,
            PerformanceProfile::WarSpeed => true,
        }
    }

    /// The governor name this profile sets on every CPU.
    pub fn governor(&self) -> (r: &str)
        ensures
            r@ == spec_gov_name(self.spec_governor()),
    {
        gov_name(self.governor_value())
    }

    /// The energy-preference name this profile sets on every CPU.
    pub fn epp(&self) -> (r: &str)
        ensures
            r@ == spec_epp_name(self.spec_epp()),
    {
        epp_name(self.epp_value())
    }

    /// Whether this profile leaves turbo boost enabled.
    pub fn turbo_enabled(&self) -> (r: bool)
        ensures
            r == self.spec_turbo_enabled(),
    {
        match self {
            PerformanceProfile::Silent => false,
            PerformanceProfile::Balanced => true,
            PerformanceProfile::WarSpeed => true,
        }
    }

    pub fn governor_value(&self) -> (r: GovValue)
        ensures
            r == self.spec_governor(),
    {
        match self {
            PerformanceProfile::Silent => GovValue::Powersave,
            PerformanceProfile::Balanced => GovValue::Powersave,
            PerformanceProfile::WarSpeed => GovValue::Performance,
        }
    }

    pub fn epp_value(&self) -> (r: EppValue)
        ensures
            r == self.spec_epp(),
    {
        match self {
            PerformanceProfile::Silent => EppValue::Power,
            PerformanceProfile::Balanced => EppValue::BalancePerformance,
            PerformanceProfile::WarSpeed => EppValue::Performance,
        }
    }

    pub open spec fn spec_name(self) -> Seq<char> {
        match self {
            PerformanceProfile::Silent => "Silent"@,
            PerformanceProfile::Balanced => "Balanced"@,
            PerformanceProfile::WarSpeed => "WarSpeed"@,
        }
    }

    /// Canonical profile name, as reported to callers.
    pub fn name(&self) -> (r: String)
        ensures
            r@ == self.spec_name(),
    {
        match self {
            PerformanceProfile::Silent => "Silent".to_owned(),
            PerformanceProfile::Balanced => "Balanced".to_owned(),
            PerformanceProfile::WarSpeed => "WarSpeed".to_owned(),
        }
    }
}

/// Case-insensitive profile lookup, aliases included.
pub open spec fn spec_parse_performance_profile(s: Seq<u8>) -> Option<PerformanceProfile> {
    if spec_eq_ignore_case(s, "silent".spec_bytes()) {
        Some(PerformanceProfile::Silent)
    } else if spec_eq_ignore_case(s, "balanced".spec_bytes()) {
        Some(PerformanceProfile::Balanced)
    } else if spec_eq_ignore_case(s, "warspeed".spec_bytes()) || spec_eq_ignore_case(
        s,
        "war_speed".spec_bytes(),
    ) {
        Some(PerformanceProfile::WarSpeed)
    } else {
        None
    }
}

/// Resolves a caller-supplied profile name, case-insensitively and with the
/// documented alias for WarSpeed.
pub fn parse_performance_profile(name: &str) -> (r: Option<PerformanceProfile>)
    ensures
        r == spec_parse_performance_profile(name.spec_bytes()),
{
    let b = name.as_bytes();
    if eq_ignore_case(b, "silent".as_bytes()) {
        Some(PerformanceProfile::Silent)
    } else if eq_ignore_case(b, "balanced".as_bytes()) {
        Some(PerformanceProfile::Balanced)
    } else if eq_ignore_case(b, "warspeed".as_bytes()) || eq_ignore_case(
        b,
        "war_speed".as_bytes(),
    ) {
        Some(PerformanceProfile::WarSpeed)
    } else {
        None
    }
}

/// One write against the CPU control files: a governor or energy-preference
/// write to one CPU's file, or the single turbo toggle.
#[derive(Clone, Copy, Debug, PartialEq, Eq, Structural)]
#[allow(inconsistent_fields)]
pub enum CpuOp {
    Governor { cpu: usize, value: GovValue },
    Epp { cpu: usize, value: EppValue },
    Turbo { enabled: bool },
}

/// Governor writes of a profile: one per matched CPU file, in file order.
pub open spec fn spec_gov_ops(p: PerformanceProfile, n: nat) -> Seq<CpuOp> {
    Seq::new(n, |i: int| CpuOp::Governor { cpu: i as usize, value: p.spec_governor() })
}

/// Energy-preference writes of a profile: one per matched CPU file.
pub open spec fn spec_epp_ops(p: PerformanceProfile, n: nat) -> Seq<CpuOp> {
    Seq::new(n, |i: int| CpuOp::Epp { cpu: i as usize, value: p.spec_epp() })
}

/// The full ordered plan of a profile over the matched control files:
/// governor on every CPU first (energy-preference values are only
/// meaningful under the right governor), then energy-preference on every
/// CPU, then the turbo toggle last.
pub open spec fn spec_power_plan(p: PerformanceProfile, n_gov: nat, n_epp: nat) -> Seq<CpuOp> {
    spec_gov_ops(p, n_gov) + spec_epp_ops(p, n_epp) + seq![
        CpuOp::Turbo { enabled: p.spec_turbo_enabled() },
    ]
}

/// Builds the write plan of a profile over `n_gov` governor files and
/// `n_epp` energy-preference files, for the binary to replay against the
/// real sysfs paths. A plan needs at least one governor file; none at all
/// is a hard failure before any write.
pub fn power_plan(p: PerformanceProfile, n_gov: usize, n_epp: usize) -> (r: Result<
    Vec<CpuOp>,
    CpuError,
>)
    ensures
        n_gov == 0 ==> r == Err::<Vec<CpuOp>, CpuError>(CpuError::NoGovernorPaths),
        n_gov > 0 ==> (r matches Ok(plan) && plan@ == spec_power_plan(p, n_gov as nat, n_epp as nat)),
{
    if n_gov == 0 {
        return Err(CpuError::NoGovernorPaths);
    }
    let mut plan: Vec<CpuOp> = Vec::new();
    let gov = p.governor_value();
    let mut i: usize = 0;
    while i < n_gov
        invariant
            i <= n_gov,
            gov == p.spec_governor(),
            plan@ =~= spec_gov_ops(p, i as nat),
        decreases n_gov - i,
    {
        plan.push(CpuOp::Governor { cpu: i, value: gov });
        assert(plan@ =~= spec_gov_ops(p, (i + 1) as nat));
        i += 1;
    }
    let epp = p.epp_value();
    let mut j: usize = 0;
    while j < n_epp
        invariant
            j <= n_epp,
            epp == p.spec_epp(),
            plan@ =~= spec_gov_ops(p, n_gov as nat) + spec_epp_ops(p, j as nat),
        decreases n_epp - j,
    {
        plan.push(CpuOp::Epp { cpu: j, value: epp });
        assert(plan@ =~= spec_gov_ops(p, n_gov as nat) + spec_epp_ops(p, (j + 1) as nat));
        j += 1;
    }
    plan.push(CpuOp::Turbo { enabled: p.turbo_enabled() });
    assert(plan@ =~= spec_power_plan(p, n_gov as nat, n_epp as nat));
    Ok(plan)
}

/// Ordering law of the power plans: every governor write comes before every
/// energy-preference write, which come before the turbo write; the governor
/// writes cover exactly CPUs 0 to n_gov - 1 in order, the energy-preference
/// writes exactly CPUs 0 to n_epp - 1, and the turbo write is last.
pub proof fn lemma_power_plan_order(p: PerformanceProfile, n_gov: nat, n_epp: nat)
    ensures
        spec_power_plan(p, n_gov, n_epp).len() == n_gov + n_epp + 1,
        forall|i: int|
            0 <= i < n_gov ==> spec_power_plan(p, n_gov, n_epp)[i] == (CpuOp::Governor {
                cpu: i as usize,
                value: p.spec_governor(),
            }),
        forall|i: int|
            n_gov <= i < n_gov + n_epp ==> spec_power_plan(p, n_gov, n_epp)[i] == (CpuOp::Epp {
                cpu: (i - n_gov) as usize,
                value: p.spec_epp(),
            }),
        spec_power_plan(p, n_gov, n_epp).last() == (CpuOp::Turbo {
            enabled: p.spec_turbo_enabled(),
        }),
{
}

} // verus!
