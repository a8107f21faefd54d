//! Fan daemon data model: the closed set of fan profiles, the
//! embedded-controller register map, fan speed validation, profile name
//! parsing, and the ordered register write plan each profile expands to.

use vstd::prelude::*;
use vstd::string::StringSliceAdditionalSpecFns;
use crate::errors::EcError;
use crate::text::spec_eq_ignore_case;
use crate::text::eq_ignore_case;

verus! {

// Register addresses of the embedded controller.
pub const REG_MANUAL_CONTROL: u64 = 3;
pub const REG_GPU_FAN_MODE: u64 = 33;
pub const REG_CPU_FAN_MODE: u64 = 34;
pub const REG_CPU_FAN_READ: u64 = 19;
pub const REG_GPU_FAN_READ: u64 = 21;
pub const REG_CPU_FAN_WRITE: u64 = 55;
pub const REG_GPU_FAN_WRITE: u64 = 58;

// Values written to the mode registers.
pub const VAL_MANUAL_CONTROL_ENABLE: u8 = 17;
pub const VAL_CPU_FAN_MANUAL: u8 = 12;
pub const VAL_GPU_FAN_MANUAL: u8 = 48;
pub const VAL_MANUAL_CONTROL_DISABLE: u8 = 0;
pub const VAL_CPU_FAN_AUTO: u8 = 4;
pub const VAL_GPU_FAN_AUTO: u8 = 16;

/// The closed set of fan profiles.
#[derive(Clone, Copy, Debug, PartialEq, Eq, Structural)]
pub enum FanProfile {
    Silent,
    Balanced,
    MaxPower,
    Auto,
}

impl FanProfile {
    pub open spec fn spec_cpu_speed(self) -> u8 {
        match self {
            FanProfile::Silent => 25,
            FanProfile::Balanced => 50,
            FanProfile::MaxPower => 100,
            FanProfile::Auto => 50,
        }
    }

    pub open spec fn spec_gpu_speed(self) -> u8 {
        match self {
            FanProfile::Silent => 25,
            FanProfile::Balanced => 50,
            FanProfile::MaxPower => 100,
            FanProfile::Auto => 50,
        }
    }

    /// CPU fan target, percent. The Auto value is never written: the Auto
    /// plan hands arbitration back to the controller instead.
    pub fn cpu_speed(&self) -> (r: u8)
        ensures
            r == self.spec_cpu_speed(),
            r <= 100,
    {
        match self {
            FanProfile::Silent => 25,
            FanProfile::Balanced => 50,
            FanProfile::MaxPower => 100,
            FanProfile::Auto => 50,
        }
    }

    /// GPU fan target, percent.
    pub fn gpu_speed(&self) -> (r: u8)
        ensures
            r == self.spec_gpu_speed(),
            r <= 100,
    {
        match self {
            FanProfile::Silent => 25,
            FanProfile::Balanced => 50,
            FanProfile::MaxPower => 100,
            FanProfile::Auto => 50,
        }
    }

    pub open spec fn spec_name(self) -> Seq<char> {
        match self {
            FanProfile::Silent => "Silent"@,
            FanProfile::Balanced => "Balanced"@,
            FanProfile::MaxPower => "MaxPower"@,
            FanProfile::Auto => "Auto"@,
        }
    }

    /// Canonical profile name, as reported to callers.
    pub fn name(&self) -> (r: String)
        ensures
            r@ == self.spec_name(),
    {
        match self {
            FanProfile::Silent => "Silent".to_owned(),
            FanProfile::Balanced => "Balanced".to_owned(),
            FanProfile::MaxPower => "MaxPower".to_owned(),
            FanProfile::Auto => "Auto".to_owned(),
        }
    }
}

/// A fan speed is valid only in 0-100; anything above is rejected before any
/// hardware write.
pub fn validate_fan_speed(speed: u8) -> (r: Result<u8, EcError>)
    ensures
        speed <= 100 ==> r == Ok::<u8, EcError>(speed),
        speed > 100 ==> r == Err::<u8, EcError>(EcError::InvalidSpeed(speed)),
{
    if speed > 100 {
        Err(EcError::InvalidSpeed(speed))
    } else {
        Ok(speed)
    }
}

/// Case-insensitive profile lookup, aliases included.
pub open spec fn spec_parse_fan_profile(s: Seq<u8>) -> Option<FanProfile> {
    if spec_eq_ignore_case(s, "silent".spec_bytes()) {
        Some(FanProfile::Silent)
    } else if spec_eq_ignore_case(s, "balanced".spec_bytes()) {
        Some(FanProfile::Balanced)
    } else if spec_eq_ignore_case(s, "maxpower".spec_bytes()) || spec_eq_ignore_case(
        s,
        "max_power".spec_bytes(),
    ) || spec_eq_ignore_case(s, "max".spec_bytes()) {
        Some(FanProfile::MaxPower)
    } else if spec_eq_ignore_case(s, "auto".spec_bytes()) {
        Some(FanProfile::Auto)
    } else {
        None
    }
}

/// Resolves a caller-supplied profile name, case-insensitively and with the
/// documented aliases for MaxPower.
pub fn parse_fan_profile(name: &str) -> (r: Option<FanProfile>)
    ensures
        r == spec_parse_fan_profile(name.spec_bytes()),
{
    let b = name.as_bytes();
    if eq_ignore_case(b, "silent".as_bytes()) {
        Some(FanProfile::Silent)
    } else if eq_ignore_case(b, "balanced".as_bytes()) {
        Some(FanProfile::Balanced)
    } else if eq_ignore_case(b, "maxpower".as_bytes()) || eq_ignore_case(
        b,
        "max_power".as_bytes(),
    ) || eq_ignore_case(b, "max".as_bytes()) {
        Some(FanProfile::MaxPower)
    } else if eq_ignore_case(b, "auto".as_bytes()) {
        Some(FanProfile::Auto)
    } else {
        None
    }
}

/// One register write: the unit of the fan daemon's hardware plans.
#[derive(Clone, Copy, Debug, PartialEq, Eq, Structural)]
pub struct EcWrite {
    pub register: u64,
    pub value: u8,
}

/// The three writes that enter manual fan control, in the order the hardware
/// demands: manual-enable first, then both fan mode registers.
pub open spec fn spec_manual_entry_plan() -> Seq<EcWrite> {
    seq![
        EcWrite { register: REG_MANUAL_CONTROL, value: VAL_MANUAL_CONTROL_ENABLE },
        EcWrite { register: REG_CPU_FAN_MODE, value: VAL_CPU_FAN_MANUAL },
        EcWrite { register: REG_GPU_FAN_MODE, value: VAL_GPU_FAN_MANUAL },
    ]
}

/// The two target-speed writes, CPU first.
pub open spec fn spec_speed_plan(cpu: u8, gpu: u8) -> Seq<EcWrite> {
    seq![
        EcWrite { register: REG_CPU_FAN_WRITE, value: cpu },
        EcWrite { register: REG_GPU_FAN_WRITE, value: gpu },
    ]
}

/// The three writes that return to automatic control: the reverse phase
/// order of manual entry, restoring default arbitration last.
pub open spec fn spec_auto_plan() -> Seq<EcWrite> {
    seq![
        EcWrite { register: REG_CPU_FAN_MODE, value: VAL_CPU_FAN_AUTO },
        EcWrite { register: REG_GPU_FAN_MODE, value: VAL_GPU_FAN_AUTO },
        EcWrite { register: REG_MANUAL_CONTROL, value: VAL_MANUAL_CONTROL_DISABLE },
    ]
}

/// The full ordered write plan of a profile. Mode registers are switched to
/// manual before any target speed is written, else the hardware may ignore
/// or misinterpret the speed write.
pub open spec fn spec_fan_plan(p: FanProfile) -> Seq<EcWrite> {
    if p is Auto {
        spec_auto_plan()
    } else {
        spec_manual_entry_plan() + spec_speed_plan(p.spec_cpu_speed(), p.spec_gpu_speed())
    }
}

/// Every register a fan plan touches is a known EC register address.
pub open spec fn spec_plan_registers_ok(plan: Seq<EcWrite>) -> bool {
    forall|i: int| 0 <= i < plan.len() ==> plan[i].register < 256
}

/// Builds the write plan of a profile as executable data, for the binary to
/// replay against the real register file.
pub fn fan_profile_plan(p: FanProfile) -> (plan: Vec<EcWrite>)
    ensures
        plan@ == spec_fan_plan(p),
{
    let mut plan: Vec<EcWrite> = Vec::new();
    match p {
        FanProfile::Auto => {
            plan.push(EcWrite { register: REG_CPU_FAN_MODE, value: VAL_CPU_FAN_AUTO });
            plan.push(EcWrite { register: REG_GPU_FAN_MODE, value: VAL_GPU_FAN_AUTO });
            plan.push(EcWrite { register: REG_MANUAL_CONTROL, value: VAL_MANUAL_CONTROL_DISABLE });
        },
        _ => {
            plan.push(EcWrite { register: REG_MANUAL_CONTROL, value: VAL_MANUAL_CONTROL_ENABLE });
            plan.push(EcWrite { register: REG_CPU_FAN_MODE, value: VAL_CPU_FAN_MANUAL });
            plan.push(EcWrite { register: REG_GPU_FAN_MODE, value: VAL_GPU_FAN_MANUAL });
            plan.push(EcWrite { register: REG_CPU_FAN_WRITE, value: p.cpu_speed() });
            plan.push(EcWrite { register: REG_GPU_FAN_WRITE, value: p.gpu_speed() });
        },
    }
    assert(plan@ =~= spec_fan_plan(p));
    plan
}

/// Ordering law of the fan plans: a non-Auto plan enables manual control and
/// switches both fan mode registers before either target-speed write, in the
/// exact order manual-enable, CPU mode, GPU mode, CPU speed, GPU speed; the
/// Auto plan is the reverse phase order, CPU mode, GPU mode, manual-disable.
pub proof fn lemma_fan_plan_order(p: FanProfile)
    ensures
        !(p is Auto) ==> spec_fan_plan(p) =~= seq![
            EcWrite { register: REG_MANUAL_CONTROL, value: VAL_MANUAL_CONTROL_ENABLE },
            EcWrite { register: REG_CPU_FAN_MODE, value: VAL_CPU_FAN_MANUAL },
            EcWrite { register: REG_GPU_FAN_MODE, value: VAL_GPU_FAN_MANUAL },
            EcWrite { register: REG_CPU_FAN_WRITE, value: p.spec_cpu_speed() },
            EcWrite { register: REG_GPU_FAN_WRITE, value: p.spec_gpu_speed() },
        ],
        p is Auto ==> spec_fan_plan(p) =~= spec_auto_plan(),
        spec_plan_registers_ok(spec_fan_plan(p)),
{
}

} // verus!
