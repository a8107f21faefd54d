//! The fan control service: the bus-facing state machine that resolves a
//! profile name, drives the EC through the profile's ordered write plan, and
//! remembers the last successfully applied profile. The bus layer in the
//! binary only delivers calls and propagates the results verbatim.

use vstd::prelude::*;
use vstd::string::StringSliceAdditionalSpecFns;
use vstd::string::StringExecFns;
use crate::errors::EcError;
use crate::errors::ServiceError;
use crate::errors::spec_ec_error_message;
use crate::ec::EcController;
use crate::ec::spec_regs_after;
use crate::fan::FanProfile;
use crate::fan::parse_fan_profile;
use crate::fan::spec_parse_fan_profile;
use crate::fan::spec_fan_plan;
use crate::fan::spec_manual_entry_plan;
use crate::fan::spec_speed_plan;
use crate::ec::lemma_regs_after_concat;

verus! {

/// The message sent back for an unrecognized fan profile name.
pub open spec fn spec_unknown_fan_profile_message(name: Seq<char>) -> Seq<char> {
    "Unknown profile: "@ + name + ". Valid: silent, balanced, maxpower, auto"@
}

/// The message sent back when an EC operation fails mid-sequence.
pub open spec fn spec_ec_failure_message(e: EcError) -> Seq<char> {
    "EC error: "@ + spec_ec_error_message(e)
}

/// The fan daemon's control service: the EC handle and the last
/// successfully applied profile, which starts at Auto.
pub struct BoreasService {
    pub ec: EcController,
    pub current_profile: FanProfile,
}

/// What `set_fan_profile` guarantees, relating the state before the call,
/// the state after it, the requested name and the result. An unknown name
/// changes nothing; a recognized one applies its plan up to the first
/// failed write, and the remembered profile changes only when the whole
/// plan went through.
pub open spec fn spec_set_fan_profile_post(
    pre: BoreasService,
    post: BoreasService,
    name_chars: Seq<char>,
    name_bytes: Seq<u8>,
    r: Result<String, ServiceError>,
) -> bool {
    match spec_parse_fan_profile(name_bytes) {
        None => {
            &&& r matches Err(ServiceError::InvalidArgs(m)) && m@
                == spec_unknown_fan_profile_message(name_chars)
            &&& post.ec.log@ == pre.ec.log@
            &&& post.ec.regs@ == pre.ec.regs@
            &&& post.current_profile == pre.current_profile
        },
        Some(p) => {
            let plan = spec_fan_plan(p);
            let k = pre.ec.spec_applied_count(plan);
            &&& post.ec.log@ == pre.ec.log@ + plan.take(k)
            &&& post.ec.regs@ == spec_regs_after(pre.ec.regs@, plan.take(k))
            &&& k == plan.len() ==> {
                &&& r matches Ok(m) && m@ == "Fan profile set to: "@ + name_chars
                &&& post.current_profile == p
            }
            &&& k < plan.len() ==> {
                &&& r matches Err(ServiceError::Failed(m)) && m@ == spec_ec_failure_message(
                    EcError::WriteFailed,
                )
                &&& post.current_profile == pre.current_profile
            }
        },
    }
}

impl BoreasService {
    pub open spec fn wf(self) -> bool {
        self.ec.wf()
    }

    pub fn new(ec: EcController) -> (r: BoreasService)
        ensures
            r.ec == ec,
            r.current_profile == FanProfile::Auto,
    {
        BoreasService { ec, current_profile: FanProfile::Auto }
    }

    /// Resolves the requested name and applies the profile's plan to the
    /// EC. An unknown name is rejected before touching hardware. On an EC
    /// failure the writes already issued stay applied, but the remembered
    /// profile does not change; only a fully applied plan updates it.
    pub fn set_fan_profile(&mut self, profile: &str) -> (r: Result<String, ServiceError>)
        requires
            old(self).wf(),
        ensures
            final(self).wf(),
            final(self).ec.spec_faults() == old(self).ec.spec_faults(),
            spec_set_fan_profile_post(
                *old(self),
                *final(self),
                profile@,
                profile.spec_bytes(),
                r,
            ),
    {
        let profile_enum = match parse_fan_profile(profile) {
            Some(p) => p,
            None => {
                let mut m = String::from_str("Unknown profile: ");
                m.append(profile);
                m.append(". Valid: silent, balanced, maxpower, auto");
                return Err(ServiceError::InvalidArgs(m));
            },
        };
        let ghost plan = spec_fan_plan(profile_enum);
        let ghost ec0 = self.ec;
        match profile_enum {
            FanProfile::Auto => {
                if let Err(e) = self.ec.restore_auto_control() {
                    let mut m = String::from_str("EC error: ");
                    m.append(e.message().as_str());
                    return Err(ServiceError::Failed(m));
                }
            },
            _ => {
                if let Err(e) = self.ec.initialize_manual_control() {
                    proof {
                        let k = ec0.spec_applied_count(plan);
                        assert(k == ec0.spec_applied_count(spec_manual_entry_plan()));
                        assert(plan.take(k) =~= spec_manual_entry_plan().take(k));
                    }
                    let mut m = String::from_str("EC error: ");
                    m.append(e.message().as_str());
                    return Err(ServiceError::Failed(m));
                }
                let ghost ec1 = self.ec;
                let cpu = profile_enum.cpu_speed();
                let gpu = profile_enum.gpu_speed();
                let ghost speeds = spec_speed_plan(cpu, gpu);
                let result = self.ec.set_fan_speeds(cpu, gpu);
                proof {
                    let k = ec0.spec_applied_count(plan);
                    let k2 = ec1.spec_applied_count(speeds);
                    assert(spec_manual_entry_plan().take(3) =~= spec_manual_entry_plan());
                    assert(ec1.regs@ == spec_regs_after(ec0.regs@, spec_manual_entry_plan()));
                    assert(ec1.log@ == ec0.log@ + spec_manual_entry_plan());
                    assert(k == 3 + k2);
                    assert(plan.take(k) =~= spec_manual_entry_plan() + speeds.take(k2));
                    lemma_regs_after_concat(ec0.regs@, spec_manual_entry_plan(), speeds.take(k2));
                    assert(self.ec.regs@ == spec_regs_after(ec0.regs@, plan.take(k)));
                    assert(self.ec.log@ =~= ec0.log@ + plan.take(k));
                }
                if let Err(e) = result {
                    let mut m = String::from_str("EC error: ");
                    m.append(e.message().as_str());
                    return Err(ServiceError::Failed(m));
                }
            },
        }
        self.current_profile = profile_enum;
        let mut m = String::from_str("Fan profile set to: ");
        m.append(profile);
        Ok(m)
    }

    /// Live fan values read from the hardware, not the remembered intent.
    pub fn get_fan_speeds(&self) -> (r: Result<(u8, u8), ServiceError>)
        requires
            self.wf(),
        ensures
            self.ec.fail_reads ==> (r matches Err(ServiceError::Failed(m)) && m@
                == spec_ec_failure_message(EcError::ReadFailed)),
            !self.ec.fail_reads ==> (r matches Ok(v) && v == (
                self.ec.regs@[crate::fan::REG_CPU_FAN_READ as int],
                self.ec.regs@[crate::fan::REG_GPU_FAN_READ as int],
            )),
    {
        match self.ec.get_fan_speeds() {
            Ok(v) => Ok(v),
            Err(e) => {
                let mut m = String::from_str("EC error: ");
                m.append(e.message().as_str());
                Err(ServiceError::Failed(m))
            },
        }
    }

    /// The canonical name of the last successfully applied profile; "Auto"
    /// until a first successful application this session.
    pub fn get_current_profile(&self) -> (r: String)
        ensures
            r@ == self.current_profile.spec_name(),
    {
        self.current_profile.name()
    }
}

/// Update law of the remembered fan profile: a successful `set_fan_profile`
/// leaves the service remembering exactly the profile the name resolves to
/// — so `get_current_profile` then reports its canonical name — and any
/// rejected or failed call leaves the remembered profile untouched.
pub proof fn lemma_set_fan_profile_updates_current(
    pre: BoreasService,
    post: BoreasService,
    name_chars: Seq<char>,
    name_bytes: Seq<u8>,
    r: Result<String, ServiceError>,
)
    requires
        spec_set_fan_profile_post(pre, post, name_chars, name_bytes, r),
    ensures
        r is Ok ==> (spec_parse_fan_profile(name_bytes) matches Some(p) && post.current_profile
            == p),
        r is Err ==> post.current_profile == pre.current_profile,
{
    match spec_parse_fan_profile(name_bytes) {
        None => {
        },
        Some(p) => {
            let plan = spec_fan_plan(p);
            let k = pre.ec.spec_applied_count(plan);
            if k == plan.len() {
            } else {
            }
        },
    }
}

} // verus!
