//! The performance control service: the bus-facing state machine that
//! resolves a profile name, drives the per-CPU control files through the
//! profile's ordered plan, and remembers the last successfully applied
//! profile, which is unknown until a first success this session.

use vstd::prelude::*;
use vstd::string::StringSliceAdditionalSpecFns;
use vstd::string::StringExecFns;
use crate::errors::CpuError;
use crate::errors::ServiceError;
use crate::errors::spec_cpu_error_message;
use crate::cpu::CpuController;
use crate::cpu::spec_apply_profile_post;
use crate::power::PerformanceProfile;
use crate::power::parse_performance_profile;
use crate::power::spec_parse_performance_profile;

verus! {

/// The message sent back for an unrecognized performance profile name.
pub open spec fn spec_unknown_performance_profile_message(name: Seq<char>) -> Seq<char> {
    "Unknown profile: "@ + name + ". Valid: silent, balanced, warspeed"@
}

/// The message sent back when a CPU control operation fails.
pub open spec fn spec_cpu_failure_message(e: CpuError) -> Seq<char> {
    "CPU control error: "@ + spec_cpu_error_message(e)
}

/// The message sent back when reading the CPU status fails.
pub open spec fn spec_cpu_read_failure_message(e: CpuError) -> Seq<char> {
    "CPU read error: "@ + spec_cpu_error_message(e)
}

/// The canonical name reported for the remembered profile: the explicit
/// "Unknown" sentinel until a profile has been applied successfully.
pub open spec fn spec_current_profile_name(p: Option<PerformanceProfile>) -> Seq<char> {
    match p {
        None => "Unknown"@,
        Some(p) => p.spec_name(),
    }
}

/// The power daemon's control service: the CPU file handle and the last
/// successfully applied profile, none yet at startup.
pub struct PrometheusService {
    pub cpu: CpuController,
    pub current_profile: Option<PerformanceProfile>,
}

/// What `set_performance_profile` guarantees. An unknown name changes
/// nothing; with no governor file the operation fails with no write; and
/// only a fully applied plan updates the remembered profile.
pub open spec fn spec_set_performance_profile_post(
    pre: PrometheusService,
    post: PrometheusService,
    name_chars: Seq<char>,
    name_bytes: Seq<u8>,
    r: Result<String, ServiceError>,
) -> bool {
    match spec_parse_performance_profile(name_bytes) {
        None => {
            &&& r matches Err(ServiceError::InvalidArgs(m)) && m@
                == spec_unknown_performance_profile_message(name_chars)
            &&& post.cpu == pre.cpu
            &&& post.current_profile == pre.current_profile
        },
        Some(p) => {
            &&& spec_apply_profile_post(
                pre.cpu,
                post.cpu,
                p,
                if pre.cpu.gov_files@.len() == 0 {
                    Err(CpuError::NoGovernorPaths)
                } else {
                    Ok(())
                },
            )
            &&& pre.cpu.gov_files@.len() == 0 ==> {
                &&& r matches Err(ServiceError::Failed(m)) && m@ == spec_cpu_failure_message(
                    CpuError::NoGovernorPaths,
                )
                &&& post.current_profile == pre.current_profile
            }
            &&& pre.cpu.gov_files@.len() > 0 ==> {
                &&& r matches Ok(m) && m@ == "Performance profile set to: "@ + name_chars
                &&& post.current_profile == Some(p)
            }
        },
    }
}

impl PrometheusService {
    pub fn new(cpu: CpuController) -> (r: PrometheusService)
        ensures
            r.cpu == cpu,
            r.current_profile == Option::<PerformanceProfile>::None,
    {
        PrometheusService { cpu, current_profile: None }
    }

    /// Resolves the requested name and applies the profile's plan to the
    /// CPU control files. An unknown name is rejected before touching
    /// hardware; a hardware failure leaves the remembered profile alone.
    pub fn set_performance_profile(&mut self, profile: &str) -> (r: Result<String, ServiceError>)
        ensures
            final(self).cpu.epp_writable == old(self).cpu.epp_writable,
            spec_set_performance_profile_post(
                *old(self),
                *final(self),
                profile@,
                profile.spec_bytes(),
                r,
            ),
    {
        let profile_enum = match parse_performance_profile(profile) {
            Some(p) => p,
            None => {
                let mut m = String::from_str("Unknown profile: ");
                m.append(profile);
                m.append(". Valid: silent, balanced, warspeed");
                return Err(ServiceError::InvalidArgs(m));
            },
        };
        if let Err(e) = self.cpu.apply_profile(profile_enum) {
            let mut m = String::from_str("CPU control error: ");
            m.append(e.message().as_str());
            return Err(ServiceError::Failed(m));
        }
        self.current_profile = Some(profile_enum);
        let mut m = String::from_str("Performance profile set to: ");
        m.append(profile);
        Ok(m)
    }

    /// The canonical name of the last successfully applied profile, or the
    /// "Unknown" sentinel before the first success of this session.
    pub fn get_current_profile(&self) -> (r: String)
        ensures
            r@ == spec_current_profile_name(self.current_profile),
    {
        match &self.current_profile {
            Some(p) => p.name(),
            None => "Unknown".to_owned(),
        }
    }

    /// The live governor and energy preference, read from the control
    /// files, not from the remembered intent.
    pub fn get_cpu_status(&self) -> (r: Result<(String, String), ServiceError>)
        ensures
            self.cpu.gov_files@.len() == 0 ==> (r matches Err(ServiceError::Failed(m)) && m@
                == spec_cpu_read_failure_message(CpuError::NoGovernorPaths)),
            self.cpu.gov_files@.len() > 0 ==> (r matches Ok(s) && s.0@ == self.cpu.gov_files@[0]@
                && s.1@ == (if self.cpu.epp_files@.len() == 0 {
                "not_supported"@
            } else {
                self.cpu.epp_files@[0]@
            })),
    {
        let gov = match self.cpu.get_current_governor() {
            Ok(g) => g,
            Err(e) => {
                let mut m = String::from_str("CPU read error: ");
                m.append(e.message().as_str());
                return Err(ServiceError::Failed(m));
            },
        };
        let epp = match self.cpu.get_current_epp() {
            Ok(v) => v,
            Err(e) => {
                let mut m = String::from_str("CPU read error: ");
                m.append(e.message().as_str());
                return Err(ServiceError::Failed(m));
            },
        };
        Ok((gov, epp))
    }
}

/// Reporting law of the remembered profile: before any successful
/// application the reported name is exactly the "Unknown" sentinel, and
/// after a successful application of profile `p` it is exactly the
/// canonical name of `p` — never the requested spelling, never an alias.
pub proof fn lemma_current_profile_reporting(p: PerformanceProfile)
    ensures
        spec_current_profile_name(None) == "Unknown"@,
        spec_current_profile_name(Some(p)) == p.spec_name(),
{
}

/// Update law of the remembered performance profile: a successful
/// `set_performance_profile` leaves the service remembering exactly the
/// profile the name resolves to, and any rejected or failed call leaves the
/// remembered profile untouched.
pub proof fn lemma_set_performance_profile_updates_current(
    pre: PrometheusService,
    post: PrometheusService,
    name_chars: Seq<char>,
    name_bytes: Seq<u8>,
    r: Result<String, ServiceError>,
)
    requires
        spec_set_performance_profile_post(pre, post, name_chars, name_bytes, r),
    ensures
        r is Ok ==> (spec_parse_performance_profile(name_bytes) matches Some(p)
            && post.current_profile == Some(p)),
        r is Err ==> post.current_profile == pre.current_profile,
{
}

} // verus!
