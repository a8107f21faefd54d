//! The CPU frequency-scaling file layer, driven here against an in-memory
//! picture of the per-CPU control files: the content of each matched
//! governor and energy-preference file, the turbo toggle, and the ordered
//! log of successful writes. Whether the energy-preference surface accepts
//! writes is part of the picture, since that control is not universally
//! present; a missing or failing energy-preference write is a soft failure.

use vstd::prelude::*;
use vstd::pervasive::VecAdditionalExecFns;
use crate::errors::CpuError;
use crate::power::PerformanceProfile;
use crate::power::GovValue;
use crate::power::EppValue;
use crate::power::CpuOp;
use crate::power::gov_name;
use crate::power::epp_name;
use crate::power::spec_gov_name;
use crate::power::spec_epp_name;
use crate::power::spec_gov_ops;
use crate::power::spec_epp_ops;
use vstd::string::StringExecFns;

verus! {

/// The energy-preference writes that actually take effect and are logged:
/// all of them where the surface accepts writes, none where it does not.
pub open spec fn spec_epp_logged(p: PerformanceProfile, n: nat, epp_writable: bool) -> Seq<CpuOp> {
    if epp_writable {
        spec_epp_ops(p, n)
    } else {
        Seq::<CpuOp>::empty()
    }
}

/// The handle on the CPU control files. `gov_files` and `epp_files` hold
/// the live content of each matched file; `no_turbo` the turbo file's
/// inverted boolean (true means boost disabled); `epp_writable` whether
/// energy-preference writes take effect on this hardware.
pub struct CpuController {
    pub gov_files: Vec<String>,
    pub epp_files: Vec<String>,
    pub epp_writable: bool,
    pub no_turbo: bool,
    pub log: Vec<CpuOp>,
}

/// What `set_governor` guarantees: with no matched file a hard failure and
/// no change; otherwise every governor file holds the new value and the log
/// grew by one governor write per CPU, in order.
pub open spec fn spec_set_governor_post(
    pre: CpuController,
    post: CpuController,
    governor: GovValue,
    r: Result<(), CpuError>,
) -> bool {
    &&& pre.gov_files@.len() == 0 ==> {
        &&& r == Err::<(), CpuError>(CpuError::NoGovernorPaths)
        &&& post.gov_files == pre.gov_files
        &&& post.log@ == pre.log@
    }
    &&& pre.gov_files@.len() > 0 ==> {
        &&& r == Ok::<(), CpuError>(())
        &&& post.gov_files@.len() == pre.gov_files@.len()
        &&& forall|i: int|
            0 <= i < post.gov_files@.len() ==> post.gov_files@[i]@ == spec_gov_name(governor)
        &&& post.log@ == pre.log@ + spec_gov_ops_for(governor, pre.gov_files@.len() as nat)
    }
}

/// What `set_epp` guarantees: on a writable surface every file holds the
/// new value and the log grew by one write per CPU; on one that is not
/// writable nothing changes, and the operation still succeeds.
pub open spec fn spec_set_epp_post(pre: CpuController, post: CpuController, epp: EppValue) -> bool {
    &&& post.epp_files@.len() == pre.epp_files@.len()
    &&& !pre.epp_writable ==> post.epp_files == pre.epp_files && post.log@ == pre.log@
    &&& pre.epp_writable ==> {
        &&& forall|i: int|
            0 <= i < post.epp_files@.len() ==> post.epp_files@[i]@ == spec_epp_name(epp)
        &&& post.log@ == pre.log@ + spec_epp_ops_for(epp, pre.epp_files@.len() as nat)
    }
}

/// What `apply_profile` guarantees: with no governor file it fails before
/// any write; otherwise the governor lands on every CPU, the energy
/// preference on every CPU of a writable surface, turbo is set last, and
/// the log shows exactly that order.
pub open spec fn spec_apply_profile_post(
    pre: CpuController,
    post: CpuController,
    profile: PerformanceProfile,
    r: Result<(), CpuError>,
) -> bool {
    &&& pre.gov_files@.len() == 0 ==> {
        &&& r == Err::<(), CpuError>(CpuError::NoGovernorPaths)
        &&& post.gov_files == pre.gov_files
        &&& post.epp_files == pre.epp_files
        &&& post.no_turbo == pre.no_turbo
        &&& post.log@ == pre.log@
    }
    &&& pre.gov_files@.len() > 0 ==> {
        &&& r == Ok::<(), CpuError>(())
        &&& post.gov_files@.len() == pre.gov_files@.len()
        &&& forall|i: int|
            0 <= i < post.gov_files@.len() ==> post.gov_files@[i]@ == spec_gov_name(
                profile.spec_governor(),
            )
        &&& post.epp_files@.len() == pre.epp_files@.len()
        &&& pre.epp_writable ==> forall|i: int|
            0 <= i < post.epp_files@.len() ==> post.epp_files@[i]@ == spec_epp_name(
                profile.spec_epp(),
            )
        &&& !pre.epp_writable ==> post.epp_files == pre.epp_files
        &&& post.no_turbo == !profile.spec_turbo_enabled()
        &&& post.log@ == pre.log@ + spec_gov_ops(profile, pre.gov_files@.len() as nat)
            + spec_epp_logged(profile, pre.epp_files@.len() as nat, pre.epp_writable) + seq![
            CpuOp::Turbo { enabled: profile.spec_turbo_enabled() },
        ]
    }
}

impl CpuController {
    /// A controller is only constructed when the turbo control file of the
    /// P-State driver is present; without it the daemon refuses to start.
    pub fn new(
        gov_files: Vec<String>,
        epp_files: Vec<String>,
        epp_writable: bool,
        has_turbo: bool,
        no_turbo: bool,
    ) -> (r: Result<CpuController, CpuError>)
        ensures
            !has_turbo ==> (r matches Err(e) && e == CpuError::NoTurboControl),
            has_turbo ==> (r matches Ok(c) && c.gov_files == gov_files && c.epp_files == epp_files
                && c.epp_writable == epp_writable && c.no_turbo == no_turbo && c.log@
                == Seq::<CpuOp>::empty()),
    {
        if !has_turbo {
            return Err(CpuError::NoTurboControl);
        }
        Ok(CpuController { gov_files, epp_files, epp_writable, no_turbo, log: Vec::new() })
    }

    /// Writes the governor to every matched per-CPU file, in file order.
    /// Zero matched files is a hard failure with no write issued.
    pub fn set_governor(&mut self, governor: GovValue) -> (r: Result<(), CpuError>)
        ensures
            final(self).epp_files == old(self).epp_files,
            final(self).epp_writable == old(self).epp_writable,
            final(self).no_turbo == old(self).no_turbo,
            spec_set_governor_post(*old(self), *final(self), governor, r),
    {
        if self.gov_files.len() == 0 {
            return Err(CpuError::NoGovernorPaths);
        }
        let n = self.gov_files.len();
        let value = gov_name(governor);
        let mut i: usize = 0;
        while i < n
            invariant
                i <= n,
                n == self.gov_files@.len(),
                value@ == spec_gov_name(governor),
                self.epp_files == old(self).epp_files,
                self.epp_writable == old(self).epp_writable,
                self.no_turbo == old(self).no_turbo,
                forall|j: int| 0 <= j < i ==> self.gov_files@[j]@ == spec_gov_name(governor),
                self.log@ =~= old(self).log@ + spec_gov_ops_for(governor, i as nat),
            decreases n - i,
        {
            self.gov_files.set(i, value.to_owned());
            self.log.push(CpuOp::Governor { cpu: i, value: governor });
            assert(self.log@ =~= old(self).log@ + spec_gov_ops_for(governor, (i + 1) as nat));
            i += 1;
        }
        Ok(())
    }

    /// Writes the energy preference to every matched per-CPU file. Zero
    /// matched files, or a surface that refuses the write, is a soft
    /// failure: the operation still reports success and continues.
    pub fn set_epp(&mut self, epp: EppValue) -> (r: Result<(), CpuError>)
        ensures
            r == Ok::<(), CpuError>(()),
            final(self).gov_files == old(self).gov_files,
            final(self).epp_writable == old(self).epp_writable,
            final(self).no_turbo == old(self).no_turbo,
            spec_set_epp_post(*old(self), *final(self), epp),
    {
        if !self.epp_writable {
            return Ok(());
        }
        let n = self.epp_files.len();
        let value = epp_name(epp);
        let mut i: usize = 0;
        while i < n
            invariant
                i <= n,
                n == self.epp_files@.len(),
                value@ == spec_epp_name(epp),
                self.gov_files == old(self).gov_files,
                self.epp_writable == old(self).epp_writable,
                self.no_turbo == old(self).no_turbo,
                forall|j: int| 0 <= j < i ==> self.epp_files@[j]@ == spec_epp_name(epp),
                self.log@ =~= old(self).log@ + spec_epp_ops_for(epp, i as nat),
            decreases n - i,
        {
            self.epp_files.set(i, value.to_owned());
            self.log.push(CpuOp::Epp { cpu: i, value: epp });
            assert(self.log@ =~= old(self).log@ + spec_epp_ops_for(epp, (i + 1) as nat));
            i += 1;
        }
        Ok(())
    }

    /// Sets the turbo toggle. The control file takes an inverted boolean:
    /// writing "0" enables boost, "1" disables it.
    pub fn set_turbo(&mut self, enabled: bool) -> (r: Result<(), CpuError>)
        ensures
            r == Ok::<(), CpuError>(()),
            final(self).gov_files == old(self).gov_files,
            final(self).epp_files == old(self).epp_files,
            final(self).epp_writable == old(self).epp_writable,
            final(self).no_turbo == !enabled,
            final(self).log@ == old(self).log@.push(CpuOp::Turbo { enabled }),
    {
        self.no_turbo = !enabled;
        self.log.push(CpuOp::Turbo { enabled });
        Ok(())
    }

    /// Applies a whole profile: governor on every CPU first, then energy
    /// preference (best effort), then turbo last. With no governor file the
    /// operation fails before any write.
    pub fn apply_profile(&mut self, profile: PerformanceProfile) -> (r: Result<(), CpuError>)
        ensures
            final(self).epp_writable == old(self).epp_writable,
            spec_apply_profile_post(*old(self), *final(self), profile, r),
    {
        if let Err(e) = self.set_governor(profile.governor_value()) {
            return Err(e);
        }
        if let Err(e) = self.set_epp(profile.epp_value()) {
            return Err(e);
        }
        if let Err(e) = self.set_turbo(profile.turbo_enabled()) {
            return Err(e);
        }
        proof {
            assert(spec_gov_ops_for(profile.spec_governor(), old(self).gov_files@.len() as nat)
                =~= spec_gov_ops(profile, old(self).gov_files@.len() as nat));
            assert(spec_epp_ops_for(profile.spec_epp(), old(self).epp_files@.len() as nat)
                =~= spec_epp_ops(profile, old(self).epp_files@.len() as nat));
            assert(self.log@ =~= old(self).log@ + spec_gov_ops(
                profile,
                old(self).gov_files@.len() as nat,
            ) + spec_epp_logged(
                profile,
                old(self).epp_files@.len() as nat,
                old(self).epp_writable,
            ) + seq![CpuOp::Turbo { enabled: profile.spec_turbo_enabled() }]);
        }
        Ok(())
    }

    /// The live governor, read back from the first matched file.
    pub fn get_current_governor(&self) -> (r: Result<String, CpuError>)
        ensures
            self.gov_files@.len() == 0 ==> (r matches Err(e) && e == CpuError::NoGovernorPaths),
            self.gov_files@.len() > 0 ==> (r matches Ok(s) && s@ == self.gov_files@[0]@),
    {
        if self.gov_files.len() == 0 {
            return Err(CpuError::NoGovernorPaths);
        }
        Ok(self.gov_files[0].clone())
    }

    /// The live energy preference from the first matched file, or the
    /// documented placeholder where that surface does not exist.
    pub fn get_current_epp(&self) -> (r: Result<String, CpuError>)
        ensures
            self.epp_files@.len() == 0 ==> (r matches Ok(s) && s@ == "not_supported"@),
            self.epp_files@.len() > 0 ==> (r matches Ok(s) && s@ == self.epp_files@[0]@),
    {
        if self.epp_files.len() == 0 {
            return Ok("not_supported".to_owned());
        }
        Ok(self.epp_files[0].clone())
    }
}

/// Governor ops for a bare governor value, one per CPU in order.
pub open spec fn spec_gov_ops_for(v: GovValue, n: nat) -> Seq<CpuOp> {
    Seq::new(n, |i: int| CpuOp::Governor { cpu: i as usize, value: v })
}

/// Energy-preference ops for a bare value, one per CPU in order.
pub open spec fn spec_epp_ops_for(v: EppValue, n: nat) -> Seq<CpuOp> {
    Seq::new(n, |i: int| CpuOp::Epp { cpu: i as usize, value: v })
}

} // verus!
