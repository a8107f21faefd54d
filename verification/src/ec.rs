//! The embedded-controller register layer, driven here against an in-memory
//! register surface that records every successful write in order and can be
//! told to fail a chosen write or all reads. The register operations and the
//! plan executor are exactly the daemon's logic; the binary replays the same
//! plans against the real register file.

use vstd::prelude::*;
use crate::errors::EcError;
use crate::fan::EcWrite;
use crate::fan::spec_speed_plan;
use crate::fan::spec_manual_entry_plan;
use crate::fan::spec_auto_plan;
use crate::fan::validate_fan_speed;
use crate::fan::REG_MANUAL_CONTROL;
use crate::fan::REG_GPU_FAN_MODE;
use crate::fan::REG_CPU_FAN_MODE;
use crate::fan::REG_CPU_FAN_READ;
use crate::fan::REG_GPU_FAN_READ;
use crate::fan::REG_CPU_FAN_WRITE;
use crate::fan::REG_GPU_FAN_WRITE;
use crate::fan::VAL_MANUAL_CONTROL_ENABLE;
use crate::fan::VAL_CPU_FAN_MANUAL;
use crate::fan::VAL_GPU_FAN_MANUAL;
use crate::fan::VAL_MANUAL_CONTROL_DISABLE;
use crate::fan::VAL_CPU_FAN_AUTO;
use crate::fan::VAL_GPU_FAN_AUTO;

verus! {

/// Register state after a sequence of writes has been applied.
pub open spec fn spec_regs_after(regs: Seq<u8>, plan: Seq<EcWrite>) -> Seq<u8>
    decreases plan.len(),
{
    if plan.len() == 0 {
        regs
    } else {
        spec_regs_after(regs, plan.drop_last()).update(
            plan.last().register as int,
            plan.last().value,
        )
    }
}

/// Applying concatenated plans is applying them one after the other.
pub proof fn lemma_regs_after_concat(regs: Seq<u8>, a: Seq<EcWrite>, b: Seq<EcWrite>)
    ensures
        spec_regs_after(regs, a + b) == spec_regs_after(spec_regs_after(regs, a), b),
    decreases b.len(),
{
    if b.len() == 0 {
        assert(a + b =~= a);
    } else {
        lemma_regs_after_concat(regs, a, b.drop_last());
        assert((a + b).drop_last() =~= a + b.drop_last());
        assert((a + b).last() == b.last());
    }
}

/// The serialized handle on the EC register space. Holds the registers, the
/// ordered log of successful writes, and the fault configuration: `fail_at`
/// makes the write attempted when the log has that length fail, `fail_reads`
/// makes every read fail.
pub struct EcController {
    pub regs: Vec<u8>,
    pub log: Vec<EcWrite>,
    pub fail_at: Option<usize>,
    pub fail_reads: bool,
}

impl EcController {
    /// The EC exposes a 256-byte register space.
    pub open spec fn wf(self) -> bool {
        self.regs@.len() == 256
    }

    /// The next write attempted on this state fails.
    pub open spec fn spec_fails_next(self) -> bool {
        self.fail_at matches Some(f) && f == self.log@.len()
    }

    /// How many leading writes of `plan` succeed from this state before the
    /// injected failure, if any, interrupts the sequence.
    pub open spec fn spec_applied_count(self, plan: Seq<EcWrite>) -> int {
        match self.fail_at {
            Some(f) => if self.log@.len() <= f < self.log@.len() + plan.len() {
                f - self.log@.len()
            } else {
                plan.len() as int
            },
            None => plan.len() as int,
        }
    }

    /// The fault configuration, which no register operation changes.
    pub open spec fn spec_faults(self) -> (Option<usize>, bool) {
        (self.fail_at, self.fail_reads)
    }

    /// A fault-free controller with all registers zero.
    pub fn new() -> (r: EcController)
        ensures
            r.wf(),
            r.log@ == Seq::<EcWrite>::empty(),
            r.regs@ == Seq::new(256, |i: int| 0u8),
            r.fail_at == Option::<usize>::None,
            r.fail_reads == false,
    {
        EcController::with_faults(None, false)
    }

    /// A controller with all registers zero and the given fault injection.
    pub fn with_faults(fail_at: Option<usize>, fail_reads: bool) -> (r: EcController)
        ensures
            r.wf(),
            r.log@ == Seq::<EcWrite>::empty(),
            r.regs@ == Seq::new(256, |i: int| 0u8),
            r.fail_at == fail_at,
            r.fail_reads == fail_reads,
    {
        let mut regs: Vec<u8> = Vec::new();
        let mut i: usize = 0;
        while i < 256
            invariant
                i <= 256,
                regs@.len() == i,
                forall|j: int| 0 <= j < i ==> regs@[j] == 0u8,
            decreases 256 - i,
        {
            regs.push(0u8);
            i += 1;
        }
        assert(regs@ =~= Seq::new(256, |i: int| 0u8));
        EcController { regs, log: Vec::new(), fail_at, fail_reads }
    }

    /// One serialized register read: seek to the register, read one byte.
    pub fn read_register(&self, register: u64) -> (r: Result<u8, EcError>)
        requires
            self.wf(),
            register < 256,
        ensures
            self.fail_reads ==> r == Err::<u8, EcError>(EcError::ReadFailed),
            !self.fail_reads ==> r == Ok::<u8, EcError>(self.regs@[register as int]),
    {
        if self.fail_reads {
            return Err(EcError::ReadFailed);
        }
        Ok(self.regs[register as usize])
    }

    /// One serialized register write: seek, write one byte, flush. On
    /// success the write is recorded at the end of the log; on the injected
    /// failure nothing changes.
    pub fn write_register(&mut self, register: u64, value: u8) -> (r: Result<(), EcError>)
        requires
            old(self).wf(),
            register < 256,
        ensures
            final(self).wf(),
            final(self).spec_faults() == old(self).spec_faults(),
            old(self).spec_fails_next() ==> r == Err::<(), EcError>(EcError::WriteFailed)
                && final(self).regs@ == old(self).regs@ && final(self).log@ == old(self).log@,
            !old(self).spec_fails_next() ==> r == Ok::<(), EcError>(())
                && final(self).log@ == old(self).log@.push(EcWrite { register, value })
                && final(self).regs@ == old(self).regs@.update(register as int, value),
    {
        if let Some(f) = self.fail_at {
            if f == self.log.len() {
                return Err(EcError::WriteFailed);
            }
        }
        self.regs.set(register as usize, value);
        self.log.push(EcWrite { register, value });
        Ok(())
    }

    /// Issues a whole plan in order, stopping at the first failed write.
    /// The writes before the failure stay applied: the sequence is not
    /// transactional and nothing is rolled back.
    pub fn apply_plan(&mut self, plan: &Vec<EcWrite>) -> (r: Result<(), EcError>)
        requires
            old(self).wf(),
            forall|i: int| 0 <= i < plan@.len() ==> plan@[i].register < 256,
        ensures
            final(self).wf(),
            final(self).spec_faults() == old(self).spec_faults(),
            final(self).log@ == old(self).log@ + plan@.take(
                old(self).spec_applied_count(plan@),
            ),
            final(self).regs@ == spec_regs_after(
                old(self).regs@,
                plan@.take(old(self).spec_applied_count(plan@)),
            ),
            old(self).spec_applied_count(plan@) == plan@.len() ==> r == Ok::<(), EcError>(()),
            old(self).spec_applied_count(plan@) < plan@.len() ==> r == Err::<(), EcError>(
                EcError::WriteFailed,
            ),
    {
        let n = plan.len();
        let mut i: usize = 0;
        while i < n
            invariant
                self.wf(),
                n == plan@.len(),
                i <= n,
                forall|k: int| 0 <= k < plan@.len() ==> plan@[k].register < 256,
                self.spec_faults() == old(self).spec_faults(),
                self.log@ == old(self).log@ + plan@.take(i as int),
                self.regs@ == spec_regs_after(old(self).regs@, plan@.take(i as int)),
                !(old(self).fail_at matches Some(f) && old(self).log@.len() <= f < old(
                    self,
                ).log@.len() + i),
            decreases n - i,
        {
            let w = plan[i];
            let ghost pre = *self;
            match self.write_register(w.register, w.value) {
                Ok(()) => {
                    proof {
                        assert(plan@.take(i + 1).drop_last() =~= plan@.take(i as int));
                        assert(plan@.take(i + 1).last() == plan@[i as int]);
                        assert(self.log@ =~= old(self).log@ + plan@.take(i + 1));
                    }
                    i += 1;
                },
                Err(e) => {
                    proof {
                        assert(pre.spec_fails_next());
                        assert(old(self).spec_applied_count(plan@) == i as int);
                    }
                    return Err(e);
                },
            }
        }
        assert(plan@.take(n as int) =~= plan@);
        assert(old(self).spec_applied_count(plan@) == plan@.len() as int);
        Ok(())
    }

    /// Enters manual fan control: manual-enable, then the CPU and GPU mode
    /// registers, in that order.
    pub fn initialize_manual_control(&mut self) -> (r: Result<(), EcError>)
        requires
            old(self).wf(),
        ensures
            final(self).wf(),
            final(self).spec_faults() == old(self).spec_faults(),
            final(self).log@ == old(self).log@ + spec_manual_entry_plan().take(
                old(self).spec_applied_count(spec_manual_entry_plan()),
            ),
            final(self).regs@ == spec_regs_after(
                old(self).regs@,
                spec_manual_entry_plan().take(
                    old(self).spec_applied_count(spec_manual_entry_plan()),
                ),
            ),
            old(self).spec_applied_count(spec_manual_entry_plan()) == 3 ==> r == Ok::<
                (),
                EcError,
            >(()),
            old(self).spec_applied_count(spec_manual_entry_plan()) < 3 ==> r == Err::<
                (),
                EcError,
            >(EcError::WriteFailed),
    {
        let mut plan: Vec<EcWrite> = Vec::new();
        plan.push(EcWrite { register: REG_MANUAL_CONTROL, value: VAL_MANUAL_CONTROL_ENABLE });
        plan.push(EcWrite { register: REG_CPU_FAN_MODE, value: VAL_CPU_FAN_MANUAL });
        plan.push(EcWrite { register: REG_GPU_FAN_MODE, value: VAL_GPU_FAN_MANUAL });
        assert(plan@ =~= spec_manual_entry_plan());
        self.apply_plan(&plan)
    }

    /// Returns the fans to automatic control: both mode registers back to
    /// auto, then manual control disabled last.
    pub fn restore_auto_control(&mut self) -> (r: Result<(), EcError>)
        requires
            old(self).wf(),
        ensures
            final(self).wf(),
            final(self).spec_faults() == old(self).spec_faults(),
            final(self).log@ == old(self).log@ + spec_auto_plan().take(
                old(self).spec_applied_count(spec_auto_plan()),
            ),
            final(self).regs@ == spec_regs_after(
                old(self).regs@,
                spec_auto_plan().take(old(self).spec_applied_count(spec_auto_plan())),
            ),
            old(self).spec_applied_count(spec_auto_plan()) == 3 ==> r == Ok::<(), EcError>(()),
            old(self).spec_applied_count(spec_auto_plan()) < 3 ==> r == Err::<(), EcError>(
                EcError::WriteFailed,
            ),
    {
        let mut plan: Vec<EcWrite> = Vec::new();
        plan.push(EcWrite { register: REG_CPU_FAN_MODE, value: VAL_CPU_FAN_AUTO });
        plan.push(EcWrite { register: REG_GPU_FAN_MODE, value: VAL_GPU_FAN_AUTO });
        plan.push(EcWrite { register: REG_MANUAL_CONTROL, value: VAL_MANUAL_CONTROL_DISABLE });
        assert(plan@ =~= spec_auto_plan());
        self.apply_plan(&plan)
    }

    /// Writes both fan targets, CPU first, after validating each against the
    /// 0-100 range; an out-of-range value is rejected with no hardware write.
    pub fn set_fan_speeds(&mut self, cpu_speed: u8, gpu_speed: u8) -> (r: Result<(), EcError>)
        requires
            old(self).wf(),
        ensures
            final(self).wf(),
            final(self).spec_faults() == old(self).spec_faults(),
            cpu_speed > 100 ==> r == Err::<(), EcError>(EcError::InvalidSpeed(cpu_speed))
                && final(self).log@ == old(self).log@ && final(self).regs@ == old(self).regs@,
            cpu_speed <= 100 && gpu_speed > 100 ==> r == Err::<(), EcError>(
                EcError::InvalidSpeed(gpu_speed),
            ) && final(self).log@ == old(self).log@ && final(self).regs@ == old(self).regs@,
            cpu_speed <= 100 && gpu_speed <= 100 ==> ({
                let plan = spec_speed_plan(cpu_speed, gpu_speed);
                let k = old(self).spec_applied_count(plan);
                final(self).log@ == old(self).log@ + plan.take(k) && final(self).regs@
                    == spec_regs_after(old(self).regs@, plan.take(k)) && (k == 2 ==> r == Ok::<
                    (),
                    EcError,
                >(())) && (k < 2 ==> r == Err::<(), EcError>(EcError::WriteFailed))
            }),
    {
        let cpu = match validate_fan_speed(cpu_speed) {
            Ok(v) => v,
            Err(e) => {
                return Err(e);
            },
        };
        let gpu = match validate_fan_speed(gpu_speed) {
            Ok(v) => v,
            Err(e) => {
                return Err(e);
            },
        };
        let mut plan: Vec<EcWrite> = Vec::new();
        plan.push(EcWrite { register: REG_CPU_FAN_WRITE, value: cpu });
        plan.push(EcWrite { register: REG_GPU_FAN_WRITE, value: gpu });
        assert(plan@ =~= spec_speed_plan(cpu_speed, gpu_speed));
        self.apply_plan(&plan)
    }

    /// Reads the live CPU and GPU fan values from the read registers; the
    /// answer is hardware truth, not the last requested target.
    pub fn get_fan_speeds(&self) -> (r: Result<(u8, u8), EcError>)
        requires
            self.wf(),
        ensures
            self.fail_reads ==> r == Err::<(u8, u8), EcError>(EcError::ReadFailed),
            !self.fail_reads ==> r == Ok::<(u8, u8), EcError>(
                (self.regs@[REG_CPU_FAN_READ as int], self.regs@[REG_GPU_FAN_READ as int]),
            ),
    {
        let cpu = match self.read_register(REG_CPU_FAN_READ) {
            Ok(v) => v,
            Err(e) => {
                return Err(e);
            },
        };
        let gpu = match self.read_register(REG_GPU_FAN_READ) {
            Ok(v) => v,
            Err(e) => {
                return Err(e);
            },
        };
        Ok((cpu, gpu))
    }
}

} // verus!
