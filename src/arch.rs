use vstd::prelude::*;

use crate::cell::Cell;
use crate::error::{HvError, HvResult};

verus! {

/// General-purpose registers of the guest, saved at the top of the
/// hypervisor stack on each trap.
#[derive(Debug, Clone, Copy, PartialEq, Eq, Structural)]
pub struct GuestRegisters {
    pub rax: u64,
    pub rcx: u64,
    pub rdx: u64,
    pub rbx: u64,
    pub rbp: u64,
    pub rsi: u64,
    pub rdi: u64,
    pub r8: u64,
    pub r9: u64,
    pub r10: u64,
    pub r11: u64,
    pub r12: u64,
    pub r13: u64,
    pub r14: u64,
    pub r15: u64,
}

impl GuestRegisters {
    /// All registers cleared.
    pub fn zeroed() -> (r: GuestRegisters)
        ensures
            r == (GuestRegisters {
                rax: 0,
                rcx: 0,
                rdx: 0,
                rbx: 0,
                rbp: 0,
                rsi: 0,
                rdi: 0,
                r8: 0,
                r9: 0,
                r10: 0,
                r11: 0,
                r12: 0,
                r13: 0,
                r14: 0,
                r15: 0,
            }),
    {
        GuestRegisters {
            rax: 0,
            rcx: 0,
            rdx: 0,
            rbx: 0,
            rbp: 0,
            rsi: 0,
            rdi: 0,
            r8: 0,
            r9: 0,
            r10: 0,
            r11: 0,
            r12: 0,
            r13: 0,
            r14: 0,
            r15: 0,
        }
    }

    /// The value the interrupted code observes as the result of its request.
    pub open spec fn spec_return_value(self) -> u64 {
        self.rax
    }

    /// Sets the value the interrupted code observes as its result.
    pub fn set_return(&mut self, value: u64)
        ensures
            *final(self) == (GuestRegisters { rax: value, ..*old(self) }),
    {
        self.rax = value;
    }

    /// The value the interrupted code observes as its result.
    pub fn return_value(&self) -> (r: u64)
        ensures
            r == self.spec_return_value(),
    {
        self.rax
    }
}

/// Snapshot of the host's execution environment, taken when the core
/// entered the hypervisor.
#[derive(Debug, Clone, Copy, PartialEq, Eq, Structural)]
pub struct LinuxContext {
    /// The host stack pointer at the moment of entry.
    pub rsp: u64,
}

impl LinuxContext {
    /// Captures the host context from the host stack pointer.
    pub fn load_from(linux_sp: u64) -> (r: LinuxContext)
        ensures
            r.rsp == linux_sp,
    {
        LinuxContext { rsp: linux_sp }
    }

    /// Restores the host environment; returns the stack pointer on which the
    /// host resumes.
    pub fn restore(&self) -> (r: u64)
        ensures
            r == self.rsp,
    {
        self.rsp
    }
}

/// The virtualization engine of one core.
#[derive(Debug, Clone, Copy, PartialEq, Eq, Structural)]
pub struct Vcpu {
    /// Host stack pointer the engine returns to on deactivation.
    pub host_rsp: u64,
    /// Whether the engine is currently running the guest.
    pub launched: bool,
    /// Number of faults forwarded into the guest so far.
    pub injected_faults: u64,
    /// The value handed to the host as the result of its request on the
    /// last switch back.
    pub host_return: u64,
}

impl Vcpu {
    /// Builds the engine from the saved host context; fails with
    /// `EngineConstructionFailed` when the hardware lacks support.
    pub fn new(linux: &LinuxContext, cell: &Cell) -> (r: Result<Vcpu, HvError>)
        ensures
            cell.virt_supported ==> r == Ok::<Vcpu, HvError>(
                Vcpu { host_rsp: linux.rsp, launched: false, injected_faults: 0, host_return: 0 },
            ),
            !cell.virt_supported ==> r == Err::<Vcpu, HvError>(HvError::EngineConstructionFailed),
    {
        if cell.virt_supported {
            Ok(Vcpu { host_rsp: linux.rsp, launched: false, injected_faults: 0, host_return: 0 })
        } else {
            Err(HvError::EngineConstructionFailed)
        }
    }

    /// Switches the core into guest execution. This switch does not return
    /// to its caller, so there is no success value: the engine refuses with
    /// `EngineOperationFailed` when the guest already runs, and otherwise
    /// enters the guest and answers `EngineReturned` should control ever
    /// come back here.
    pub fn activate_vmm(&mut self, linux: &LinuxContext) -> (r: HvError)
        ensures
            old(self).launched ==> r == HvError::EngineOperationFailed && *final(self) == *old(self),
            !old(self).launched ==> r == HvError::EngineReturned && *final(self) == (Vcpu {
                launched: true,
                host_rsp: linux.rsp,
                ..*old(self)
            }),
    {
        if self.launched {
            HvError::EngineOperationFailed
        } else {
            self.launched = true;
            self.host_rsp = linux.rsp;
            HvError::EngineReturned
        }
    }

    /// Quiesces the engine before teardown; fails with
    /// `EngineOperationFailed` when the guest is not running.
    pub fn exit(&mut self) -> (r: HvResult)
        ensures
            r is Ok <==> old(self).launched,
            r is Err ==> r == Err::<(), HvError>(HvError::EngineOperationFailed) && *final(self) == *old(self),
            r is Ok ==> *final(self) == (Vcpu { launched: false, ..*old(self) }),
    {
        if self.launched {
            self.launched = false;
            Ok(())
        } else {
            Err(HvError::EngineOperationFailed)
        }
    }

    /// Switches the core back to the host, resuming on the stack of `linux`
    /// with the return value held in `regs`. This switch does not return to
    /// its caller: the engine refuses with `EngineOperationFailed` while the
    /// guest still runs, and otherwise hands over and answers
    /// `EngineReturned` should control ever come back here.
    pub fn deactivate_vmm(&mut self, linux: &LinuxContext, regs: &GuestRegisters) -> (r: HvError)
        ensures
            old(self).launched ==> r == HvError::EngineOperationFailed && *final(self) == *old(self),
            !old(self).launched ==> r == HvError::EngineReturned && *final(self) == (Vcpu {
                host_rsp: linux.rsp,
                host_return: regs.rax,
                ..*old(self)
            }),
    {
        if self.launched {
            HvError::EngineOperationFailed
        } else {
            self.host_rsp = linux.rsp;
            self.host_return = regs.rax;
            HvError::EngineReturned
        }
    }

    /// Forwards a synthetic fault into the guest; fails with
    /// `EngineOperationFailed` when the guest is not running or the fault
    /// count is exhausted.
    pub fn inject_fault(&mut self) -> (r: HvResult)
        ensures
            r is Ok <==> old(self).launched && old(self).injected_faults < u64::MAX,
            r is Err ==> r == Err::<(), HvError>(HvError::EngineOperationFailed) && *final(self) == *old(self),
            r is Ok ==> *final(self) == (Vcpu {
                injected_faults: (old(self).injected_faults + 1) as u64,
                ..*old(self)
            }),
    {
        if self.launched && self.injected_faults < u64::MAX {
            self.injected_faults = self.injected_faults + 1;
            Ok(())
        } else {
            Err(HvError::EngineOperationFailed)
        }
    }
}

/// Guest-side view of a core: its saved registers and its engine.
#[derive(Debug, Clone, Copy, PartialEq, Eq, Structural)]
pub struct VcpuGuestState {
    pub regs: GuestRegisters,
    pub vcpu: Vcpu,
}

} // verus!
