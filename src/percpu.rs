use vstd::prelude::*;

use crate::arch::{GuestRegisters, LinuxContext, Vcpu, VcpuGuestState};
use crate::cell::Cell;
use crate::consts::{
    spec_virt_to_phys, virt_to_phys, HV_STACK_SIZE, LOCAL_PER_CPU_BASE, PAGE_SIZE, PER_CPU_SIZE,
    PHYS_VIRT_OFFSET, STACK_OFFSET,
};
use crate::error::{HvError, HvResult};
use crate::memory::{fits, translates, MemFlags, MemoryRegion, MemorySet};
use vstd::arithmetic::div_mod::{
    lemma_div_multiples_vanish, lemma_fundamental_div_mod, lemma_mod_multiples_basic,
};

verus! {

/// Whether the virtualization resources of a block are valid.
#[derive(Debug, Clone, Copy, PartialEq, Eq, Structural)]
pub enum CpuState {
    HvDisabled,
    HvEnabled,
}

/// One hardware-visible operation performed on a core, in the order it ran.
#[derive(Debug, Clone, Copy, PartialEq, Eq, Structural)]
pub enum Step {
    /// The core's private address space was installed as current.
    InstallAddressSpace,
    /// The stack pointer was rebased from the natural window to the alias window.
    StackToAlias,
    /// The natural mapping of the block was deleted.
    UnmapNatural,
    /// The address-translation caches were flushed.
    FlushTlb,
    /// The engine was asked to enter the guest.
    EnterGuest,
    /// The natural mapping of the block was inserted again.
    MapNatural,
    /// The stack pointer was rebased from the alias window to the natural window.
    StackToNatural,
    /// The engine was asked to quiesce.
    EngineExit,
    /// The saved host context was restored.
    RestoreHost,
    /// The lifecycle state was set back to disabled.
    Disable,
    /// The return code for the host was written into the saved registers.
    SetReturn,
    /// The engine was asked to return to the host.
    ReturnToHost,
}

/// Read and write, no execute.
pub open spec fn rw_flags() -> MemFlags {
    MemFlags { read: true, write: true, execute: false }
}

/// The mapping of a block at its natural address `vaddr`.
pub open spec fn natural_region(vaddr: u64) -> MemoryRegion {
    MemoryRegion { start: vaddr, phys: spec_virt_to_phys(vaddr), size: PER_CPU_SIZE, flags: rw_flags() }
}

/// The mapping of the block whose natural address is `vaddr` at the local alias.
pub open spec fn alias_region(vaddr: u64) -> MemoryRegion {
    MemoryRegion {
        start: LOCAL_PER_CPU_BASE,
        phys: spec_virt_to_phys(vaddr),
        size: PER_CPU_SIZE,
        flags: rw_flags(),
    }
}

/// A block may live at `vaddr`: page aligned, inside the linear map, with
/// room for the whole block.
pub open spec fn valid_block_addr(vaddr: u64) -> bool {
    &&& vaddr % PAGE_SIZE == 0
    &&& vaddr >= PHYS_VIRT_OFFSET
    &&& vaddr + PER_CPU_SIZE <= u64::MAX
}

proof fn lemma_regions_wf(vaddr: u64)
    requires
        valid_block_addr(vaddr),
    ensures
        natural_region(vaddr).wf(),
        alias_region(vaddr).wf(),
        !natural_region(vaddr).overlaps(alias_region(vaddr)),
        !alias_region(vaddr).overlaps(natural_region(vaddr)),
        natural_region(vaddr) != alias_region(vaddr),
{
}

/// `post` is `pre` after the activation protocol: the stack is addressed
/// through the alias, the natural mapping is gone, the engine runs the guest,
/// and the steps ran in this order.
pub open spec fn activation(pre: PerCpu, post: PerCpu) -> bool {
    &&& post.cpu_id == pre.cpu_id
    &&& post.state == pre.state
    &&& post.vaddr == pre.vaddr
    &&& post.regs == pre.regs
    &&& post.linux == pre.linux
    &&& post.sp_base == LOCAL_PER_CPU_BASE
    &&& post.vcpu == Some(Vcpu { launched: true, host_rsp: pre.linux.rsp, ..pre.vcpu.unwrap() })
    &&& post.hvm is Some
    &&& post.hvm.unwrap()@ == pre.hvm.unwrap()@.remove(natural_region(pre.vaddr))
    &&& post.trace@ == pre.trace@ + seq![
        Step::StackToAlias,
        Step::UnmapNatural,
        Step::FlushTlb,
        Step::EnterGuest,
    ]
}

/// `post` is `pre` after the deactivation protocol with return code `ret`:
/// the return code is recorded, the natural mapping is back, the stack is addressed through it again, the
/// engine has stopped, the block is disabled, and the steps ran in this order.
pub open spec fn deactivation(pre: PerCpu, post: PerCpu, ret: u64) -> bool {
    &&& post.cpu_id == pre.cpu_id
    &&& post.state == CpuState::HvDisabled
    &&& post.vaddr == pre.vaddr
    &&& post.regs == (GuestRegisters { rax: ret, ..pre.regs })
    &&& post.linux == pre.linux
    &&& post.sp_base == pre.vaddr
    &&& post.vcpu == Some(
        Vcpu { launched: false, host_rsp: pre.linux.rsp, host_return: ret, ..pre.vcpu.unwrap() },
    )
    &&& post.hvm is Some
    &&& post.hvm.unwrap()@ == pre.hvm.unwrap()@.insert(natural_region(pre.vaddr))
    &&& post.trace@ == pre.trace@ + seq![
        Step::SetReturn,
        Step::MapNatural,
        Step::FlushTlb,
        Step::StackToNatural,
        Step::EngineExit,
        Step::RestoreHost,
        Step::Disable,
        Step::ReturnToHost,
    ]
}

/// The process-wide count of cores under hypervisor control.
pub struct ActivationCounter {
    pub count: usize,
}

impl ActivationCounter {
    /// A counter at zero.
    pub fn new() -> (r: ActivationCounter)
        ensures
            r.count == 0,
    {
        ActivationCounter { count: 0 }
    }

    /// The current count.
    pub fn get(&self) -> (r: usize)
        ensures
            r == self.count,
    {
        self.count
    }
}

/// The control block of one physical core.
pub struct PerCpu {
    /// Identity of the core, recorded by `init`.
    pub cpu_id: usize,
    /// Whether the engine and the address space are valid.
    pub state: CpuState,
    /// The virtualization engine, built once by `init`.
    pub vcpu: Option<Vcpu>,
    /// Natural address of this block in the boot-time table.
    pub vaddr: u64,
    /// The virtual window through which the private stack is addressed.
    pub sp_base: u64,
    /// Guest registers saved at the top of the private stack.
    pub regs: GuestRegisters,
    /// The host context saved when the core entered the hypervisor.
    pub linux: LinuxContext,
    /// The core's private clone of the domain's address space, built once by `init`.
    pub hvm: Option<MemorySet>,
    /// The hardware-visible operations performed on this core so far.
    pub trace: Vec<Step>,
}

/// Diagnostic snapshot of a block.
#[derive(Debug, Clone, Copy, PartialEq, Eq, Structural)]
pub enum PerCpuDump {
    /// An enabled block shows its guest-side state.
    Enabled { cpu_id: usize, guest: VcpuGuestState },
    /// A disabled block shows the saved host context.
    Disabled { cpu_id: usize, linux: LinuxContext },
}

/// The boot-time table: one block per core, block `i` at natural address
/// `base + i * PER_CPU_SIZE`.
pub struct PerCpuTable {
    pub base: u64,
    pub cpus: Vec<PerCpu>,
}

/// Natural address of block `i` of a table based at `base`.
pub open spec fn natural_addr(base: u64, i: int) -> int {
    base + i * PER_CPU_SIZE
}

impl PerCpuTable {
    /// Every block sits at its natural address and keeps its invariant, and
    /// an initialized block carries the identity of its slot.
    pub open spec fn wf(&self) -> bool {
        &&& self.base >= PHYS_VIRT_OFFSET
        &&& self.base % PAGE_SIZE == 0
        &&& natural_addr(self.base, self.cpus@.len() as int) <= u64::MAX
        &&& forall|i: int|
            0 <= i < self.cpus@.len() ==> {
                &&& (#[trigger] self.cpus@[i]).vaddr == natural_addr(self.base, i)
                &&& self.cpus@[i].inv()
                &&& (self.cpus@[i].vcpu is Some ==> self.cpus@[i].cpu_id == i)
            }
    }

    /// A table of `max_cpus` blocks at `base`, none of them initialized.
    pub fn new(base: u64, max_cpus: usize) -> (r: PerCpuTable)
        requires
            base >= PHYS_VIRT_OFFSET,
            base % PAGE_SIZE == 0,
            natural_addr(base, max_cpus as int) <= u64::MAX,
        ensures
            r.wf(),
            r.base == base,
            r.cpus@.len() == max_cpus,
            forall|i: int|
                0 <= i < max_cpus ==> (#[trigger] r.cpus@[i]).is_fresh() && r.cpus@[i].state
                    == CpuState::HvDisabled,
    {
        let mut cpus: Vec<PerCpu> = Vec::new();
        let mut i: usize = 0;
        let mut addr: u64 = base;
        while i < max_cpus
            invariant
                i <= max_cpus,
                base >= PHYS_VIRT_OFFSET,
                base % PAGE_SIZE == 0,
                natural_addr(base, max_cpus as int) <= u64::MAX,
                i < max_cpus ==> addr == natural_addr(base, i as int),
                addr % PAGE_SIZE == 0,
                cpus@.len() == i,
                forall|k: int|
                    0 <= k < i ==> {
                        &&& (#[trigger] cpus@[k]).vaddr == natural_addr(base, k)
                        &&& cpus@[k].inv()
                        &&& cpus@[k].is_fresh()
                        &&& cpus@[k].state == CpuState::HvDisabled
                    },
            decreases max_cpus - i,
        {
            proof {
                assert(natural_addr(base, i as int + 1) <= natural_addr(base, max_cpus as int)) by (nonlinear_arith)
                    requires
                        i < max_cpus,
                ;
            }
            cpus.push(PerCpu::new(addr));
            i = i + 1;
            if i < max_cpus {
                proof {
                    assert(natural_addr(base, i as int) < natural_addr(base, max_cpus as int)) by (nonlinear_arith)
                        requires
                            i < max_cpus,
                    ;
                }
                addr = addr + PER_CPU_SIZE;
            }
        }
        PerCpuTable { base, cpus }
    }

    /// Initializes the block of core `cpu_id` through the table: an id not
    /// below the number of cores the table holds is refused with
    /// `InvalidCpuId` and leaves the table unchanged; otherwise the block in
    /// slot `cpu_id` is initialized as `PerCpu::init` does.
    pub fn init_cpu(&mut self, cpu_id: usize, linux_sp: u64, cell: &Cell) -> (r: HvResult)
        requires
            old(self).wf(),
            cell.wf(),
            cpu_id < old(self).cpus@.len() ==> old(self).cpus@[cpu_id as int].is_fresh(),
        ensures
            final(self).wf(),
            final(self).base == old(self).base,
            final(self).cpus@.len() == old(self).cpus@.len(),
            cpu_id >= old(self).cpus@.len() ==> r == Err::<(), HvError>(HvError::InvalidCpuId)
                && final(self).cpus@ == old(self).cpus@,
            cpu_id < old(self).cpus@.len() ==> {
                let home = old(self).cpus@[cpu_id as int].vaddr;
                let b = final(self).cpus@[cpu_id as int];
                &&& forall|i: int|
                    0 <= i < old(self).cpus@.len() && i != cpu_id ==> #[trigger] final(self).cpus@[i]
                        == old(self).cpus@[i]
                &&& b.cpu_id == cpu_id
                &&& b.linux == (LinuxContext { rsp: linux_sp })
                &&& (r is Ok <==> fits(cell.hvm@, natural_region(home)) && fits(
                    cell.hvm@,
                    alias_region(home),
                ) && cell.virt_supported)
                &&& (!fits(cell.hvm@, natural_region(home)) || !fits(cell.hvm@, alias_region(home)) ==> r
                    == Err::<(), HvError>(HvError::MappingConflict))
                &&& (fits(cell.hvm@, natural_region(home)) && fits(cell.hvm@, alias_region(home))
                    && !cell.virt_supported ==> r == Err::<(), HvError>(
                    HvError::EngineConstructionFailed,
                ))
                &&& (r is Ok ==> b.state == CpuState::HvEnabled && b.hvm is Some && b.hvm.unwrap()@
                    == cell.hvm@.insert(natural_region(home)).insert(alias_region(home)))
                &&& (r is Err ==> b.state == CpuState::HvDisabled && b.vcpu is None)
            },
    {
        if cpu_id >= self.cpus.len() {
            return Err(HvError::InvalidCpuId);
        }
        let cpu = &mut self.cpus[cpu_id];
        cpu.init(cpu_id, linux_sp, cell)
    }

    /// Number of cores the table was sized for.
    pub fn max_cpus(&self) -> (r: usize)
        ensures
            r == self.cpus@.len(),
    {
        self.cpus.len()
    }
}

impl PerCpu {
    /// Neither the engine nor the address space has been built.
    pub open spec fn is_fresh(&self) -> bool {
        self.vcpu is None && self.hvm is None
    }

    /// Facts that hold of an initialized block between protocol runs.
    pub open spec fn live(&self) -> bool {
        let h = self.hvm.unwrap();
        let v = self.vcpu.unwrap();
        let n = natural_region(self.vaddr);
        &&& h.wf()
        &&& h@.contains(alias_region(self.vaddr))
        &&& (self.sp_base == self.vaddr || self.sp_base == LOCAL_PER_CPU_BASE)
        &&& (self.sp_base == self.vaddr ==> h@.contains(n) && fits(h@.remove(n), n))
        &&& (v.launched <==> self.sp_base == LOCAL_PER_CPU_BASE)
        &&& (self.sp_base == LOCAL_PER_CPU_BASE ==> self.state == CpuState::HvEnabled)
    }

    /// Invariant of every block.
    pub open spec fn inv(&self) -> bool {
        &&& valid_block_addr(self.vaddr)
        &&& (self.vcpu is None ==> self.state == CpuState::HvDisabled && self.sp_base == self.vaddr)
        &&& (self.vcpu is Some ==> self.hvm is Some && self.live())
    }

    /// A block that has not been initialized, at natural address `vaddr`.
    pub fn new(vaddr: u64) -> (r: PerCpu)
        requires
            valid_block_addr(vaddr),
        ensures
            r.inv(),
            r.is_fresh(),
            r.vaddr == vaddr,
            r.sp_base == vaddr,
            r.cpu_id == 0,
            r.state == CpuState::HvDisabled,
            r.linux == (LinuxContext { rsp: 0 }),
            r.regs.spec_return_value() == 0,
            r.trace@.len() == 0,
    {
        PerCpu {
            cpu_id: 0,
            state: CpuState::HvDisabled,
            vcpu: None,
            vaddr,
            sp_base: vaddr,
            regs: GuestRegisters::zeroed(),
            linux: LinuxContext::load_from(0),
            hvm: None,
            trace: Vec::new(),
        }
    }

    /// The block of core `cpu_id`, found through the boot-time table; `None`
    /// when `cpu_id` is not below the number of cores the table was sized for.
    pub fn from_id(table: &PerCpuTable, cpu_id: usize) -> (r: Option<&PerCpu>)
        ensures
            r is Some <==> cpu_id < table.cpus@.len(),
            r matches Some(b) ==> *b == table.cpus@[cpu_id as int],
    {
        if cpu_id < table.cpus.len() {
            Some(&table.cpus[cpu_id])
        } else {
            None
        }
    }

    /// Mutable access to the block of core `cpu_id`; `None` when `cpu_id` is
    /// not below the number of cores the table was sized for.
    pub fn from_id_mut(table: &mut PerCpuTable, cpu_id: usize) -> (r: Option<&mut PerCpu>)
        ensures
            r is Some <==> cpu_id < old(table).cpus@.len(),
            r matches Some(b) ==> *b == old(table).cpus@[cpu_id as int] && final(table).cpus@
                == old(table).cpus@.update(cpu_id as int, *final(b)),
            final(table).base == old(table).base,
            r is None ==> final(table).cpus@ == old(table).cpus@,
    {
        if cpu_id < table.cpus.len() {
            Some(&mut table.cpus[cpu_id])
        } else {
            None
        }
    }

    /// The block that the local alias reaches through the address space
    /// `space`: the alias is translated to a physical address, which names
    /// the table's block at that address.
    pub fn from_local_base<'a>(table: &'a PerCpuTable, space: &MemorySet) -> (r: Option<&'a PerCpu>)
        requires
            table.wf(),
            space.wf(),
        ensures
            r matches Some(b) ==> exists|i: int|
                0 <= i < table.cpus@.len() && *b == table.cpus@[i] && translates(
                    space@,
                    LOCAL_PER_CPU_BASE as int,
                    spec_virt_to_phys(#[trigger] table.cpus@[i].vaddr) as int,
                ),
            forall|i: int|
                0 <= i < table.cpus@.len() && space@.contains(
                    alias_region(#[trigger] table.cpus@[i].vaddr),
                ) ==> (r matches Some(b) && *b == table.cpus@[i]),
    {
        match Self::local_index(table, space) {
            Some(i) => Some(&table.cpus[i]),
            None => None,
        }
    }

    /// Mutable access to the block that the local alias reaches through the
    /// address space `space`.
    pub fn from_local_base_mut<'a>(table: &'a mut PerCpuTable, space: &MemorySet) -> (r: Option<
        &'a mut PerCpu,
    >)
        requires
            old(table).wf(),
            space.wf(),
        ensures
            r matches Some(b) ==> exists|i: int|
                0 <= i < old(table).cpus@.len() && *b == old(table).cpus@[i] && translates(
                    space@,
                    LOCAL_PER_CPU_BASE as int,
                    spec_virt_to_phys(#[trigger] old(table).cpus@[i].vaddr) as int,
                ) && final(table).cpus@ == old(table).cpus@.update(i, *final(b)),
            forall|i: int|
                0 <= i < old(table).cpus@.len() && space@.contains(
                    alias_region(#[trigger] old(table).cpus@[i].vaddr),
                ) ==> (r matches Some(b) && *b == old(table).cpus@[i]),
            final(table).base == old(table).base,
            r is None ==> final(table).cpus@ == old(table).cpus@,
    {
        match Self::local_index(table, space) {
            Some(i) => Some(&mut table.cpus[i]),
            None => None,
        }
    }

    /// Index of the block that the local alias reaches through `space`.
    fn local_index(table: &PerCpuTable, space: &MemorySet) -> (r: Option<usize>)
        requires
            table.wf(),
            space.wf(),
        ensures
            r matches Some(i) ==> i < table.cpus@.len() && translates(
                space@,
                LOCAL_PER_CPU_BASE as int,
                spec_virt_to_phys(table.cpus@[i as int].vaddr) as int,
            ),
            forall|i: int|
                0 <= i < table.cpus@.len() && space@.contains(
                    alias_region(#[trigger] table.cpus@[i].vaddr),
                ) ==> r == Some(i as usize),
    {
        proof {
            space.lemma_wf_regions();
            assert forall|i: int|
                0 <= i < table.cpus@.len() && space@.contains(
                    alias_region(#[trigger] table.cpus@[i].vaddr),
                ) implies alias_region(table.cpus@[i].vaddr).covers(LOCAL_PER_CPU_BASE as int) by {}
        }
        let found = space.translate(LOCAL_PER_CPU_BASE);
        let paddr = match found {
            Some(p) => p,
            None => return None,
        };
        proof {
            assert forall|i: int|
                0 <= i < table.cpus@.len() && space@.contains(
                    alias_region(#[trigger] table.cpus@[i].vaddr),
                ) implies paddr == spec_virt_to_phys(table.cpus@[i].vaddr) by {
                let a = alias_region(table.cpus@[i].vaddr);
                let q = choose|q: MemoryRegion|
                    #[trigger] space@.contains(q) && q.covers(LOCAL_PER_CPU_BASE as int) && paddr
                        == q.phys + (LOCAL_PER_CPU_BASE - q.start);
                if q != a {
                    assert(q.overlaps(a));
                }
            }
        }
        if paddr > u64::MAX - PHYS_VIRT_OFFSET {
            return None;
        }
        let vaddr = paddr + PHYS_VIRT_OFFSET;
        if vaddr < table.base {
            return None;
        }
        let off = vaddr - table.base;
        let idx = off / PER_CPU_SIZE;
        if off % PER_CPU_SIZE != 0 || idx >= table.cpus.len() as u64 {
            proof {
                assert forall|i: int|
                    0 <= i < table.cpus@.len() && space@.contains(
                        alias_region(#[trigger] table.cpus@[i].vaddr),
                    ) implies false by {
                    assert(off == i * PER_CPU_SIZE);
                    lemma_mod_multiples_basic(i, PER_CPU_SIZE as int);
                    lemma_div_multiples_vanish(i, PER_CPU_SIZE as int);
                    assert(PER_CPU_SIZE * i == i * PER_CPU_SIZE) by (nonlinear_arith);
                }
            }
            return None;
        }
        proof {
            lemma_fundamental_div_mod(off as int, PER_CPU_SIZE as int);
            assert(table.cpus@[idx as int].vaddr == vaddr);
            assert forall|i: int|
                0 <= i < table.cpus@.len() && space@.contains(
                    alias_region(#[trigger] table.cpus@[i].vaddr),
                ) implies i == idx by {
                assert(off == i * PER_CPU_SIZE);
                lemma_div_multiples_vanish(i, PER_CPU_SIZE as int);
                assert(PER_CPU_SIZE * i == i * PER_CPU_SIZE) by (nonlinear_arith);
            }
        }
        Some(idx as usize)
    }

    /// Records identity, saves the host context, clones the domain's address
    /// space with the block mapped at its natural address and at the local
    /// alias, installs it, and builds the engine.
    pub fn init(&mut self, cpu_id: usize, linux_sp: u64, cell: &Cell) -> (r: HvResult)
        requires
            old(self).inv(),
            old(self).is_fresh(),
            cell.wf(),
        ensures
            final(self).inv(),
            final(self).cpu_id == cpu_id,
            final(self).vaddr == old(self).vaddr,
            final(self).linux == (LinuxContext { rsp: linux_sp }),
            final(self).regs == old(self).regs,
            r is Ok <==> fits(cell.hvm@, natural_region(old(self).vaddr)) && fits(
                cell.hvm@,
                alias_region(old(self).vaddr),
            ) && cell.virt_supported,
            !fits(cell.hvm@, natural_region(old(self).vaddr)) || !fits(
                cell.hvm@,
                alias_region(old(self).vaddr),
            ) ==> r == Err::<(), HvError>(HvError::MappingConflict),
            fits(cell.hvm@, natural_region(old(self).vaddr)) && fits(
                cell.hvm@,
                alias_region(old(self).vaddr),
            ) && !cell.virt_supported ==> r == Err::<(), HvError>(HvError::EngineConstructionFailed),
            r is Err ==> final(self).state == CpuState::HvDisabled && final(self).vcpu is None,
            r is Ok ==> {
                &&& final(self).state == CpuState::HvEnabled
                &&& final(self).vcpu == Some(
                    Vcpu { host_rsp: linux_sp, launched: false, injected_faults: 0, host_return: 0 },
                )
                &&& final(self).hvm is Some
                &&& final(self).hvm.unwrap()@ == cell.hvm@.insert(
                    natural_region(old(self).vaddr),
                ).insert(alias_region(old(self).vaddr))
                &&& final(self).sp_base == old(self).vaddr
                &&& final(self).trace@ == old(self).trace@.push(Step::InstallAddressSpace)
            },
    {
        self.cpu_id = cpu_id;
        self.state = CpuState::HvDisabled;
        self.linux = LinuxContext::load_from(linux_sp);

        let mut hvm = cell.hvm.duplicate();
        let vaddr = self.vaddr;
        let paddr = virt_to_phys(vaddr);
        let ghost n = natural_region(vaddr);
        let ghost a = alias_region(vaddr);
        proof {
            lemma_regions_wf(vaddr);
        }
        hvm.insert(
            MemoryRegion::new_with_offset_mapper(vaddr, paddr, PER_CPU_SIZE, MemFlags::read_write()),
        )?;
        let ghost with_natural = hvm@;
        let res = hvm.insert(
            MemoryRegion::new_with_offset_mapper(
                LOCAL_PER_CPU_BASE,
                paddr,
                PER_CPU_SIZE,
                MemFlags::read_write(),
            ),
        );
        proof {
            if !fits(cell.hvm@, a) {
                let q = choose|q: MemoryRegion| #[trigger] cell.hvm@.contains(q) && q.overlaps(a);
                assert(with_natural.contains(q));
            }
            if fits(cell.hvm@, a) {
                assert forall|q: MemoryRegion| #[trigger] with_natural.contains(q) implies !q.overlaps(a) by {
                    if q != n {
                        assert(cell.hvm@.contains(q));
                    }
                }
            }
        }
        if res.is_err() {
            return res;
        }
        self.hvm = Some(hvm);
        self.trace.push(Step::InstallAddressSpace);
        let vcpu = Vcpu::new(&self.linux, cell)?;
        self.vcpu = Some(vcpu);
        self.state = CpuState::HvEnabled;
        proof {
            let h = self.hvm.unwrap();
            assert(h@ == cell.hvm@.insert(n).insert(a));
            assert forall|q: MemoryRegion| #[trigger] h@.remove(n).contains(q) implies !q.overlaps(n) by {
                if q != a {
                    assert(cell.hvm@.contains(q));
                }
            }
        }
        Ok(())
    }

    /// Moves the core from host to guest execution: counts the activation,
    /// rebases the stack onto the local alias, deletes the natural mapping,
    /// flushes, and hands the core to the engine. The hand-over does not
    /// return to its caller, so this never reports success: a return from
    /// the engine comes back as `EngineReturned`.
    pub fn activate_vmm(&mut self, counter: &mut ActivationCounter) -> (r: HvResult)
        requires
            old(self).inv(),
            old(self).state == CpuState::HvEnabled,
            old(self).sp_base == old(self).vaddr,
            old(counter).count < usize::MAX,
        ensures
            r == Err::<(), HvError>(HvError::EngineReturned),
            final(self).inv(),
            activation(*old(self), *final(self)),
            final(counter).count == old(counter).count + 1,
    {
        let ghost t0 = self.trace@;
        counter.count = counter.count + 1;
        let old_percpu_vaddr = self.vaddr;
        let ghost n = natural_region(old_percpu_vaddr);
        let ghost pre = self.hvm.unwrap()@;
        proof {
            lemma_regions_wf(old_percpu_vaddr);
            self.hvm.unwrap().lemma_wf_regions();
            assert(pre.contains(n));
        }
        // The alias names the same physical block: only the window changes.
        self.trace.push(Step::StackToAlias);
        self.sp_base = LOCAL_PER_CPU_BASE;
        self.trace.push(Step::UnmapNatural);
        let res = match &mut self.hvm {
            Some(h) => h.delete(old_percpu_vaddr),
            None => Err(HvError::MappingAbsent),
        };
        if res.is_err() {
            counter.count = counter.count - 1;
            return res;
        }
        proof {
            let post = self.hvm.unwrap()@;
            assert forall|q: MemoryRegion| #[trigger] post.contains(q) <==> pre.remove(n).contains(q) by {
                if pre.contains(q) && q != n && q.start == old_percpu_vaddr {
                    assert(pre.remove(n).contains(q));
                    assert(q.wf());
                    assert(q.overlaps(n));
                }
            }
            assert(post =~= pre.remove(n));
        }
        self.trace.push(Step::FlushTlb);
        let r = self.activate_vmm_local();
        proof {
            assert(self.trace@ =~= t0 + seq![
                Step::StackToAlias,
                Step::UnmapNatural,
                Step::FlushTlb,
                Step::EnterGuest,
            ]);
        }
        r
    }

    fn activate_vmm_local(&mut self) -> (r: HvResult)
        requires
            old(self).vcpu is Some,
        ensures
            old(self).vcpu.unwrap().launched ==> r == Err::<(), HvError>(HvError::EngineOperationFailed)
                && final(self).vcpu == old(self).vcpu,
            !old(self).vcpu.unwrap().launched ==> r == Err::<(), HvError>(HvError::EngineReturned)
                && final(self).vcpu == Some(
                Vcpu { launched: true, host_rsp: old(self).linux.rsp, ..old(self).vcpu.unwrap() },
            ),
            final(self).trace@ == old(self).trace@.push(Step::EnterGuest),
            final(self).cpu_id == old(self).cpu_id,
            final(self).state == old(self).state,
            final(self).vaddr == old(self).vaddr,
            final(self).sp_base == old(self).sp_base,
            final(self).regs == old(self).regs,
            final(self).linux == old(self).linux,
            final(self).hvm == old(self).hvm,
    {
        let linux = self.linux;
        self.trace.push(Step::EnterGuest);
        let e = match &mut self.vcpu {
            Some(v) => v.activate_vmm(&linux),
            None => HvError::EngineOperationFailed,
        };
        Err(e)
    }

    /// Moves the core from guest back to host execution: counts the
    /// deactivation, records `ret_code` for the host, maps the block at its
    /// natural address again, flushes, rebases the stack onto it, stops the
    /// engine, restores the host context, disables the block, and hands the
    /// core back to the host. When the natural mapping cannot be inserted the
    /// protocol stops there with `MappingConflict`, the count restored and the
    /// core still running under the alias. The hand-over does not return to
    /// its caller, so this never reports success: a return from the engine
    /// comes back as `EngineReturned`.
    pub fn deactivate_vmm(&mut self, counter: &mut ActivationCounter, ret_code: u64) -> (r: HvResult)
        requires
            old(self).inv(),
            old(self).sp_base == LOCAL_PER_CPU_BASE,
            old(counter).count > 0,
        ensures
            r is Err,
            final(self).inv(),
            fits(old(self).hvm.unwrap()@, natural_region(old(self).vaddr)) ==> {
                &&& r == Err::<(), HvError>(HvError::EngineReturned)
                &&& deactivation(*old(self), *final(self), ret_code)
                &&& final(counter).count == old(counter).count - 1
            },
            !fits(old(self).hvm.unwrap()@, natural_region(old(self).vaddr)) ==> {
                &&& r == Err::<(), HvError>(HvError::MappingConflict)
                &&& final(counter).count == old(counter).count
                &&& final(self).regs == (GuestRegisters { rax: ret_code, ..old(self).regs })
                &&& final(self).trace@ == old(self).trace@.push(Step::SetReturn)
                &&& final(self).state == old(self).state
                &&& final(self).sp_base == old(self).sp_base
                &&& final(self).vcpu == old(self).vcpu
                &&& final(self).hvm is Some
                &&& final(self).hvm.unwrap()@ == old(self).hvm.unwrap()@
                &&& final(self).linux == old(self).linux
                &&& final(self).cpu_id == old(self).cpu_id
                &&& final(self).vaddr == old(self).vaddr
            },
    {
        let ghost t0 = self.trace@;
        counter.count = counter.count - 1;
        self.trace.push(Step::SetReturn);
        self.guest_regs_mut().set_return(ret_code);

        let common_percpu_vaddr = self.vaddr;
        let paddr = virt_to_phys(common_percpu_vaddr);
        let ghost n = natural_region(common_percpu_vaddr);
        let ghost pre = self.hvm.unwrap()@;
        proof {
            lemma_regions_wf(common_percpu_vaddr);
        }
        let res = match &mut self.hvm {
            Some(h) => h.insert(
                MemoryRegion::new_with_offset_mapper(
                    common_percpu_vaddr,
                    paddr,
                    PER_CPU_SIZE,
                    MemFlags::read_write(),
                ),
            ),
            None => Err(HvError::MappingConflict),
        };
        if res.is_err() {
            counter.count = counter.count + 1;
            return res;
        }
        self.trace.push(Step::MapNatural);
        self.trace.push(Step::FlushTlb);
        self.trace.push(Step::StackToNatural);
        self.sp_base = common_percpu_vaddr;
        proof {
            let post = self.hvm.unwrap()@;
            assert(!pre.contains(n));
            assert(post.remove(n) =~= pre);
        }
        let r = self.deactivate_vmm_common();
        proof {
            assert(self.trace@ =~= t0 + seq![
                Step::SetReturn,
                Step::MapNatural,
                Step::FlushTlb,
                Step::StackToNatural,
                Step::EngineExit,
                Step::RestoreHost,
                Step::Disable,
                Step::ReturnToHost,
            ]);
        }
        r
    }

    fn deactivate_vmm_common(&mut self) -> (r: HvResult)
        requires
            old(self).vcpu is Some,
        ensures
            !old(self).vcpu.unwrap().launched ==> {
                &&& r == Err::<(), HvError>(HvError::EngineOperationFailed)
                &&& final(self).vcpu == old(self).vcpu
                &&& final(self).state == old(self).state
                &&& final(self).trace@ == old(self).trace@.push(Step::EngineExit)
            },
            old(self).vcpu.unwrap().launched ==> {
                &&& r == Err::<(), HvError>(HvError::EngineReturned)
                &&& final(self).vcpu == Some(
                    Vcpu {
                        launched: false,
                        host_rsp: old(self).linux.rsp,
                        host_return: old(self).regs.rax,
                        ..old(self).vcpu.unwrap()
                    },
                )
                &&& final(self).state == CpuState::HvDisabled
                &&& final(self).trace@ == old(self).trace@ + seq![
                    Step::EngineExit,
                    Step::RestoreHost,
                    Step::Disable,
                    Step::ReturnToHost,
                ]
            },
            final(self).cpu_id == old(self).cpu_id,
            final(self).vaddr == old(self).vaddr,
            final(self).sp_base == old(self).sp_base,
            final(self).regs == old(self).regs,
            final(self).linux == old(self).linux,
            final(self).hvm == old(self).hvm,
    {
        self.trace.push(Step::EngineExit);
        let res = match &mut self.vcpu {
            Some(v) => v.exit(),
            None => Err(HvError::EngineOperationFailed),
        };
        if res.is_err() {
            return res;
        }
        self.trace.push(Step::RestoreHost);
        let _host_sp = self.linux.restore();
        self.trace.push(Step::Disable);
        self.state = CpuState::HvDisabled;
        let linux = self.linux;
        let regs = self.regs;
        self.trace.push(Step::ReturnToHost);
        let e = match &mut self.vcpu {
            Some(v) => v.deactivate_vmm(&linux, &regs),
            None => HvError::EngineOperationFailed,
        };
        Err(e)
    }

    /// Forwards a synthetic fault into the guest; fails with
    /// `EngineOperationFailed` when there is no running guest to take it.
    pub fn fault(&mut self) -> (r: HvResult)
        ensures
            r is Ok <==> (old(self).vcpu matches Some(v) && v.launched && v.injected_faults < u64::MAX),
            r is Ok ==> final(self).vcpu == Some(
                Vcpu {
                    injected_faults: (old(self).vcpu.unwrap().injected_faults + 1) as u64,
                    ..old(self).vcpu.unwrap()
                },
            ),
            r is Err ==> r == Err::<(), HvError>(HvError::EngineOperationFailed) && final(self).vcpu
                == old(self).vcpu,
            final(self).cpu_id == old(self).cpu_id,
            final(self).state == old(self).state,
            final(self).vaddr == old(self).vaddr,
            final(self).sp_base == old(self).sp_base,
            final(self).regs == old(self).regs,
            final(self).linux == old(self).linux,
            final(self).hvm == old(self).hvm,
            final(self).trace == old(self).trace,
    {
        match &mut self.vcpu {
            Some(v) => v.inject_fault(),
            None => Err(HvError::EngineOperationFailed),
        }
    }

    /// Structured snapshot for diagnostics: identity and state, with the
    /// guest-side state when enabled and the saved host context otherwise.
    pub fn dump(&self) -> (r: PerCpuDump)
        ensures
            self.state == CpuState::HvEnabled && self.vcpu is Some ==> r == (PerCpuDump::Enabled {
                cpu_id: self.cpu_id,
                guest: VcpuGuestState { regs: self.regs, vcpu: self.vcpu.unwrap() },
            }),
            !(self.state == CpuState::HvEnabled && self.vcpu is Some) ==> r == (PerCpuDump::Disabled {
                cpu_id: self.cpu_id,
                linux: self.linux,
            }),
    {
        match (self.state, &self.vcpu) {
            (CpuState::HvEnabled, Some(_)) => PerCpuDump::Enabled {
                cpu_id: self.cpu_id,
                guest: self.guest_all_state(),
            },
            _ => PerCpuDump::Disabled { cpu_id: self.cpu_id, linux: self.linux },
        }
    }

    /// Top of the private stack, in the window it is currently addressed through.
    pub fn stack_top(&self) -> (r: u64)
        requires
            self.inv(),
        ensures
            r == self.sp_base + STACK_OFFSET + HV_STACK_SIZE,
    {
        self.sp_base + STACK_OFFSET + HV_STACK_SIZE
    }

    /// The guest registers saved at the top of the stack.
    pub fn guest_regs(&self) -> (r: &GuestRegisters)
        ensures
            *r == self.regs,
    {
        &self.regs
    }

    /// Mutable access to the guest registers saved at the top of the stack.
    pub fn guest_regs_mut(&mut self) -> (r: &mut GuestRegisters)
        ensures
            *r == old(self).regs,
            final(self).regs == *final(r),
            final(self).cpu_id == old(self).cpu_id,
            final(self).state == old(self).state,
            final(self).vcpu == old(self).vcpu,
            final(self).vaddr == old(self).vaddr,
            final(self).sp_base == old(self).sp_base,
            final(self).linux == old(self).linux,
            final(self).hvm == old(self).hvm,
            final(self).trace == old(self).trace,
    {
        &mut self.regs
    }

    /// Guest-side state of an initialized block.
    pub fn guest_all_state(&self) -> (r: VcpuGuestState)
        requires
            self.vcpu is Some,
        ensures
            r == (VcpuGuestState { regs: self.regs, vcpu: self.vcpu.unwrap() }),
    {
        VcpuGuestState { regs: self.regs, vcpu: self.vcpu.unwrap() }
    }

    /// Number of cores currently under hypervisor control.
    pub fn activated_cpus(counter: &ActivationCounter) -> (r: usize)
        ensures
            r == counter.count,
    {
        counter.get()
    }
}


/// On every initialized core the block's natural address is the table's
/// address for its recorded id, and the local alias and that natural address
/// name the same physical block: the core's address space maps the alias
/// onto the physical address of the table's block `cpu_id`, and whenever the
/// natural mapping is present it leads to that same physical address.
pub proof fn lemma_alias_matches_natural(table: &PerCpuTable, cpu_id: int)
    requires
        table.wf(),
        0 <= cpu_id < table.cpus@.len(),
        table.cpus@[cpu_id].vcpu is Some,
    ensures
        table.cpus@[cpu_id].cpu_id == cpu_id,
        table.cpus@[cpu_id].vaddr == natural_addr(table.base, table.cpus@[cpu_id].cpu_id as int),
        table.cpus@[cpu_id].hvm.unwrap()@.contains(alias_region(table.cpus@[cpu_id].vaddr)),
        translates(
            table.cpus@[cpu_id].hvm.unwrap()@,
            LOCAL_PER_CPU_BASE as int,
            spec_virt_to_phys(table.cpus@[cpu_id].vaddr) as int,
        ),
        table.cpus@[cpu_id].hvm.unwrap()@.contains(natural_region(table.cpus@[cpu_id].vaddr))
            ==> translates(
            table.cpus@[cpu_id].hvm.unwrap()@,
            table.cpus@[cpu_id].vaddr as int,
            spec_virt_to_phys(table.cpus@[cpu_id].vaddr) as int,
        ),
{
    let b = table.cpus@[cpu_id];
    let h = b.hvm.unwrap()@;
    let a = alias_region(b.vaddr);
    assert(h.contains(a) && a.covers(LOCAL_PER_CPU_BASE as int));
    if h.contains(natural_region(b.vaddr)) {
        assert(natural_region(b.vaddr).covers(b.vaddr as int));
    }
}

/// Activating an enabled core and then deactivating it with `ret` (counting
/// from `before` to `during` to `after`) leaves the host context, the stack
/// window and the address space as they were, records `ret` for the host,
/// and brings the activation count back to where it started.
pub proof fn lemma_activation_round_trip(
    start: PerCpu,
    active: PerCpu,
    end: PerCpu,
    ret: u64,
    before: usize,
    during: usize,
    after: usize,
)
    requires
        start.inv(),
        start.state == CpuState::HvEnabled,
        start.sp_base == start.vaddr,
        activation(start, active),
        during == before + 1,
        deactivation(active, end, ret),
        after == during - 1,
    ensures
        end.linux == start.linux,
        end.sp_base == start.sp_base,
        end.vaddr == start.vaddr,
        end.cpu_id == start.cpu_id,
        end.hvm is Some,
        end.hvm.unwrap()@ == start.hvm.unwrap()@,
        end.hvm.unwrap()@.contains(natural_region(start.vaddr)),
        end.regs == (GuestRegisters { rax: ret, ..start.regs }),
        after == before,
{
    let n = natural_region(start.vaddr);
    let h = start.hvm.unwrap()@;
    assert(h.contains(n));
    assert(h.remove(n).insert(n) =~= h);
}


/// The counter read after each of a run of activations with no deactivation
/// in between: it starts at zero (`ActivationCounter::new`) and each
/// activation raises it by one (`activate_vmm`), so after `n` activations it
/// reads `n`.
pub proof fn lemma_counts_activations(counts: Seq<usize>)
    requires
        counts.len() > 0,
        counts[0] == 0,
        forall|k: int| 0 <= k < counts.len() - 1 ==> #[trigger] counts[k + 1] == counts[k] + 1,
    ensures
        forall|k: int| 0 <= k < counts.len() ==> #[trigger] counts[k] == k,
    decreases counts.len(),
{
    if counts.len() > 1 {
        let shorter = counts.drop_last();
        assert forall|k: int| 0 <= k < shorter.len() - 1 implies #[trigger] shorter[k + 1] == shorter[k]
            + 1 by {
            assert(counts[k + 1] == counts[k] + 1);
        }
        lemma_counts_activations(shorter);
        assert forall|k: int| 0 <= k < counts.len() implies #[trigger] counts[k] == k by {
            if k < shorter.len() {
                assert(shorter[k] == k);
            } else {
                assert(shorter[k - 1] == k - 1);
                assert(counts[k] == counts[k - 1] + 1);
            }
        }
    }
}

} // verus!
