use hv_percpu::arch::{GuestRegisters, LinuxContext, Vcpu};
use hv_percpu::cell::Cell;
use hv_percpu::consts::{
    virt_to_phys, HV_STACK_SIZE, LOCAL_PER_CPU_BASE, PER_CPU_SIZE, PHYS_VIRT_OFFSET, STACK_OFFSET,
};
use hv_percpu::error::HvError;
use hv_percpu::memory::{MemFlags, MemoryRegion, MemorySet};
use hv_percpu::percpu::{ActivationCounter, CpuState, PerCpu, PerCpuDump, PerCpuTable, Step};

const TABLE_BASE: u64 = PHYS_VIRT_OFFSET + 0x100_0000;

fn template() -> MemorySet {
    let mut hvm = MemorySet::new();
    // Hypervisor image, away from the per-core table and the local alias.
    let image = MemoryRegion::new_with_offset_mapper(
        PHYS_VIRT_OFFSET + 0x20_0000,
        0x20_0000,
        0x40_0000,
        MemFlags { read: true, write: false, execute: true },
    );
    assert_eq!(hvm.insert(image), Ok(()));
    hvm
}

fn supported_cell() -> Cell {
    Cell::new(template(), true)
}

fn natural(cpu_id: u64) -> u64 {
    TABLE_BASE + cpu_id * PER_CPU_SIZE
}

fn hvm_of(cpu: &PerCpu) -> &MemorySet {
    cpu.hvm.as_ref().unwrap()
}

#[test]
fn blocks_are_disabled_before_init() {
    let table = PerCpuTable::new(TABLE_BASE, 4);
    assert_eq!(table.max_cpus(), 4);
    for id in 0..4 {
        let cpu = PerCpu::from_id(&table, id).unwrap();
        assert_eq!(cpu.state, CpuState::HvDisabled);
        assert!(cpu.vcpu.is_none());
        assert!(cpu.hvm.is_none());
        assert_eq!(cpu.vaddr, natural(id as u64));
    }
}

#[test]
fn init_enables_and_maps_block_twice() {
    let cell = supported_cell();
    let mut table = PerCpuTable::new(TABLE_BASE, 4);
    let cpu = PerCpu::from_id_mut(&mut table, 0).unwrap();
    assert_eq!(cpu.init(0, 0x7000, &cell), Ok(()));
    assert_eq!(cpu.state, CpuState::HvEnabled);
    assert_eq!(cpu.cpu_id, 0);
    assert_eq!(cpu.linux, LinuxContext { rsp: 0x7000 });
    assert_eq!(
        cpu.vcpu,
        Some(Vcpu { host_rsp: 0x7000, launched: false, injected_faults: 0, host_return: 0 })
    );
    assert_eq!(cpu.trace, vec![Step::InstallAddressSpace]);
    let hvm = hvm_of(cpu);
    let paddr = TABLE_BASE - PHYS_VIRT_OFFSET;
    assert_eq!(hvm.translate(natural(0)), Some(paddr));
    assert_eq!(hvm.translate(LOCAL_PER_CPU_BASE), Some(paddr));
    assert_eq!(hvm.translate(LOCAL_PER_CPU_BASE + 0x10), Some(paddr + 0x10));
    // The template stays in place.
    assert_eq!(hvm.translate(PHYS_VIRT_OFFSET + 0x20_0000), Some(0x20_0000));
}

#[test]
fn init_rejects_overlapping_template() {
    let mut hvm = template();
    let clash = MemoryRegion::new_with_offset_mapper(
        TABLE_BASE,
        0x1000,
        0x1000,
        MemFlags::read_write(),
    );
    assert_eq!(hvm.insert(clash), Ok(()));
    let cell = Cell::new(hvm, true);
    let mut cpu = PerCpu::new(TABLE_BASE);
    assert_eq!(cpu.init(0, 0x7000, &cell), Err(HvError::MappingConflict));
    assert_eq!(cpu.state, CpuState::HvDisabled);
    assert!(cpu.vcpu.is_none());
}

#[test]
fn init_rejects_template_over_alias() {
    let mut hvm = template();
    let clash = MemoryRegion::new_with_offset_mapper(
        LOCAL_PER_CPU_BASE + 0x1000,
        0x1000,
        0x1000,
        MemFlags::read_write(),
    );
    assert_eq!(hvm.insert(clash), Ok(()));
    let cell = Cell::new(hvm, true);
    let mut cpu = PerCpu::new(TABLE_BASE);
    assert_eq!(cpu.init(0, 0x7000, &cell), Err(HvError::MappingConflict));
}

#[test]
fn init_fails_without_hardware_support() {
    let cell = Cell::new(template(), false);
    let mut cpu = PerCpu::new(TABLE_BASE);
    assert_eq!(cpu.init(0, 0x7000, &cell), Err(HvError::EngineConstructionFailed));
    assert_eq!(cpu.state, CpuState::HvDisabled);
    assert!(cpu.vcpu.is_none());
}

#[test]
fn init_at_table_boundary() {
    let cell = supported_cell();
    let mut table = PerCpuTable::new(TABLE_BASE, 4);
    assert_eq!(table.init_cpu(3, 0x7000, &cell), Ok(()));
    let last = PerCpu::from_id(&table, 3).unwrap();
    assert_eq!(last.state, CpuState::HvEnabled);
    assert_eq!(last.cpu_id, 3);
    assert_eq!(table.init_cpu(4, 0x7000, &cell), Err(HvError::InvalidCpuId));
    for id in 0..3 {
        assert_eq!(PerCpu::from_id(&table, id).unwrap().state, CpuState::HvDisabled);
    }
    assert!(PerCpu::from_id_mut(&mut table, 4).is_none());
    assert!(PerCpu::from_id(&table, 4).is_none());
}

#[test]
fn deactivation_stops_on_mapping_conflict() {
    let cell = supported_cell();
    let mut counter = ActivationCounter::new();
    let mut cpu = PerCpu::new(natural(1));
    assert_eq!(cpu.init(1, 0x7000, &cell), Ok(()));
    assert_eq!(cpu.activate_vmm(&mut counter), Err(HvError::EngineReturned));
    // Something now occupies part of the natural window.
    let squatter = MemoryRegion::new_with_offset_mapper(
        natural(1) + 0x2000,
        0x5000,
        0x1000,
        MemFlags::read_write(),
    );
    assert_eq!(cpu.hvm.as_mut().unwrap().insert(squatter), Ok(()));
    assert_eq!(cpu.deactivate_vmm(&mut counter, 9), Err(HvError::MappingConflict));
    assert_eq!(counter.get(), 1);
    assert_eq!(cpu.state, CpuState::HvEnabled);
    assert_eq!(cpu.sp_base, LOCAL_PER_CPU_BASE);
    assert!(cpu.vcpu.unwrap().launched);
    assert_eq!(cpu.guest_regs().return_value(), 9);
    assert_eq!(cpu.trace.last(), Some(&Step::SetReturn));
    assert!(!hvm_of(&cpu).contains_start(natural(1)));
}

#[test]
fn engine_receives_host_stack_and_return_value() {
    let cell = supported_cell();
    let mut counter = ActivationCounter::new();
    let mut cpu = PerCpu::new(natural(0));
    assert_eq!(cpu.init(0, 0x7400, &cell), Ok(()));
    assert_eq!(cpu.activate_vmm(&mut counter), Err(HvError::EngineReturned));
    assert_eq!(cpu.deactivate_vmm(&mut counter, 11), Err(HvError::EngineReturned));
    let vcpu = cpu.vcpu.unwrap();
    assert_eq!(vcpu.host_rsp, 0x7400);
    assert_eq!(vcpu.host_return, 11);
    assert!(!vcpu.launched);
}

#[test]
fn activation_runs_steps_in_order() {
    let cell = supported_cell();
    let mut counter = ActivationCounter::new();
    let mut cpu = PerCpu::new(natural(1));
    assert_eq!(cpu.init(1, 0x7000, &cell), Ok(()));
    assert_eq!(cpu.activate_vmm(&mut counter), Err(HvError::EngineReturned));
    assert_eq!(
        cpu.trace,
        vec![
            Step::InstallAddressSpace,
            Step::StackToAlias,
            Step::UnmapNatural,
            Step::FlushTlb,
            Step::EnterGuest,
        ]
    );
    assert_eq!(cpu.sp_base, LOCAL_PER_CPU_BASE);
    assert!(cpu.vcpu.unwrap().launched);
}

#[test]
fn deactivation_runs_steps_in_order() {
    let cell = supported_cell();
    let mut counter = ActivationCounter::new();
    let mut cpu = PerCpu::new(natural(1));
    assert_eq!(cpu.init(1, 0x7000, &cell), Ok(()));
    assert_eq!(cpu.activate_vmm(&mut counter), Err(HvError::EngineReturned));
    assert_eq!(cpu.deactivate_vmm(&mut counter, 0), Err(HvError::EngineReturned));
    assert_eq!(
        cpu.trace[5..].to_vec(),
        vec![
            Step::SetReturn,
            Step::MapNatural,
            Step::FlushTlb,
            Step::StackToNatural,
            Step::EngineExit,
            Step::RestoreHost,
            Step::Disable,
            Step::ReturnToHost,
        ]
    );
    assert!(!cpu.vcpu.unwrap().launched);
}

#[test]
fn counter_counts_activations() {
    let cell = supported_cell();
    let mut counter = ActivationCounter::new();
    assert_eq!(PerCpu::activated_cpus(&counter), 0);
    let mut table = PerCpuTable::new(TABLE_BASE, 3);
    for id in 0..3usize {
        let cpu = PerCpu::from_id_mut(&mut table, id).unwrap();
        assert_eq!(cpu.init(id, 0x7000, &cell), Ok(()));
        assert_eq!(cpu.activate_vmm(&mut counter), Err(HvError::EngineReturned));
        assert_eq!(PerCpu::activated_cpus(&counter), id + 1);
    }
    let cpu = PerCpu::from_id_mut(&mut table, 1).unwrap();
    assert_eq!(cpu.deactivate_vmm(&mut counter, 0), Err(HvError::EngineReturned));
    assert_eq!(PerCpu::activated_cpus(&counter), 2);
    assert_eq!(counter.get(), 2);
}

#[test]
fn round_trip_restores_host_view() {
    let cell = supported_cell();
    let mut counter = ActivationCounter::new();
    let mut cpu = PerCpu::new(natural(2));
    assert_eq!(cpu.init(2, 0x9000, &cell), Ok(()));
    let sp_base = cpu.sp_base;
    let linux = cpu.linux;
    let stack_top = cpu.stack_top();
    let probes = [natural(2), natural(2) + 0x80, LOCAL_PER_CPU_BASE, PHYS_VIRT_OFFSET + 0x20_0000];
    let before: Vec<Option<u64>> = probes.iter().map(|v| hvm_of(&cpu).translate(*v)).collect();
    assert_eq!(cpu.activate_vmm(&mut counter), Err(HvError::EngineReturned));
    assert_eq!(cpu.deactivate_vmm(&mut counter, 3), Err(HvError::EngineReturned));
    let after: Vec<Option<u64>> = probes.iter().map(|v| hvm_of(&cpu).translate(*v)).collect();
    assert_eq!(before, after);
    assert_eq!(cpu.sp_base, sp_base);
    assert_eq!(cpu.stack_top(), stack_top);
    assert_eq!(cpu.linux, linux);
    assert_eq!(counter.get(), 0);
}

#[test]
fn enabled_state_spans_idle_and_running() {
    // The two-state machine tracks resource validity only: an initialized
    // core that has not entered the guest and one running it are both enabled.
    let cell = supported_cell();
    let mut counter = ActivationCounter::new();
    let mut cpu = PerCpu::new(natural(0));
    assert_eq!(cpu.init(0, 0x7000, &cell), Ok(()));
    assert_eq!(cpu.state, CpuState::HvEnabled);
    assert_eq!(cpu.activate_vmm(&mut counter), Err(HvError::EngineReturned));
    assert_eq!(cpu.state, CpuState::HvEnabled);
}

#[test]
fn scenario_four_core_table() {
    let cell = supported_cell();
    let mut counter = ActivationCounter::new();
    let mut table = PerCpuTable::new(TABLE_BASE, 4);
    let cpu = PerCpu::from_id_mut(&mut table, 0).unwrap();
    assert_eq!(cpu.init(0, 0x7000, &cell), Ok(()));
    assert_eq!(cpu.state, CpuState::HvEnabled);
    let page = virt_to_phys(natural(0));
    assert_eq!(hvm_of(cpu).translate(natural(0)), Some(page));
    assert_eq!(hvm_of(cpu).translate(LOCAL_PER_CPU_BASE), Some(page));

    assert_eq!(cpu.activate_vmm(&mut counter), Err(HvError::EngineReturned));
    assert_eq!(PerCpu::activated_cpus(&counter), 1);
    assert!(!hvm_of(cpu).contains_start(natural(0)));
    assert_eq!(hvm_of(cpu).translate(natural(0)), None);
    assert!(hvm_of(cpu).contains_start(LOCAL_PER_CPU_BASE));

    assert_eq!(cpu.deactivate_vmm(&mut counter, 7), Err(HvError::EngineReturned));
    assert_eq!(PerCpu::activated_cpus(&counter), 0);
    assert!(hvm_of(cpu).contains_start(natural(0)));
    assert_eq!(cpu.state, CpuState::HvDisabled);
    assert_eq!(cpu.guest_regs().return_value(), 7);
}

#[test]
fn local_alias_finds_own_block() {
    let cell = supported_cell();
    let mut counter = ActivationCounter::new();
    let mut table = PerCpuTable::new(TABLE_BASE, 4);
    let cpu = PerCpu::from_id_mut(&mut table, 2).unwrap();
    assert_eq!(cpu.init(2, 0x7000, &cell), Ok(()));
    assert_eq!(cpu.activate_vmm(&mut counter), Err(HvError::EngineReturned));
    let space = hvm_of(cpu).duplicate();
    let local = PerCpu::from_local_base(&table, &space).unwrap();
    let by_id = PerCpu::from_id(&table, 2).unwrap();
    assert_eq!(local.cpu_id, 2);
    assert_eq!(local.vaddr, by_id.vaddr);
    assert_eq!(hvm_of(local).translate(LOCAL_PER_CPU_BASE), Some(virt_to_phys(by_id.vaddr)));
    let local_mut = PerCpu::from_local_base_mut(&mut table, &space).unwrap();
    local_mut.guest_regs_mut().set_return(5);
    assert_eq!(PerCpu::from_id(&table, 2).unwrap().guest_regs().rax, 5);
    // Nothing is mapped at the alias in the bare template.
    assert!(PerCpu::from_local_base(&table, &template()).is_none());
}

#[test]
fn fault_needs_a_running_guest() {
    let cell = supported_cell();
    let mut counter = ActivationCounter::new();
    let mut cpu = PerCpu::new(natural(0));
    assert_eq!(cpu.fault(), Err(HvError::EngineOperationFailed));
    assert_eq!(cpu.init(0, 0x7000, &cell), Ok(()));
    assert_eq!(cpu.fault(), Err(HvError::EngineOperationFailed));
    assert_eq!(cpu.activate_vmm(&mut counter), Err(HvError::EngineReturned));
    assert_eq!(cpu.fault(), Ok(()));
    assert_eq!(cpu.fault(), Ok(()));
    assert_eq!(cpu.vcpu.unwrap().injected_faults, 2);
    assert_eq!(cpu.guest_all_state().vcpu.injected_faults, 2);
}

#[test]
fn stack_top_follows_window() {
    let cell = supported_cell();
    let mut counter = ActivationCounter::new();
    let mut cpu = PerCpu::new(natural(1));
    assert_eq!(cpu.stack_top(), natural(1) + STACK_OFFSET + HV_STACK_SIZE);
    assert_eq!(cpu.init(1, 0x7000, &cell), Ok(()));
    assert_eq!(cpu.activate_vmm(&mut counter), Err(HvError::EngineReturned));
    assert_eq!(cpu.stack_top(), LOCAL_PER_CPU_BASE + STACK_OFFSET + HV_STACK_SIZE);
}

#[test]
fn dump_shows_guest_or_host_side() {
    let cell = supported_cell();
    let mut cpu = PerCpu::new(natural(0));
    assert_eq!(
        cpu.dump(),
        PerCpuDump::Disabled { cpu_id: 0, linux: LinuxContext { rsp: 0 } }
    );
    assert_eq!(cpu.init(0, 0x7000, &cell), Ok(()));
    match cpu.dump() {
        PerCpuDump::Enabled { cpu_id, guest } => {
            assert_eq!(cpu_id, 0);
            assert_eq!(guest.regs, GuestRegisters::zeroed());
            assert_eq!(guest.vcpu.host_rsp, 0x7000);
        }
        other => panic!("unexpected dump {:?}", other),
    }
}

#[test]
fn memory_set_insert_and_delete() {
    let mut hvm = MemorySet::new();
    let a = MemoryRegion::new_with_offset_mapper(0x1000, 0x8000, 0x2000, MemFlags::read_write());
    let b = MemoryRegion::new_with_offset_mapper(0x2000, 0x9000, 0x1000, MemFlags::read_write());
    let c = MemoryRegion::new_with_offset_mapper(0x3000, 0x9000, 0x1000, MemFlags::read_write());
    assert_eq!(hvm.insert(a), Ok(()));
    assert_eq!(hvm.insert(b), Err(HvError::MappingConflict));
    assert_eq!(hvm.insert(c), Ok(()));
    assert_eq!(hvm.translate(0x2fff), Some(0x9fff));
    assert_eq!(hvm.translate(0x3000), Some(0x9000));
    assert_eq!(hvm.translate(0x4000), None);
    assert_eq!(hvm.delete(0x2000), Err(HvError::MappingAbsent));
    assert_eq!(hvm.delete(0x1000), Ok(()));
    assert_eq!(hvm.translate(0x1000), None);
    assert!(!hvm.contains_start(0x1000));
    assert!(hvm.contains_start(0x3000));
    assert_eq!(hvm.duplicate().translate(0x3000), Some(0x9000));
}

#[test]
fn linear_map_translation() {
    assert_eq!(virt_to_phys(PHYS_VIRT_OFFSET), 0);
    assert_eq!(virt_to_phys(PHYS_VIRT_OFFSET + 0x1234), 0x1234);
}
