use gicv2::div_ceil;
use gicv2::gic::{GicType, GicV2};
use gicv2::hw::{Access, CpuReg, DistReg, Reg};
use gicv2::init::{cpu_mask_of, decode_type, replicate_mask, Init, InitStep};

/// A small stand-in for the two register blocks.
struct Device {
    ctrl: u32,
    typer: u32,
    implemented: [u32; 32],
    fixed_on: [u32; 32],
    enabled: [u32; 32],
    pending: [u32; 32],
    active: [u32; 32],
    priority: [u32; 256],
    target: [u32; 256],
    cfg: [u32; 64],
    sgi_writes: Vec<u32>,
    pmr: u32,
    apr: [u32; 4],
    cpu_ctrl: u32,
}

impl Device {
    fn new(typer: u32, banked_target: u32) -> Device {
        let mut implemented = [0u32; 32];
        let groups = ((typer & 0xf) + 1) as usize;
        for g in 0..groups {
            implemented[g] = 0xffff_ffff;
        }
        // Only SGIs 2 and 9 exist; PPIs 16..31 exist; SGIs 0 and 1 cannot be disabled.
        implemented[0] = (1 << 2) | (1 << 9) | 0xffff_0000 | 0b11;
        let mut fixed_on = [0u32; 32];
        fixed_on[0] = 0b11;
        let mut target = [0x5555_5555u32; 256];
        for t in target.iter_mut().take(8) {
            *t = banked_target;
        }
        Device {
            ctrl: 1,
            typer,
            implemented,
            fixed_on,
            enabled: [0; 32],
            pending: [0xffff_ffff; 32],
            active: [0xffff_ffff; 32],
            priority: [0; 256],
            target,
            cfg: [0x5555_5555; 64],
            sgi_writes: Vec::new(),
            pmr: 0,
            apr: [7; 4],
            cpu_ctrl: 0,
        }
    }

    fn read(&self, r: Reg) -> u32 {
        match r {
            Reg::Dist(DistReg::Ctrl) => self.ctrl,
            Reg::Dist(DistReg::Typer) => self.typer,
            Reg::Dist(DistReg::IsEnable(n)) | Reg::Dist(DistReg::IcEnable(n)) => self.enabled[n as usize],
            Reg::Dist(DistReg::ITarget(n)) => self.target[n as usize],
            Reg::Cpu(CpuReg::Ctrl) => self.cpu_ctrl,
            other => panic!("unexpected read of {:?}", other),
        }
    }

    fn write(&mut self, r: Reg, v: u32) {
        match r {
            Reg::Dist(DistReg::Ctrl) => self.ctrl = v,
            Reg::Dist(DistReg::IsEnable(n)) => self.enabled[n as usize] |= v & self.implemented[n as usize],
            Reg::Dist(DistReg::IcEnable(n)) => {
                self.enabled[n as usize] &= !(v & !self.fixed_on[n as usize])
            }
            Reg::Dist(DistReg::IcActive(n)) => self.active[n as usize] &= !v,
            Reg::Dist(DistReg::IcPend(n)) => self.pending[n as usize] &= !v,
            Reg::Dist(DistReg::IPriority(n)) => self.priority[n as usize] = v,
            Reg::Dist(DistReg::ITarget(n)) => self.target[n as usize] = v,
            Reg::Dist(DistReg::ICfg(n)) => self.cfg[n as usize] = v,
            Reg::Dist(DistReg::Sgi) => self.sgi_writes.push(v),
            Reg::Cpu(CpuReg::Pmr) => self.pmr = v,
            Reg::Cpu(CpuReg::Apr(n)) => self.apr[n as usize] = v,
            Reg::Cpu(CpuReg::Ctrl) => self.cpu_ctrl = v,
            other => panic!("unexpected write of {:?}", other),
        }
    }

    fn perform(&mut self, a: Access) -> u32 {
        match a {
            Access::Read(r) => self.read(r),
            Access::Write(r, v) => {
                self.write(r, v);
                0
            }
            Access::SetBits(r, m) => {
                let v = self.read(r) | m;
                self.write(r, v);
                0
            }
            Access::ClearBits(r, m) => {
                let v = self.read(r) & !m;
                self.write(r, v);
                0
            }
        }
    }
}

fn run_init(dev: &mut Device) -> Option<GicV2> {
    let mut init = Init::new();
    let mut value = 0u32;
    for _ in 0..10_000 {
        match init.step(value) {
            InitStep::Perform(a) => value = dev.perform(a),
            InitStep::Ready(gic) => return Some(gic),
            InitStep::Abort => return None,
        }
    }
    panic!("initialization did not finish");
}

fn gic_with_supported(word0: u32) -> GicV2 {
    let mut supported = [0u32; 32];
    supported[0] = word0;
    GicV2::from_capabilities(supported, [0u32; 32], 1)
}

#[test]
fn div_ceil_rounds_up() {
    assert_eq!(div_ceil(64, 32), 2);
    assert_eq!(div_ceil(65, 32), 3);
    assert_eq!(div_ceil(0, 4), 0);
    assert_eq!(div_ceil(1, 16), 1);
    assert_eq!(div_ceil(u32::MAX, 2), 0x8000_0000);
}

#[test]
fn decode_type_fields() {
    // two groups of lines beyond the first, four CPU interfaces, security extensions
    let info = decode_type(0x2 | (3 << 5) | (1 << 10));
    assert_eq!(info.max_interrupts, 96);
    assert_eq!(info.num_cpu_interfaces, 4);
    assert!(info.security_extensions);
    let info = decode_type(0xffff_ffff);
    assert_eq!(info.max_interrupts, 512);
    assert_eq!(info.num_cpu_interfaces, 8);
    let info = decode_type(0);
    assert_eq!(info.max_interrupts, 32);
    assert_eq!(info.num_cpu_interfaces, 1);
    assert!(!info.security_extensions);
}

#[test]
fn cpu_mask_folds_and_replicates() {
    assert_eq!(cpu_mask_of(0x0202_0202), 0x02);
    assert_eq!(cpu_mask_of(0x0100_0000), 0x01);
    assert_eq!(cpu_mask_of(0x0000_0400), 0x04);
    assert_eq!(cpu_mask_of(0), 0);
    assert_eq!(replicate_mask(0x02), 0x0202_0202);
    assert_eq!(replicate_mask(0), 0);
}

#[test]
fn register_offsets() {
    assert_eq!(DistReg::Ctrl.offset(), 0x000);
    assert_eq!(DistReg::Typer.offset(), 0x004);
    assert_eq!(DistReg::IsEnable(3).offset(), 0x10c);
    assert_eq!(DistReg::IcActive(0).offset(), 0x380);
    assert_eq!(DistReg::IPriority(255).offset(), 0x7fc);
    assert_eq!(DistReg::ITarget(8).offset(), 0x820);
    assert_eq!(DistReg::ICfg(2).offset(), 0xc08);
    assert_eq!(DistReg::Spis(5).offset(), 0xd18);
    assert_eq!(DistReg::Sgi.offset(), 0xf00);
    assert_eq!(DistReg::SPendSgi(0).offset(), 0xf20);
    assert_eq!(DistReg::Pidr(4).offset(), 0xfd0);
    assert_eq!(DistReg::Pidr(0).offset(), 0xfe0);
    assert_eq!(DistReg::Cidr(3).offset(), 0xffc);
    assert_eq!(CpuReg::Iar.offset(), 0x00c);
    assert_eq!(CpuReg::Eoir.offset(), 0x010);
    assert_eq!(CpuReg::Apr(1).offset(), 0x0d4);
    assert_eq!(CpuReg::NsApr(0).offset(), 0x0e0);
    assert_eq!(CpuReg::Iidr.offset(), 0x0fc);
    assert_eq!(CpuReg::Dir.offset(), 0x1000);
    assert!(!Reg::Dist(DistReg::Sgi).is_readable());
    assert!(!Reg::Dist(DistReg::Typer).is_writable());
    assert!(Reg::Cpu(CpuReg::Pmr).is_writable());
}

#[test]
fn construction_discovers_and_configures() {
    // three groups of lines (96 ids), two CPU interfaces
    let typer = 0x2 | (1 << 5);
    let mut dev = Device::new(typer, 0x0202_0202);
    let gic = run_init(&mut dev).expect("initialization completes");

    assert_eq!(dev.ctrl & 1, 1);
    assert_eq!(gic.num_cpu_interfaces(), 2);
    for g in 0..3 {
        assert_eq!(dev.active[g], 0);
        assert_eq!(dev.pending[g], 0);
    }
    assert_eq!(dev.enabled[0], 0b11);
    assert_eq!(dev.enabled[1], 0);

    assert!(gic.is_interrupt_supported(2));
    assert!(gic.is_interrupt_supported(9));
    assert!(!gic.is_interrupt_supported(3));
    assert!(gic.is_interrupt_supported(95));
    assert!(!gic.is_interrupt_supported(96));
    assert!(!gic.is_interrupt_supported(5000));
    assert!(gic.is_interrupt_permanent(0));
    assert!(!gic.is_interrupt_permanent(2));
    assert!(!gic.is_interrupt_permanent(5000));

    assert_eq!(dev.cfg[0], 0x5555_5555);
    assert_eq!(dev.cfg[1], 0x5555_5555);
    for i in 2..6 {
        assert_eq!(dev.cfg[i], 0);
    }
    assert_eq!(dev.cfg[6], 0x5555_5555);

    for i in 0..24 {
        assert_eq!(dev.priority[i], 0xa0a0_a0a0);
    }
    assert_eq!(dev.priority[24], 0);

    for i in 0..8 {
        assert_eq!(dev.target[i], 0x0202_0202);
    }
    for i in 8..24 {
        assert_eq!(dev.target[i], 0x0202_0202);
    }
    assert_eq!(dev.target[24], 0x5555_5555);

    assert_eq!(dev.pmr, 0xf0);
    assert_eq!(dev.apr, [0; 4]);
    assert_eq!(dev.cpu_ctrl, 1);
}

#[test]
fn construction_with_one_cpu_leaves_targets() {
    let mut dev = Device::new(0x1, 0);
    let gic = run_init(&mut dev).expect("initialization completes");
    assert_eq!(gic.num_cpu_interfaces(), 1);
    assert_eq!(dev.target[8], 0x5555_5555);
    assert_eq!(dev.ctrl & 1, 1);
}

#[test]
fn construction_aborts_without_cpu_mask() {
    let mut dev = Device::new(0x1 | (3 << 5), 0);
    assert!(run_init(&mut dev).is_none());
}

#[test]
fn construction_reads_banked_targets_until_nonzero() {
    let mut dev = Device::new(0x1 | (1 << 5), 0);
    dev.target[5] = 0x0000_0001;
    let _gic = run_init(&mut dev).expect("initialization completes");
    assert_eq!(dev.target[8], 0x0101_0101);
    assert_eq!(dev.target[15], 0x0101_0101);
    assert_eq!(dev.target[16], 0x5555_5555);
    assert_eq!(dev.target[4], 0);
}

#[test]
fn unsupported_ids_report_false() {
    let gic = gic_with_supported(1 << 5);
    assert!(gic.is_interrupt_supported(5));
    assert!(!gic.is_interrupt_supported(4));
    assert!(!gic.is_interrupt_supported(1024));
    assert!(!gic.is_interrupt_supported(u32::MAX));
    assert!(!gic.is_interrupt_permanent(5));
}

#[test]
fn unmask_sets_one_enable_bit() {
    let mut supported = [0u32; 32];
    supported[1] = 1 << 3;
    let gic = GicV2::from_capabilities(supported, [0u32; 32], 1);
    assert_eq!(
        gic.interrupt_unmask(35),
        Access::Write(Reg::Dist(DistReg::IsEnable(1)), 1 << 3)
    );
}

#[test]
fn send_sgi_to_self_writes_filter() {
    let gic = gic_with_supported(1 << 5);
    let a = gic.send_sgi_to_self(5);
    assert_eq!(a, Access::Write(Reg::Dist(DistReg::Sgi), 5 | (2 << 24)));
    let mut dev = Device::new(0, 1);
    dev.perform(a);
    assert_eq!(dev.sgi_writes, vec![0x0200_0005]);
}

#[test]
fn handle_irq_passes_id_and_completes_with_full_value() {
    let gic = gic_with_supported(1 << 5);
    assert_eq!(gic.acknowledge(), Access::Read(Reg::Cpu(CpuReg::Iar)));
    let iar = 5 | (3 << 10);
    let mut seen = Vec::new();
    let eoi = gic.handle_irq(iar, |id| seen.push(id));
    assert_eq!(seen, vec![5]);
    assert_eq!(eoi, Access::Write(Reg::Cpu(CpuReg::Eoir), iar));
}

#[test]
fn first_sgi_is_lowest_supported() {
    assert_eq!(gic_with_supported((1 << 3) | (1 << 7)).get_first_sgi(), Some(3));
    assert_eq!(gic_with_supported(1 << 12).get_first_sgi(), Some(12));
    assert_eq!(gic_with_supported(1).get_first_sgi(), Some(0));
    assert_eq!(gic_with_supported(0xffff_0000).get_first_sgi(), None);
    assert_eq!(gic_with_supported(0).get_first_sgi(), None);
}

#[test]
fn enable_and_disable_are_idempotent() {
    let gic = gic_with_supported(0);
    let mut dev = Device::new(0, 1);
    dev.ctrl = 0;
    dev.perform(gic.distributor_enable());
    let once = dev.ctrl;
    dev.perform(gic.distributor_enable());
    assert_eq!(dev.ctrl, once);
    assert_eq!(once, 1);
    dev.perform(gic.distributor_disable());
    let once = dev.ctrl;
    dev.perform(gic.distributor_disable());
    assert_eq!(dev.ctrl, once);
    assert_eq!(once, 0);
}

#[test]
fn gic_type_compares() {
    assert_eq!(GicType::CortexA15, GicType::CortexA15);
}
