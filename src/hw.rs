use vstd::prelude::*;

verus! {

/// A register of the Distributor block.
#[derive(Clone, Copy, Debug, PartialEq, Eq, Structural)]
pub enum DistReg {
    Ctrl,
    Typer,
    Iidr,
    IGroup(u32),
    IsEnable(u32),
    IcEnable(u32),
    IsPend(u32),
    IcPend(u32),
    IsActive(u32),
    IcActive(u32),
    IPriority(u32),
    ITarget(u32),
    ICfg(u32),
    Ppis,
    Spis(u32),
    Sgi,
    CPendSgi(u32),
    SPendSgi(u32),
    /// Peripheral identification registers, numbered 0 to 7.
    Pidr(u32),
    /// Component identification registers, numbered 0 to 3.
    Cidr(u32),
}

/// A register of the CPU Interface block.
#[derive(Clone, Copy, Debug, PartialEq, Eq, Structural)]
pub enum CpuReg {
    Ctrl,
    Pmr,
    Bpr,
    Iar,
    Eoir,
    Rpr,
    Hppir,
    Abpr,
    Aiar,
    Aeoir,
    Ahppir,
    Apr(u32),
    NsApr(u32),
    Iidr,
    Dir,
}

/// A register of either block.
#[derive(Clone, Copy, Debug, PartialEq, Eq, Structural)]
pub enum Reg {
    Dist(DistReg),
    Cpu(CpuReg),
}

/// Number of words in each of the Distributor's per-line bitmap arrays.
pub const BITMAP_WORDS: u32 = 32;
/// Number of words in the priority array and in the target array.
pub const BYTE_ARRAY_WORDS: u32 = 256;
/// Number of words in the edge/level configuration array.
pub const CFG_WORDS: u32 = 64;

/// Bit 0 of the Distributor control register: global enable.
pub const CTRL_ENABLE: u32 = 1;

impl DistReg {
    /// The register index, where it has one, lies within its array.
    pub open spec fn wf(self) -> bool {
        match self {
            DistReg::IGroup(n) | DistReg::IsEnable(n) | DistReg::IcEnable(n) | DistReg::IsPend(n)
            | DistReg::IcPend(n) | DistReg::IsActive(n) | DistReg::IcActive(n) => n < BITMAP_WORDS,
            DistReg::IPriority(n) | DistReg::ITarget(n) => n < BYTE_ARRAY_WORDS,
            DistReg::ICfg(n) => n < CFG_WORDS,
            DistReg::Spis(n) => n < 6,
            DistReg::CPendSgi(n) | DistReg::SPendSgi(n) | DistReg::Cidr(n) => n < 4,
            DistReg::Pidr(n) => n < 8,
            _ => true,
        }
    }

    /// Byte offset of the register from the Distributor's base address.
    pub open spec fn offset_spec(self) -> int {
        match self {
            DistReg::Ctrl => 0x000,
            DistReg::Typer => 0x004,
            DistReg::Iidr => 0x008,
            DistReg::IGroup(n) => 0x080 + 4 * n,
            DistReg::IsEnable(n) => 0x100 + 4 * n,
            DistReg::IcEnable(n) => 0x180 + 4 * n,
            DistReg::IsPend(n) => 0x200 + 4 * n,
            DistReg::IcPend(n) => 0x280 + 4 * n,
            DistReg::IsActive(n) => 0x300 + 4 * n,
            DistReg::IcActive(n) => 0x380 + 4 * n,
            DistReg::IPriority(n) => 0x400 + 4 * n,
            DistReg::ITarget(n) => 0x800 + 4 * n,
            DistReg::ICfg(n) => 0xc00 + 4 * n,
            DistReg::Ppis => 0xd00,
            DistReg::Spis(n) => 0xd04 + 4 * n,
            DistReg::Sgi => 0xf00,
            DistReg::CPendSgi(n) => 0xf10 + 4 * n,
            DistReg::SPendSgi(n) => 0xf20 + 4 * n,
            DistReg::Pidr(n) => if n < 4 { 0xfe0 + 4 * n } else { 0xfd0 + 4 * (n - 4) },
            DistReg::Cidr(n) => 0xff0 + 4 * n,
        }
    }

    pub open spec fn readable(self) -> bool {
        !(self is Sgi)
    }

    pub open spec fn writable(self) -> bool {
        !(self is Typer || self is Iidr || self is Ppis || self is Spis || self is Pidr
            || self is Cidr)
    }

    pub fn offset(&self) -> (r: u32)
        requires
            self.wf(),
        ensures
            r as int == self.offset_spec(),
    {
        match *self {
            DistReg::Ctrl => 0x000,
            DistReg::Typer => 0x004,
            DistReg::Iidr => 0x008,
            DistReg::IGroup(n) => 0x080 + 4 * n,
            DistReg::IsEnable(n) => 0x100 + 4 * n,
            DistReg::IcEnable(n) => 0x180 + 4 * n,
            DistReg::IsPend(n) => 0x200 + 4 * n,
            DistReg::IcPend(n) => 0x280 + 4 * n,
            DistReg::IsActive(n) => 0x300 + 4 * n,
            DistReg::IcActive(n) => 0x380 + 4 * n,
            DistReg::IPriority(n) => 0x400 + 4 * n,
            DistReg::ITarget(n) => 0x800 + 4 * n,
            DistReg::ICfg(n) => 0xc00 + 4 * n,
            DistReg::Ppis => 0xd00,
            DistReg::Spis(n) => 0xd04 + 4 * n,
            DistReg::Sgi => 0xf00,
            DistReg::CPendSgi(n) => 0xf10 + 4 * n,
            DistReg::SPendSgi(n) => 0xf20 + 4 * n,
            DistReg::Pidr(n) => if n < 4 { 0xfe0 + 4 * n } else { 0xfd0 + 4 * (n - 4) },
            DistReg::Cidr(n) => 0xff0 + 4 * n,
        }
    }
}

impl CpuReg {
    pub open spec fn wf(self) -> bool {
        match self {
            CpuReg::Apr(n) | CpuReg::NsApr(n) => n < 4,
            _ => true,
        }
    }

    /// Byte offset of the register from the CPU Interface's base address.
    pub open spec fn offset_spec(self) -> int {
        match self {
            CpuReg::Ctrl => 0x000,
            CpuReg::Pmr => 0x004,
            CpuReg::Bpr => 0x008,
            CpuReg::Iar => 0x00c,
            CpuReg::Eoir => 0x010,
            CpuReg::Rpr => 0x014,
            CpuReg::Hppir => 0x018,
            CpuReg::Abpr => 0x01c,
            CpuReg::Aiar => 0x020,
            CpuReg::Aeoir => 0x024,
            CpuReg::Ahppir => 0x028,
            CpuReg::Apr(n) => 0x0d0 + 4 * n,
            CpuReg::NsApr(n) => 0x0e0 + 4 * n,
            CpuReg::Iidr => 0x0fc,
            CpuReg::Dir => 0x1000,
        }
    }

    pub open spec fn readable(self) -> bool {
        !(self is Eoir || self is Aeoir || self is Dir)
    }

    pub open spec fn writable(self) -> bool {
        !(self is Iar || self is Rpr || self is Hppir || self is Aiar || self is Ahppir
            || self is Iidr)
    }

    pub fn offset(&self) -> (r: u32)
        requires
            self.wf(),
        ensures
            r as int == self.offset_spec(),
    {
        match *self {
            CpuReg::Ctrl => 0x000,
            CpuReg::Pmr => 0x004,
            CpuReg::Bpr => 0x008,
            CpuReg::Iar => 0x00c,
            CpuReg::Eoir => 0x010,
            CpuReg::Rpr => 0x014,
            CpuReg::Hppir => 0x018,
            CpuReg::Abpr => 0x01c,
            CpuReg::Aiar => 0x020,
            CpuReg::Aeoir => 0x024,
            CpuReg::Ahppir => 0x028,
            CpuReg::Apr(n) => 0x0d0 + 4 * n,
            CpuReg::NsApr(n) => 0x0e0 + 4 * n,
            CpuReg::Iidr => 0x0fc,
            CpuReg::Dir => 0x1000,
        }
    }
}

impl Reg {
    pub open spec fn wf(self) -> bool {
        match self {
            Reg::Dist(d) => d.wf(),
            Reg::Cpu(c) => c.wf(),
        }
    }

    pub open spec fn readable(self) -> bool {
        match self {
            Reg::Dist(d) => d.readable(),
            Reg::Cpu(c) => c.readable(),
        }
    }

    pub open spec fn writable(self) -> bool {
        match self {
            Reg::Dist(d) => d.writable(),
            Reg::Cpu(c) => c.writable(),
        }
    }

    pub fn is_readable(&self) -> (r: bool)
        ensures
            r == self.readable(),
    {
        match *self {
            Reg::Dist(d) => !matches!(d, DistReg::Sgi),
            Reg::Cpu(c) => !matches!(c, CpuReg::Eoir | CpuReg::Aeoir | CpuReg::Dir),
        }
    }

    pub fn is_writable(&self) -> (r: bool)
        ensures
            r == self.writable(),
    {
        match *self {
            Reg::Dist(d) => !matches!(
                d,
                DistReg::Typer | DistReg::Iidr | DistReg::Ppis | DistReg::Spis(_)
                    | DistReg::Pidr(_) | DistReg::Cidr(_)
            ),
            Reg::Cpu(c) => !matches!(
                c,
                CpuReg::Iar | CpuReg::Rpr | CpuReg::Hppir | CpuReg::Aiar | CpuReg::Ahppir
                    | CpuReg::Iidr
            ),
        }
    }
}

/// One register access for the caller to carry out on device memory.
#[derive(Clone, Copy, Debug, PartialEq, Eq, Structural)]
pub enum Access {
    /// Read the register; its value is handed back to the next step.
    Read(Reg),
    /// Write the whole register.
    Write(Reg, u32),
    /// Read the register, set the given bits, write it back.
    SetBits(Reg, u32),
    /// Read the register, clear the given bits, write it back.
    ClearBits(Reg, u32),
}

impl Access {
    /// The register exists and allows this kind of access.
    pub open spec fn wf(self) -> bool {
        match self {
            Access::Read(r) => r.wf() && r.readable(),
            Access::Write(r, _) => r.wf() && r.writable(),
            Access::SetBits(r, _) | Access::ClearBits(r, _) => r.wf() && r.readable()
                && r.writable(),
        }
    }

    /// The register's value after this access, given its value before.
    pub open spec fn apply(self, before: u32) -> u32 {
        match self {
            Access::Read(_) => before,
            Access::Write(_, v) => v,
            Access::SetBits(_, m) => before | m,
            Access::ClearBits(_, m) => before & !m,
        }
    }
}

/// Doing a read-modify-write of the same bits twice leaves the register as doing it once.
pub proof fn lemma_modify_idempotent(a: Access, v: u32)
    requires
        a is SetBits || a is ClearBits,
    ensures
        a.apply(a.apply(v)) == a.apply(v),
{
    match a {
        Access::SetBits(_, m) => {
            assert((v | m) | m == v | m) by (bit_vector);
        },
        Access::ClearBits(_, m) => {
            assert((v & !m) & !m == v & !m) by (bit_vector);
        },
        _ => {},
    }
}

} // verus!
