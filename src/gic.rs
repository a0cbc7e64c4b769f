use vstd::prelude::*;
use crate::bits::{bits_of, word_bit, IdBits};
use crate::hw::{Access, CpuReg, DistReg, Reg, CTRL_ENABLE};

verus! {

/// Number of interrupt ids that the capability sets can describe.
pub const MAX_IDS: u32 = 1024;
/// Number of software-generated interrupt ids, 0 to 15.
pub const NUM_SGIS: u32 = 16;
/// Target-filter field of the software-interrupt-generation register: "this CPU only".
pub const SGI_TARGET_SELF: u32 = 0x0200_0000;
/// Mask of the interrupt-id field of the acknowledge register.
pub const IAR_INTERRUPT_MASK: u32 = 0x3ff;

/// The variants of controller that the driver supports.
#[derive(Clone, Copy, Debug, PartialEq, Eq, Structural)]
pub enum GicType {
    CortexA15,
}

/// What the driver learned at construction, as mathematical values.
pub struct GicModel {
    /// One entry per id below 1024: the line is implemented.
    pub supported: Seq<bool>,
    /// One entry per id below 1024: the line cannot be disabled.
    pub permanent: Seq<bool>,
    pub num_cpu_interfaces: nat,
}

impl GicModel {
    pub open spec fn is_supported(self, id: int) -> bool {
        0 <= id < self.supported.len() && self.supported[id]
    }

    pub open spec fn is_permanent(self, id: int) -> bool {
        0 <= id < self.permanent.len() && self.permanent[id]
    }

    /// Some software-generated id is supported.
    pub open spec fn has_sgi(self) -> bool {
        exists|i: int| 0 <= i < NUM_SGIS && self.is_supported(i)
    }
}

/// A driver instance for one Distributor and CPU Interface pair: the capabilities found
/// at construction, which never change afterwards. The register accesses that its
/// operations call for are returned to the caller, who owns the device memory.
pub struct GicV2 {
    supported_interrupts: IdBits,
    permanent_interrupts: IdBits,
    num_cpu_interfaces: u32,
}

/// The capabilities described by the enable-set and enable-clear read-backs of each group
/// of 32 lines.
pub open spec fn model_of_words(supported: Seq<u32>, permanent: Seq<u32>, num_cpu_interfaces: nat) -> GicModel {
    GicModel {
        supported: Seq::new(MAX_IDS as nat, |i: int| word_bit(supported, i)),
        permanent: Seq::new(MAX_IDS as nat, |i: int| word_bit(permanent, i)),
        num_cpu_interfaces,
    }
}

impl View for GicV2 {
    type V = GicModel;

    closed spec fn view(&self) -> GicModel {
        GicModel {
            supported: Seq::new(MAX_IDS as nat, |i: int| bits_of(self.supported_interrupts)[i]),
            permanent: Seq::new(MAX_IDS as nat, |i: int| bits_of(self.permanent_interrupts)[i]),
            num_cpu_interfaces: self.num_cpu_interfaces as nat,
        }
    }
}

impl GicV2 {
    /// Builds a driver instance from the enable-set and enable-clear read-backs of each
    /// group of 32 lines, and the number of CPU interfaces.
    pub fn from_capabilities(supported: [u32; 32], permanent: [u32; 32], num_cpu_interfaces: u32) -> (r: GicV2)
        ensures
            r@ == model_of_words(supported@, permanent@, num_cpu_interfaces as nat),
    {
        let r = GicV2 {
            supported_interrupts: IdBits::from_words(supported),
            permanent_interrupts: IdBits::from_words(permanent),
            num_cpu_interfaces,
        };
        assert(r@.supported =~= model_of_words(supported@, permanent@, num_cpu_interfaces as nat).supported);
        assert(r@.permanent =~= model_of_words(supported@, permanent@, num_cpu_interfaces as nat).permanent);
        r
    }

    /// Checks if the given interrupt is supported.
    pub fn is_interrupt_supported(&self, interrupt: u32) -> (r: bool)
        ensures
            r == self@.is_supported(interrupt as int),
    {
        if interrupt < MAX_IDS {
            self.supported_interrupts.get(interrupt as usize)
        } else {
            false
        }
    }

    /// Checks if the given interrupt is permanently enabled.
    pub fn is_interrupt_permanent(&self, interrupt: u32) -> (r: bool)
        ensures
            r == self@.is_permanent(interrupt as int),
    {
        if interrupt < MAX_IDS {
            self.permanent_interrupts.get(interrupt as usize)
        } else {
            false
        }
    }

    /// Globally disable interrupts: the access that clears the Distributor's enable bit.
    pub fn distributor_disable(&self) -> (r: Access)
        ensures
            r == Access::ClearBits(Reg::Dist(DistReg::Ctrl), CTRL_ENABLE),
            r.wf(),
    {
        Access::ClearBits(Reg::Dist(DistReg::Ctrl), CTRL_ENABLE)
    }

    /// Globally enable interrupts: the access that sets the Distributor's enable bit.
    pub fn distributor_enable(&self) -> (r: Access)
        ensures
            r == Access::SetBits(Reg::Dist(DistReg::Ctrl), CTRL_ENABLE),
            r.wf(),
    {
        Access::SetBits(Reg::Dist(DistReg::Ctrl), CTRL_ENABLE)
    }

    /// Get number of CPU interfaces supported by GIC, this is not the same as
    /// the number of CPUs present.
    pub fn num_cpu_interfaces(&self) -> (r: u32)
        ensures
            r == self@.num_cpu_interfaces,
    {
        self.num_cpu_interfaces
    }

    /// The access that enables the given interrupt line.
    pub fn interrupt_unmask(&self, interrupt: u32) -> (r: Access)
        requires
            self@.is_supported(interrupt as int),
        ensures
            r == Access::Write(
                Reg::Dist(DistReg::IsEnable(interrupt / 32)),
                1u32 << (interrupt % 32),
            ),
            r.wf(),
    {
        let reg = interrupt / 32;
        let bit = interrupt % 32;
        Access::Write(Reg::Dist(DistReg::IsEnable(reg)), 1u32 << bit)
    }

    /// The lowest supported software-generated interrupt id, if any.
    pub fn get_first_sgi(&self) -> (r: Option<u32>)
        ensures
            r is None <==> !self@.has_sgi(),
            r matches Some(id) ==> id < NUM_SGIS && self@.is_supported(id as int) && forall|j: int|
                0 <= j < id ==> !self@.is_supported(j),
    {
        let mut i: u32 = 0;
        while i < NUM_SGIS
            invariant
                i <= NUM_SGIS,
                forall|j: int| 0 <= j < i ==> !self@.is_supported(j),
            decreases NUM_SGIS - i,
        {
            if self.is_interrupt_supported(i) {
                return Some(i);
            }
            i = i + 1;
        }
        None
    }

    /// The access that raises the given software-generated interrupt on this CPU only.
    pub fn send_sgi_to_self(&self, sgi: u32) -> (r: Access)
        requires
            sgi <= NUM_SGIS,
            self@.is_supported(sgi as int),
        ensures
            r == Access::Write(Reg::Dist(DistReg::Sgi), sgi | SGI_TARGET_SELF),
            r.wf(),
    {
        Access::Write(Reg::Dist(DistReg::Sgi), sgi | SGI_TARGET_SELF)
    }

    /// The access that acknowledges the highest-priority pending interrupt; its value
    /// goes to `handle_irq`.
    pub fn acknowledge(&self) -> (r: Access)
        ensures
            r == Access::Read(Reg::Cpu(CpuReg::Iar)),
            r.wf(),
    {
        Access::Read(Reg::Cpu(CpuReg::Iar))
    }

    /// Hands the interrupt id of an acknowledge value to `handler`, then returns the
    /// end-of-interrupt access, which carries the whole acknowledge value back.
    pub fn handle_irq<F: FnOnce(u32)>(&self, iar: u32, handler: F) -> (r: Access)
        requires
            handler.requires((iar & IAR_INTERRUPT_MASK,)),
        ensures
            handler.ensures((iar & IAR_INTERRUPT_MASK,), ()),
            r == Access::Write(Reg::Cpu(CpuReg::Eoir), iar),
            r.wf(),
    {
        handler(iar & IAR_INTERRUPT_MASK);
        Access::Write(Reg::Cpu(CpuReg::Eoir), iar)
    }
}

} // verus!
