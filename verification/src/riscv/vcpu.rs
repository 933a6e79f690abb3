//! The virtual CPUs of a guest.

use vstd::prelude::*;
use crate::error::HyperError;
use crate::riscv::regs::GeneralPurposeRegisters;

verus! {

/// The largest number of virtual CPUs that a guest can have.
pub const VM_CPUS_MAX: usize = 8;

/// `pc` moved forward by `len` bytes, wrapping round at the end of the
/// address space.
pub open spec fn advanced_pc(pc: usize, len: usize) -> usize {
    if pc + len > usize::MAX {
        (pc + len - usize::MAX - 1) as usize
    } else {
        (pc + len) as usize
    }
}

/// The state of a virtual CPU as contracts speak of it.
pub struct VCpuView {
    pub vcpu_id: usize,
    /// The guest's general-purpose registers.
    pub gprs: Seq<usize>,
    /// The address at which the guest continues.
    pub sepc: usize,
    /// The root of the second-stage page table, as `hgatp` takes it.
    pub hgatp: usize,
}

/// A virtual CPU: what the processor is loaded with when the guest runs.
#[derive(Clone, Copy, Debug)]
pub struct VCpu {
    vcpu_id: usize,
    gprs: GeneralPurposeRegisters,
    sepc: usize,
    hgatp: usize,
}

impl View for VCpu {
    type V = VCpuView;

    closed spec fn view(&self) -> VCpuView {
        VCpuView { vcpu_id: self.vcpu_id, gprs: self.gprs@, sepc: self.sepc, hgatp: self.hgatp }
    }
}

impl VCpu {
    /// Create a virtual CPU that starts at `entry` with every register zero
    /// and no page table yet.
    pub fn new(vcpu_id: usize, entry: usize) -> (r: VCpu)
        ensures
            r@ == (VCpuView {
                vcpu_id,
                gprs: Seq::new(32, |i: int| 0usize),
                sepc: entry,
                hgatp: 0,
            }),
    {
        VCpu { vcpu_id, gprs: GeneralPurposeRegisters::new(), sepc: entry, hgatp: 0 }
    }

    /// The identifier of this virtual CPU.
    pub fn vcpu_id(&self) -> (r: usize)
        ensures
            r == self@.vcpu_id,
    {
        self.vcpu_id
    }

    /// The address at which the guest continues.
    pub fn pc(&self) -> (r: usize)
        ensures
            r == self@.sepc,
    {
        self.sepc
    }

    /// The root of the second-stage page table.
    pub fn page_map(&self) -> (r: usize)
        ensures
            r == self@.hgatp,
    {
        self.hgatp
    }

    /// The guest's general-purpose registers.
    pub fn gprs(&self) -> (r: &GeneralPurposeRegisters)
        ensures
            r@ == self@.gprs,
    {
        &self.gprs
    }

    /// Installs the root of the second-stage page table.
    pub fn init_page_map(&mut self, token: usize)
        ensures
            final(self)@ == (VCpuView { hgatp: token, ..old(self)@ }),
    {
        self.hgatp = token;
    }

    /// Copies the guest's general-purpose registers to `gprs`.
    pub fn save_gprs(&self, gprs: &mut GeneralPurposeRegisters)
        ensures
            final(gprs)@ == self@.gprs,
    {
        *gprs = self.gprs;
    }

    /// Loads the guest's general-purpose registers from `gprs`.
    pub fn restore_gprs(&mut self, gprs: &GeneralPurposeRegisters)
        ensures
            final(self)@ == (VCpuView { gprs: gprs@, ..old(self)@ }),
    {
        self.gprs = *gprs;
    }

    /// Moves the address at which the guest continues forward by
    /// `instr_len` bytes.
    pub fn advance_pc(&mut self, instr_len: usize)
        ensures
            final(self)@ == (VCpuView {
                sepc: advanced_pc(old(self)@.sepc, instr_len),
                ..old(self)@
            }),
    {
        self.sepc = self.sepc.wrapping_add(instr_len);
    }

    /// Stores what the processor holds when the guest has left it: the
    /// guest's general-purpose registers and the address at which it stopped.
    pub fn save_exit(&mut self, gprs: &GeneralPurposeRegisters, sepc: usize)
        ensures
            final(self)@ == (VCpuView { gprs: gprs@, sepc, ..old(self)@ }),
    {
        self.gprs = *gprs;
        self.sepc = sepc;
    }
}

/// The virtual CPUs of one guest, by identifier.
#[derive(Debug)]
pub struct VmCpus {
    inner: Vec<Option<VCpu>>,
}

impl View for VmCpus {
    type V = Seq<Option<VCpuView>>;

    closed spec fn view(&self) -> Seq<Option<VCpuView>> {
        Seq::new(
            self.inner@.len(),
            |i: int|
                match self.inner@[i] {
                    Some(vcpu) => Some(vcpu@),
                    None => None,
                },
        )
    }
}

impl VmCpus {
    /// Whether there is a slot for every identifier below [`VM_CPUS_MAX`],
    /// and each virtual CPU sits in the slot of its identifier.
    pub open spec fn wf(&self) -> bool {
        &&& self@.len() == VM_CPUS_MAX
        &&& forall|i: int|
            0 <= i < self@.len() && self@[i] is Some ==> (#[trigger] self@[i]).unwrap().vcpu_id
                == i
    }

    /// Whether a virtual CPU with the identifier `vcpu_id` exists.
    pub open spec fn has(&self, vcpu_id: usize) -> bool {
        vcpu_id < self@.len() && self@[vcpu_id as int] is Some
    }

    /// Creates the set with no virtual CPU in it.
    pub fn new() -> (r: VmCpus)
        ensures
            r.wf(),
            forall|i: int| 0 <= i < VM_CPUS_MAX ==> r@[i] is None,
    {
        let mut inner: Vec<Option<VCpu>> = Vec::new();
        let mut i: usize = 0;
        while i < VM_CPUS_MAX
            invariant
                i <= VM_CPUS_MAX,
                inner@.len() == i,
                forall|j: int| 0 <= j < i ==> inner@[j] is None,
            decreases VM_CPUS_MAX - i,
        {
            inner.push(None);
            i = i + 1;
        }
        VmCpus { inner }
    }

    /// Adds a virtual CPU. Fails with `InvalidParam` where its identifier is
    /// not below [`VM_CPUS_MAX`], and with `AlreadyExists` where a virtual
    /// CPU with its identifier has been added before.
    pub fn add_vcpu(&mut self, vcpu: VCpu) -> (r: Result<(), HyperError>)
        requires
            old(self).wf(),
        ensures
            final(self).wf(),
            vcpu@.vcpu_id >= VM_CPUS_MAX ==> r == Err::<(), HyperError>(HyperError::InvalidParam)
                && final(self)@ == old(self)@,
            vcpu@.vcpu_id < VM_CPUS_MAX && old(self).has(vcpu@.vcpu_id) ==> r == Err::<
                (),
                HyperError,
            >(HyperError::AlreadyExists) && final(self)@ == old(self)@,
            vcpu@.vcpu_id < VM_CPUS_MAX && !old(self).has(vcpu@.vcpu_id) ==> r == Ok::<
                (),
                HyperError,
            >(()) && final(self)@ == old(self)@.update(vcpu@.vcpu_id as int, Some(vcpu@)),
    {
        let vcpu_id = vcpu.vcpu_id();
        if vcpu_id >= VM_CPUS_MAX {
            return Err(HyperError::InvalidParam);
        }
        if self.inner[vcpu_id].is_some() {
            return Err(HyperError::AlreadyExists);
        }
        self.inner.set(vcpu_id, Some(vcpu));
        assert(self@ =~= old(self)@.update(vcpu@.vcpu_id as int, Some(vcpu@)));
        Ok(())
    }

    /// The virtual CPU with the identifier `vcpu_id`. Fails with `NotFound`
    /// where there is none.
    pub fn get_vcpu(&self, vcpu_id: usize) -> (r: Result<VCpu, HyperError>)
        requires
            self.wf(),
        ensures
            self.has(vcpu_id) ==> r is Ok && Some(r.unwrap()@) == self@[vcpu_id as int],
            !self.has(vcpu_id) ==> r == Err::<VCpu, HyperError>(HyperError::NotFound),
    {
        if vcpu_id >= VM_CPUS_MAX {
            return Err(HyperError::NotFound);
        }
        match self.inner[vcpu_id] {
            Some(vcpu) => Ok(vcpu),
            None => Err(HyperError::NotFound),
        }
    }

    /// Puts `vcpu` in the place of the virtual CPU that has its identifier.
    pub fn set_vcpu(&mut self, vcpu: VCpu)
        requires
            old(self).wf(),
            old(self).has(vcpu@.vcpu_id),
        ensures
            final(self).wf(),
            final(self)@ == old(self)@.update(vcpu@.vcpu_id as int, Some(vcpu@)),
    {
        let vcpu_id = vcpu.vcpu_id();
        self.inner.set(vcpu_id, Some(vcpu));
        assert(self@ =~= old(self)@.update(vcpu@.vcpu_id as int, Some(vcpu@)));
    }
}

} // verus!
