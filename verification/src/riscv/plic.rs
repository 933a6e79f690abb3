//! The registers of the platform-level interrupt controller, as the guest
//! sees them through its window of memory-mapped registers.

use vstd::prelude::*;

verus! {

/// Number of interrupt contexts that the window has room for.
pub const MAX_CONTEXTS: usize = 15872;

/// Number of interrupt sources that the window has room for.
pub const MAX_SOURCES: usize = 1024;

/// Size in bytes of the window.
pub const PLIC_SIZE: usize = 0x0400_0000;

/// Offset of the pending bits.
pub const PLIC_PENDING_BASE: usize = 0x1000;

/// Offset one past the pending bits.
pub const PLIC_PENDING_END: usize = 0x1080;

/// Offset of the enable bits of context 0.
pub const PLIC_ENABLE_BASE: usize = 0x2000;

/// Offset one past the enable bits of the last context.
pub const PLIC_ENABLE_END: usize = 0x1f_2000;

/// Offset of the threshold register of context 0. The claim/complete
/// register of a context lies 4 bytes above its threshold register.
pub const PLIC_CONTEXT_BASE: usize = 0x20_0000;

/// Distance in bytes from one context's registers to the next one's.
pub const PLIC_CONTEXT_STRIDE: usize = 0x1000;

/// A register of the controller.
pub enum PlicRegister {
    /// Priority of an interrupt source.
    Priority(int),
    /// One word of the pending bits.
    Pending(int),
    /// One word of the enable bits: word `n % 32` of context `n / 32`.
    Enable(int),
    /// Priority threshold of a context.
    Threshold(int),
    /// Claim/complete register of a context.
    ClaimComplete(int),
}

/// The register that lies at `offset` bytes into the window, if one does.
/// A register is four bytes wide and starts at a multiple of four.
pub open spec fn register_at(offset: int) -> Option<PlicRegister> {
    if offset < 0 || offset >= PLIC_SIZE || offset % 4 != 0 {
        None
    } else if offset < PLIC_PENDING_BASE {
        Some(PlicRegister::Priority(offset / 4))
    } else if offset < PLIC_PENDING_END {
        Some(PlicRegister::Pending((offset - PLIC_PENDING_BASE) / 4))
    } else if PLIC_ENABLE_BASE <= offset && offset < PLIC_ENABLE_END {
        Some(PlicRegister::Enable((offset - PLIC_ENABLE_BASE) / 4))
    } else if PLIC_CONTEXT_BASE <= offset && offset % (PLIC_CONTEXT_STRIDE as int) == 0 {
        Some(PlicRegister::Threshold((offset - PLIC_CONTEXT_BASE) / (PLIC_CONTEXT_STRIDE as int)))
    } else if PLIC_CONTEXT_BASE <= offset && offset % (PLIC_CONTEXT_STRIDE as int) == 4 {
        Some(
            PlicRegister::ClaimComplete(
                (offset - PLIC_CONTEXT_BASE) / (PLIC_CONTEXT_STRIDE as int),
            ),
        )
    } else {
        None
    }
}

/// The registers of the controller as contracts speak of them.
pub struct PlicView {
    /// Guest-physical address of the window.
    pub base: usize,
    pub priority: Seq<u32>,
    pub pending: Seq<u32>,
    pub enable: Seq<u32>,
    pub threshold: Seq<u32>,
    pub claim_complete: Seq<u32>,
}

impl PlicView {
    /// Whether every register file has its length, and the window lies in
    /// the address space.
    pub open spec fn wf(self) -> bool {
        &&& self.base + PLIC_SIZE <= usize::MAX
        &&& self.priority.len() == MAX_SOURCES
        &&& self.pending.len() == 32
        &&& self.enable.len() == MAX_CONTEXTS * 32
        &&& self.threshold.len() == MAX_CONTEXTS
        &&& self.claim_complete.len() == MAX_CONTEXTS
    }

    /// Whether `addr` lies in the window.
    pub open spec fn in_window(self, addr: usize) -> bool {
        self.base <= addr && addr < self.base + PLIC_SIZE
    }

    /// What a register holds.
    pub open spec fn value_of(self, reg: PlicRegister) -> u32 {
        match reg {
            PlicRegister::Priority(n) => self.priority[n],
            PlicRegister::Pending(n) => self.pending[n],
            PlicRegister::Enable(n) => self.enable[n],
            PlicRegister::Threshold(n) => self.threshold[n],
            PlicRegister::ClaimComplete(n) => self.claim_complete[n],
        }
    }

    /// The registers with `val` stored in one of them.
    pub open spec fn with_value(self, reg: PlicRegister, val: u32) -> PlicView {
        match reg {
            PlicRegister::Priority(n) => PlicView {
                priority: self.priority.update(n, val),
                ..self
            },
            PlicRegister::Pending(n) => PlicView { pending: self.pending.update(n, val), ..self },
            PlicRegister::Enable(n) => PlicView { enable: self.enable.update(n, val), ..self },
            PlicRegister::Threshold(n) => PlicView {
                threshold: self.threshold.update(n, val),
                ..self
            },
            PlicRegister::ClaimComplete(n) => PlicView {
                claim_complete: self.claim_complete.update(n, val),
                ..self
            },
        }
    }

    /// What a load of 32 bits from `addr` gives: the register there, or 0
    /// where the window has none.
    pub open spec fn read(self, addr: usize) -> u32 {
        match register_at(addr - self.base) {
            Some(reg) => self.value_of(reg),
            None => 0,
        }
    }

    /// The registers after a store of 32 bits to `addr`: the register there
    /// holds `val`; a store to where the window has no register changes
    /// nothing.
    pub open spec fn written(self, addr: usize, val: u32) -> PlicView {
        match register_at(addr - self.base) {
            Some(reg) => self.with_value(reg, val),
            None => self,
        }
    }
}

/// The state of the interrupt controller of one guest.
#[derive(Debug)]
pub struct PlicState {
    base: usize,
    priority: Vec<u32>,
    pending: Vec<u32>,
    enable: Vec<u32>,
    threshold: Vec<u32>,
    claim_complete: Vec<u32>,
}

impl View for PlicState {
    type V = PlicView;

    closed spec fn view(&self) -> PlicView {
        PlicView {
            base: self.base,
            priority: self.priority@,
            pending: self.pending@,
            enable: self.enable@,
            threshold: self.threshold@,
            claim_complete: self.claim_complete@,
        }
    }
}

/// A vector of `n` zeros.
fn zeros(n: usize) -> (v: Vec<u32>)
    ensures
        v@ == Seq::new(n as nat, |i: int| 0u32),
{
    let mut v: Vec<u32> = Vec::new();
    let mut i: usize = 0;
    while i < n
        invariant
            i <= n,
            v@ == Seq::new(i as nat, |j: int| 0u32),
        decreases n - i,
    {
        v.push(0);
        i = i + 1;
        assert(v@ =~= Seq::new(i as nat, |j: int| 0u32));
    }
    v
}

impl PlicState {
    /// The controller with every register zero and its window at `base`.
    pub open spec fn initial(base: usize) -> PlicView {
        PlicView {
            base,
            priority: Seq::new(MAX_SOURCES as nat, |i: int| 0u32),
            pending: Seq::new(32, |i: int| 0u32),
            enable: Seq::new((MAX_CONTEXTS * 32) as nat, |i: int| 0u32),
            threshold: Seq::new(MAX_CONTEXTS as nat, |i: int| 0u32),
            claim_complete: Seq::new(MAX_CONTEXTS as nat, |i: int| 0u32),
        }
    }

    /// Creates the controller with its window at `base`.
    pub fn new(base: usize) -> (r: PlicState)
        requires
            base + PLIC_SIZE <= usize::MAX,
        ensures
            r@ == PlicState::initial(base),
            r@.wf(),
    {
        PlicState {
            base,
            priority: zeros(MAX_SOURCES),
            pending: zeros(32),
            enable: zeros(MAX_CONTEXTS * 32),
            threshold: zeros(MAX_CONTEXTS),
            claim_complete: zeros(MAX_CONTEXTS),
        }
    }

    /// Guest-physical address of the window.
    pub fn base(&self) -> (r: usize)
        ensures
            r == self@.base,
    {
        self.base
    }

    /// What the claim/complete register of `context` holds.
    pub fn claim_complete(&self, context: usize) -> (r: u32)
        requires
            self@.wf(),
            context < MAX_CONTEXTS,
        ensures
            r == self@.claim_complete[context as int],
    {
        self.claim_complete[context]
    }

    /// Stores `irq` in the claim/complete register of `context`.
    pub fn set_claim_complete(&mut self, context: usize, irq: u32)
        requires
            old(self)@.wf(),
            context < MAX_CONTEXTS,
        ensures
            final(self)@ == (PlicView {
                claim_complete: old(self)@.claim_complete.update(context as int, irq),
                ..old(self)@
            }),
            final(self)@.wf(),
    {
        self.claim_complete.set(context, irq);
    }

    /// Loads 32 bits from the register at `addr`.
    pub fn read_u32(&self, addr: usize) -> (r: u32)
        requires
            self@.wf(),
            self@.in_window(addr),
        ensures
            r == self@.read(addr),
    {
        let offset: usize = addr - self.base;
        if offset % 4 != 0 {
            0
        } else if offset < PLIC_PENDING_BASE {
            self.priority[offset / 4]
        } else if offset < PLIC_PENDING_END {
            self.pending[(offset - PLIC_PENDING_BASE) / 4]
        } else if PLIC_ENABLE_BASE <= offset && offset < PLIC_ENABLE_END {
            self.enable[(offset - PLIC_ENABLE_BASE) / 4]
        } else if PLIC_CONTEXT_BASE <= offset && offset % PLIC_CONTEXT_STRIDE == 0 {
            self.threshold[(offset - PLIC_CONTEXT_BASE) / PLIC_CONTEXT_STRIDE]
        } else if PLIC_CONTEXT_BASE <= offset && offset % PLIC_CONTEXT_STRIDE == 4 {
            self.claim_complete[(offset - PLIC_CONTEXT_BASE) / PLIC_CONTEXT_STRIDE]
        } else {
            0
        }
    }

    /// Stores 32 bits to the register at `addr`.
    pub fn write_u32(&mut self, addr: usize, val: u32)
        requires
            old(self)@.wf(),
            old(self)@.in_window(addr),
        ensures
            final(self)@ == old(self)@.written(addr, val),
            final(self)@.wf(),
    {
        let offset: usize = addr - self.base;
        if offset % 4 != 0 {
        } else if offset < PLIC_PENDING_BASE {
            self.priority.set(offset / 4, val);
        } else if offset < PLIC_PENDING_END {
            self.pending.set((offset - PLIC_PENDING_BASE) / 4, val);
        } else if PLIC_ENABLE_BASE <= offset && offset < PLIC_ENABLE_END {
            self.enable.set((offset - PLIC_ENABLE_BASE) / 4, val);
        } else if PLIC_CONTEXT_BASE <= offset && offset % PLIC_CONTEXT_STRIDE == 0 {
            self.threshold.set((offset - PLIC_CONTEXT_BASE) / PLIC_CONTEXT_STRIDE, val);
        } else if PLIC_CONTEXT_BASE <= offset && offset % PLIC_CONTEXT_STRIDE == 4 {
            self.claim_complete.set((offset - PLIC_CONTEXT_BASE) / PLIC_CONTEXT_STRIDE, val);
        }
    }
}

/// A store to a register is read back by a load from the same address, and
/// leaves what a load from any other address gives as it was.
pub proof fn lemma_written_then_read(plic: PlicView, addr: usize, val: u32, other: usize)
    requires
        plic.wf(),
        plic.in_window(addr),
        plic.in_window(other),
    ensures
        plic.written(addr, val).wf(),
        register_at(addr - plic.base) is Some ==> plic.written(addr, val).read(addr) == val,
        register_at(addr - plic.base) is None ==> plic.written(addr, val) == plic,
        other != addr ==> plic.written(addr, val).read(other) == plic.read(other),
{
}

} // verus!
