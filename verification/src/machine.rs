//! The simulated machine the entry sequence acts on: a flat byte-addressed
//! memory, the stack-pointer register, the few control bits the sequence
//! touches, and the boot stage reached so far.
//!
//! Region bounds come from the build/link contract: named boundary markers an
//! external linking step must supply. They are modeled as plain addresses
//! with a well-formedness predicate stating what a sane link map guarantees.

use vstd::prelude::*;

verus! {

/// The machine's natural word size in bytes; the zero-fill and copy loops
/// advance by this amount.
pub const WORD_SIZE: usize = 8;

/// The strictly linear boot state machine: every transition is unconditional,
/// and `Halted` is terminal.
#[derive(Clone, Copy, Debug, PartialEq, Eq, Structural)]
pub enum BootStage {
    /// Raw silicon state right after reset.
    Reset,
    /// The chip's custom instruction-set extension is switched on.
    ExtensionEnabled,
    /// Caches, branch history and branch target buffer hold no stale entries.
    CacheInvalidated,
    /// The interrupt-enable control state is cleared.
    InterruptsDisabled,
    /// A valid downward-growing stack exists; calls are now possible.
    StackReady,
    /// Every byte of the uninitialized-data region is zero.
    BssCleared,
    /// The initialized-data region equals its read-only initial image.
    DataCopied,
    /// Control is with the application entry point.
    Running,
    /// The terminal low-power wait; nothing past it is ever reached.
    Halted,
}

/// Simulated machine state.
pub struct Machine {
    /// The flat byte-addressed memory image.
    pub mem: Vec<u8>,
    /// The stack-pointer register; meaningful from `StackReady` on.
    pub sp: usize,
    /// Whether the custom instruction-set extension is enabled.
    pub ext_on: bool,
    /// Whether caches and predictors have been invalidated since reset.
    pub caches_clean: bool,
    /// The interrupt-enable control state.
    pub ints_on: bool,
    /// The boot stage reached so far.
    pub stage: BootStage,
    /// Whether the hand-off tokens have been constructed this boot.
    pub handed_off: bool,
}

/// Region bounds supplied by the build/link contract: the reserved stack
/// region, the half-open uninitialized-data range, the half-open
/// initialized-data range, and the base of its read-only initial image.
pub struct LinkContract {
    /// Base address of the reserved stack region.
    pub stack_base: usize,
    /// Size of the reserved stack region, in bytes.
    pub stack_size: usize,
    /// Start of the uninitialized-data range to zero.
    pub sbss: usize,
    /// End (exclusive) of the uninitialized-data range.
    pub ebss: usize,
    /// Base of the read-only initial-data image.
    pub sidata: usize,
    /// Start of the runtime initialized-data range.
    pub sdata: usize,
    /// End (exclusive) of the runtime initialized-data range.
    pub edata: usize,
}

impl LinkContract {
    /// Length of the initialized-data range, in bytes.
    pub open spec fn dlen(self) -> int {
        self.edata - self.sdata
    }

    /// Whether address `i` lies in the uninitialized-data range.
    pub open spec fn in_bss(self, i: int) -> bool {
        self.sbss <= i < self.ebss
    }

    /// Whether address `i` lies in the runtime initialized-data range.
    pub open spec fn in_data(self, i: int) -> bool {
        self.sdata <= i < self.edata
    }

    /// Whether address `i` lies in the read-only initial-data image.
    pub open spec fn in_idata(self, i: int) -> bool {
        self.sidata <= i < self.sidata + self.dlen()
    }

    /// What a sane link map guarantees for an image of `mem_len` bytes: each
    /// range is in bounds and word-granular, the three data-bearing ranges
    /// are pairwise disjoint, and the stack top is computable without
    /// overflow.
    pub open spec fn wf(self, mem_len: int) -> bool {
        &&& self.sbss <= self.ebss <= mem_len
        &&& (self.ebss - self.sbss) % (WORD_SIZE as int) == 0
        &&& self.sdata <= self.edata <= mem_len
        &&& (self.edata - self.sdata) % (WORD_SIZE as int) == 0
        &&& self.sidata + self.dlen() <= mem_len
        &&& (self.ebss <= self.sdata || self.edata <= self.sbss)
        &&& (self.ebss <= self.sidata || self.sidata + self.dlen() <= self.sbss)
        &&& (self.edata <= self.sidata || self.sidata + self.dlen() <= self.sdata)
        &&& self.stack_base + self.stack_size <= usize::MAX
    }

    /// Decides `wf` at runtime, for callers outside verified code: the entry
    /// sequence's contracts demand a well-formed link map, and an unverified
    /// caller has no other way to know it holds.
    pub fn check(&self, mem_len: usize) -> (b: bool)
        ensures
            b == self.wf(mem_len as int),
    {
        if !(self.sbss <= self.ebss && self.ebss <= mem_len) {
            return false;
        }
        if (self.ebss - self.sbss) % WORD_SIZE != 0 {
            return false;
        }
        if !(self.sdata <= self.edata && self.edata <= mem_len) {
            return false;
        }
        let dlen = self.edata - self.sdata;
        if dlen % WORD_SIZE != 0 {
            return false;
        }
        if !(self.sidata <= mem_len && dlen <= mem_len - self.sidata) {
            return false;
        }
        let idata_end = self.sidata + dlen;
        if !(self.ebss <= self.sdata || self.edata <= self.sbss) {
            return false;
        }
        if !(self.ebss <= self.sidata || idata_end <= self.sbss) {
            return false;
        }
        if !(self.edata <= self.sidata || idata_end <= self.sdata) {
            return false;
        }
        if !(self.stack_size <= usize::MAX - self.stack_base) {
            return false;
        }
        true
    }
}

impl Machine {
    /// A machine as the boot ROM leaves it: an arbitrary memory image, no
    /// stage passed, no stack, extension off, caches possibly stale,
    /// interrupts conservatively assumed live, and no tokens handed out.
    pub fn at_reset(mem: Vec<u8>) -> (m: Machine)
        ensures
            m == (Machine {
                mem,
                sp: 0usize,
                ext_on: false,
                caches_clean: false,
                ints_on: true,
                stage: BootStage::Reset,
                handed_off: false,
            }),
    {
        Machine {
            mem,
            sp: 0,
            ext_on: false,
            caches_clean: false,
            ints_on: true,
            stage: BootStage::Reset,
            handed_off: false,
        }
    }

    /// The boot stage reached so far.
    pub fn stage(&self) -> (s: BootStage)
        ensures
            s == self.stage,
    {
        self.stage
    }
}

} // verus!
