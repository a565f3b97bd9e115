//! The entry sequence: the single, non-reentrant procedure the boot ROM
//! jumps into at reset, modeled stage by stage on the simulated machine.
//!
//! Stages are strictly ordered and unconditional; the only loops are the
//! word-granular zero-fill and copy, and the terminal halt wait. Each stage
//! function requires the stage that precedes it and establishes the next, so
//! the order cannot be permuted in verified code.

use vstd::prelude::*;

use crate::machine::{BootStage, LinkContract, Machine, WORD_SIZE};
use crate::tokens::{Clocks, Peripherals, __rom_init_params};

verus! {

/// Writes a zero into every byte of the half-open range `[lo, hi)`,
/// advancing word by word, and touches nothing else.
pub fn zero_words(mem: &mut Vec<u8>, lo: usize, hi: usize)
    requires
        lo <= hi <= old(mem)@.len(),
        (hi - lo) % (WORD_SIZE as int) == 0,
    ensures
        final(mem)@.len() == old(mem)@.len(),
        forall|i: int| lo <= i < hi ==> final(mem)@[i] == 0u8,
        forall|i: int|
            0 <= i < old(mem)@.len() && !(lo <= i < hi) ==> final(mem)@[i] == old(mem)@[i],
{
    let ghost mem0 = mem@;
    let mut addr: usize = lo;
    while addr < hi
        invariant
            lo <= addr <= hi <= mem@.len(),
            mem@.len() == mem0.len(),
            (hi - addr) % (WORD_SIZE as int) == 0,
            forall|i: int| lo <= i < addr ==> mem@[i] == 0u8,
            forall|i: int| 0 <= i < mem0.len() && !(lo <= i < addr) ==> mem@[i] == mem0[i],
        decreases hi - addr,
    {
        let mut j: usize = 0;
        while j < WORD_SIZE
            invariant
                j <= WORD_SIZE,
                lo <= addr,
                addr + WORD_SIZE <= hi <= mem@.len(),
                mem@.len() == mem0.len(),
                forall|i: int| lo <= i < addr + j ==> mem@[i] == 0u8,
                forall|i: int| 0 <= i < mem0.len() && !(lo <= i < addr + j) ==> mem@[i] == mem0[i],
            decreases WORD_SIZE - j,
        {
            mem.set(addr + j, 0);
            j = j + 1;
        }
        addr = addr + WORD_SIZE;
    }
}

/// Copies `len` bytes from the range starting at `src` to the disjoint range
/// starting at `dst`, advancing word by word — a raw word copy, order and
/// byte values preserved — and touches nothing else.
pub fn copy_words(mem: &mut Vec<u8>, dst: usize, src: usize, len: usize)
    requires
        dst + len <= old(mem)@.len(),
        src + len <= old(mem)@.len(),
        len % WORD_SIZE == 0,
        dst + len <= src || src + len <= dst,
    ensures
        final(mem)@.len() == old(mem)@.len(),
        forall|k: int| 0 <= k < len ==> #[trigger] final(mem)@[dst + k] == old(mem)@[src + k],
        forall|i: int|
            0 <= i < old(mem)@.len() && !(dst <= i < dst + len) ==> final(mem)@[i] == old(mem)@[i],
{
    let ghost mem0 = mem@;
    let n: usize = mem.len();
    let mut off: usize = 0;
    while off < len
        invariant
            off <= len,
            off % WORD_SIZE == 0,
            len % WORD_SIZE == 0,
            dst + len <= mem@.len(),
            src + len <= mem@.len(),
            dst + len <= src || src + len <= dst,
            mem@.len() == mem0.len(),
            mem0.len() == n,
            forall|k: int| 0 <= k < off ==> #[trigger] mem@[dst + k] == mem0[src + k],
            forall|i: int| 0 <= i < mem0.len() && !(dst <= i < dst + off) ==> mem@[i] == mem0[i],
        decreases len - off,
    {
        let mut j: usize = 0;
        while j < WORD_SIZE
            invariant
                j <= WORD_SIZE,
                off + WORD_SIZE <= len,
                len % WORD_SIZE == 0,
                dst + len <= mem@.len(),
                src + len <= mem@.len(),
                dst + len <= src || src + len <= dst,
                mem@.len() == mem0.len(),
                mem0.len() == n,
                forall|k: int| 0 <= k < off + j ==> #[trigger] mem@[dst + k] == mem0[src + k],
                forall|i: int|
                    0 <= i < mem0.len() && !(dst <= i < dst + off + j) ==> mem@[i] == mem0[i],
            decreases WORD_SIZE - j,
        {
            let b: u8 = mem[src + off + j];
            mem.set(dst + off + j, b);
            j = j + 1;
        }
        off = off + WORD_SIZE;
    }
}

/// Stage 1, extension enable: sets the control bit for the chip's custom
/// instruction-set extension, before anything later relies on it.
pub fn enable_extension(m: &mut Machine)
    requires
        old(m).stage == BootStage::Reset,
    ensures
        *final(m) == (Machine { ext_on: true, stage: BootStage::ExtensionEnabled, ..*old(m) }),
{
    m.ext_on = true;
    m.stage = BootStage::ExtensionEnabled;
}

/// Stage 2, cache and predictor invalidation: no entry from before reset may
/// influence what follows.
pub fn invalidate_caches(m: &mut Machine)
    requires
        old(m).stage == BootStage::ExtensionEnabled,
    ensures
        *final(m) == (Machine {
            caches_clean: true,
            stage: BootStage::CacheInvalidated,
            ..*old(m)
        }),
{
    m.caches_clean = true;
    m.stage = BootStage::CacheInvalidated;
}

/// Stage 3, interrupt disable: clears the interrupt-enable control state; no
/// handler exists yet, so nothing may fire.
pub fn disable_interrupts(m: &mut Machine)
    requires
        old(m).stage == BootStage::CacheInvalidated,
    ensures
        *final(m) == (Machine { ints_on: false, stage: BootStage::InterruptsDisabled, ..*old(m) }),
{
    m.ints_on = false;
    m.stage = BootStage::InterruptsDisabled;
}

/// Stage 4, stack establishment: the stack pointer becomes the reserved
/// region's base plus its declared size (the stack grows downward), before
/// any subroutine call or local-variable use.
pub fn establish_stack(m: &mut Machine, lc: &LinkContract)
    requires
        old(m).stage == BootStage::InterruptsDisabled,
        lc.stack_base + lc.stack_size <= usize::MAX,
    ensures
        final(m).sp == lc.stack_base + lc.stack_size,
        *final(m) == (Machine {
            sp: (lc.stack_base + lc.stack_size) as usize,
            stage: BootStage::StackReady,
            ..*old(m)
        }),
{
    m.sp = lc.stack_base + lc.stack_size;
    m.stage = BootStage::StackReady;
}

/// Stage 5, BSS zeroing: after it, every byte in `[sbss, ebss)` is zero
/// regardless of prior content, and no other byte moved.
pub fn zero_bss(m: &mut Machine, lc: &LinkContract)
    requires
        old(m).stage == BootStage::StackReady,
        lc.wf(old(m).mem@.len() as int),
    ensures
        final(m).mem@.len() == old(m).mem@.len(),
        forall|i: int| lc.in_bss(i) ==> final(m).mem@[i] == 0u8,
        forall|i: int|
            0 <= i < old(m).mem@.len() && !lc.in_bss(i) ==> final(m).mem@[i] == old(m).mem@[i],
        final(m).sp == old(m).sp,
        final(m).ext_on == old(m).ext_on,
        final(m).caches_clean == old(m).caches_clean,
        final(m).ints_on == old(m).ints_on,
        final(m).handed_off == old(m).handed_off,
        final(m).stage == BootStage::BssCleared,
{
    zero_words(&mut m.mem, lc.sbss, lc.ebss);
    m.stage = BootStage::BssCleared;
}

/// Stage 6, data materialization: after it, every byte of the runtime data
/// range equals the corresponding byte of the read-only initial image, and
/// no byte outside the data range moved.
pub fn copy_data(m: &mut Machine, lc: &LinkContract)
    requires
        old(m).stage == BootStage::BssCleared,
        lc.wf(old(m).mem@.len() as int),
    ensures
        final(m).mem@.len() == old(m).mem@.len(),
        forall|k: int| 0 <= k < lc.dlen() ==> #[trigger] final(m).mem@[lc.sdata + k] == old(
            m,
        ).mem@[lc.sidata + k],
        forall|i: int|
            0 <= i < old(m).mem@.len() && !lc.in_data(i) ==> final(m).mem@[i] == old(m).mem@[i],
        final(m).sp == old(m).sp,
        final(m).ext_on == old(m).ext_on,
        final(m).caches_clean == old(m).caches_clean,
        final(m).ints_on == old(m).ints_on,
        final(m).handed_off == old(m).handed_off,
        final(m).stage == BootStage::DataCopied,
{
    copy_words(&mut m.mem, lc.sdata, lc.sidata, lc.edata - lc.sdata);
    m.stage = BootStage::DataCopied;
}

/// Stage 7, hand-off: constructs the two ownership tokens — once per boot,
/// enforced by the precondition on `handed_off` together with every other
/// stage preserving that flag — and control passes to the application entry
/// point.
pub fn handoff(m: &mut Machine) -> (tokens: (Peripherals, Clocks))
    requires
        old(m).stage == BootStage::DataCopied,
        !old(m).handed_off,
    ensures
        *final(m) == (Machine { handed_off: true, stage: BootStage::Running, ..*old(m) }),
{
    m.handed_off = true;
    m.stage = BootStage::Running;
    __rom_init_params()
}

/// Whether a machine state admits the hand-off stage at all.
pub open spec fn handoff_enabled(m: Machine) -> bool {
    m.stage == BootStage::DataCopied && !m.handed_off
}

/// Law: hand-off tokens are constructed at most once per boot. Once a
/// machine records that the tokens were handed out, no state with that
/// record satisfies the hand-off stage's precondition, so a second
/// construction is rejected.
pub proof fn lemma_handoff_at_most_once(m: Machine)
    requires
        m.handed_off,
    ensures
        !handoff_enabled(m),
{
}

/// Stage 8 entered: if the application entry point returns, the machine
/// drops into the terminal low-power wait.
pub fn enter_halt(m: &mut Machine)
    requires
        old(m).stage == BootStage::Running,
    ensures
        *final(m) == (Machine { stage: BootStage::Halted, ..*old(m) }),
{
    m.stage = BootStage::Halted;
}

/// Law: the halt loop is a true terminal state. One step of the low-power
/// wait re-enters itself and changes nothing observable — the machine after
/// the step is identical to the machine before it.
pub fn halt_step(m: &mut Machine)
    requires
        old(m).stage == BootStage::Halted,
    ensures
        *final(m) == *old(m),
{
}

/// The whole entry sequence on one machine, in its fixed order, with the
/// application entry point treated as a no-op that returns: afterwards the
/// extension is on, caches are clean, interrupts are off, the stack pointer
/// sits atop the reserved region, the BSS range is all zero, the data range
/// equals the initial image, every other byte is untouched, the tokens have
/// been handed out exactly once, and the machine is halted.
pub fn run_entry(m: &mut Machine, lc: &LinkContract) -> (tokens: (Peripherals, Clocks))
    requires
        old(m).stage == BootStage::Reset,
        !old(m).handed_off,
        lc.wf(old(m).mem@.len() as int),
    ensures
        final(m).stage == BootStage::Halted,
        final(m).ext_on,
        final(m).caches_clean,
        !final(m).ints_on,
        final(m).handed_off,
        final(m).sp == lc.stack_base + lc.stack_size,
        final(m).mem@.len() == old(m).mem@.len(),
        forall|i: int| lc.in_bss(i) ==> final(m).mem@[i] == 0u8,
        forall|k: int| 0 <= k < lc.dlen() ==> #[trigger] final(m).mem@[lc.sdata + k] == old(
            m,
        ).mem@[lc.sidata + k],
        forall|i: int|
            0 <= i < old(m).mem@.len() && !lc.in_bss(i) && !lc.in_data(i) ==> final(m).mem@[i]
                == old(m).mem@[i],
{
    let ghost m0 = *m;
    enable_extension(m);
    invalidate_caches(m);
    disable_interrupts(m);
    establish_stack(m, lc);
    let ghost m4 = *m;
    zero_bss(m, lc);
    let ghost m5 = *m;
    copy_data(m, lc);
    let ghost m6 = *m;
    let tokens = handoff(m);
    enter_halt(m);
    proof {
        assert(m.mem == m6.mem);
        assert(m4.mem == m0.mem);
        assert forall|i: int| lc.in_bss(i) implies m.mem@[i] == 0u8 by {
            assert(!lc.in_data(i));
            assert(m5.mem@[i] == 0u8);
            assert(m6.mem@[i] == m5.mem@[i]);
        }
        assert forall|k: int| 0 <= k < lc.dlen() implies #[trigger] m.mem@[lc.sdata + k]
            == m0.mem@[lc.sidata + k] by {
            assert(m6.mem@[lc.sdata + k] == m5.mem@[lc.sidata + k]);
            assert(!lc.in_bss(lc.sidata + k));
            assert(m5.mem@[lc.sidata + k] == m4.mem@[lc.sidata + k]);
        }
        assert forall|i: int|
            0 <= i < m0.mem@.len() && !lc.in_bss(i) && !lc.in_data(i) implies m.mem@[i]
            == m0.mem@[i] by {
            assert(m5.mem@[i] == m4.mem@[i]);
            assert(m6.mem@[i] == m5.mem@[i]);
        }
    }
    tokens
}

} // verus!
