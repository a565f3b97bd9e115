use allwinner_rt::entry::{
    copy_data, copy_words, disable_interrupts, enable_extension, enter_halt, establish_stack,
    halt_step, handoff, invalidate_caches, run_entry, zero_bss, zero_words,
};
use allwinner_rt::machine::{BootStage, LinkContract, Machine, WORD_SIZE};

fn layout() -> LinkContract {
    // [0, 64) BSS, [64, 96) runtime data, [96, 128) initial image,
    // [128, 160) reserved stack.
    LinkContract {
        stack_base: 128,
        stack_size: 32,
        sbss: 0,
        ebss: 64,
        sidata: 96,
        sdata: 64,
        edata: 96,
    }
}

/// A 160-byte image: garbage in the BSS range, garbage in the runtime data
/// range, a distinctive 32-byte payload at the initial-data image base.
fn image(payload: &[u8; 32]) -> Vec<u8> {
    let mut mem = vec![0u8; 160];
    for i in 0..64 {
        mem[i] = 0xA5u8.wrapping_add(i as u8);
    }
    for i in 64..96 {
        mem[i] = 0x5A;
    }
    for (i, b) in payload.iter().enumerate() {
        mem[96 + i] = *b;
    }
    mem
}

fn payload() -> [u8; 32] {
    let mut d = [0u8; 32];
    for i in 0..32 {
        d[i] = (i as u8) * 3 + 7;
    }
    d
}

#[test]
fn word_size_is_eight() {
    assert_eq!(WORD_SIZE, 8);
}

#[test]
fn stage_progression_is_linear() {
    let mut m = Machine::at_reset(image(&payload()));
    let lc = layout();
    assert_eq!(m.stage(), BootStage::Reset);
    enable_extension(&mut m);
    assert_eq!(m.stage(), BootStage::ExtensionEnabled);
    assert!(m.ext_on);
    invalidate_caches(&mut m);
    assert_eq!(m.stage(), BootStage::CacheInvalidated);
    assert!(m.caches_clean);
    disable_interrupts(&mut m);
    assert_eq!(m.stage(), BootStage::InterruptsDisabled);
    assert!(!m.ints_on);
    establish_stack(&mut m, &lc);
    assert_eq!(m.stage(), BootStage::StackReady);
    zero_bss(&mut m, &lc);
    assert_eq!(m.stage(), BootStage::BssCleared);
    copy_data(&mut m, &lc);
    assert_eq!(m.stage(), BootStage::DataCopied);
    assert!(!m.handed_off);
    let (_p, _c) = handoff(&mut m);
    assert_eq!(m.stage(), BootStage::Running);
    assert!(m.handed_off);
    enter_halt(&mut m);
    assert_eq!(m.stage(), BootStage::Halted);
}

#[test]
fn stack_pointer_is_base_plus_size() {
    let mut m = Machine::at_reset(image(&payload()));
    let lc = layout();
    enable_extension(&mut m);
    invalidate_caches(&mut m);
    disable_interrupts(&mut m);
    establish_stack(&mut m, &lc);
    assert_eq!(m.sp, 160);
    // one-word stack: the smallest size the contract speaks of
    let mut m2 = Machine::at_reset(image(&payload()));
    let lc2 = LinkContract { stack_base: 152, stack_size: 8, ..layout() };
    enable_extension(&mut m2);
    invalidate_caches(&mut m2);
    disable_interrupts(&mut m2);
    establish_stack(&mut m2, &lc2);
    assert_eq!(m2.sp, 160);
}

#[test]
fn bss_zeroing_scrubs_arbitrary_garbage() {
    let mut m = Machine::at_reset(image(&payload()));
    let lc = layout();
    assert!(m.mem[..64].iter().any(|&b| b != 0));
    enable_extension(&mut m);
    invalidate_caches(&mut m);
    disable_interrupts(&mut m);
    establish_stack(&mut m, &lc);
    zero_bss(&mut m, &lc);
    assert!(m.mem[..64].iter().all(|&b| b == 0));
    // nothing outside the BSS range moved
    assert!(m.mem[64..96].iter().all(|&b| b == 0x5A));
    assert_eq!(&m.mem[96..128], &payload());
}

#[test]
fn data_copy_matches_initial_image() {
    let d = payload();
    let mut m = Machine::at_reset(image(&d));
    let lc = layout();
    enable_extension(&mut m);
    invalidate_caches(&mut m);
    disable_interrupts(&mut m);
    establish_stack(&mut m, &lc);
    zero_bss(&mut m, &lc);
    copy_data(&mut m, &lc);
    assert_eq!(&m.mem[64..96], &d);
    // the read-only image itself is untouched
    assert_eq!(&m.mem[96..128], &d);
}

#[test]
fn end_to_end_boot() {
    // 64 bytes of nonzero garbage in the declared BSS range and a 32-byte
    // payload at the initial-data image base, with a no-op application entry.
    let d = payload();
    let mut m = Machine::at_reset(image(&d));
    let lc = layout();
    let (_p, _c) = run_entry(&mut m, &lc);
    assert!(m.mem[..64].iter().all(|&b| b == 0));
    assert_eq!(&m.mem[64..96], &d);
    assert_eq!(&m.mem[96..128], &d);
    assert_eq!(m.sp, 160);
    assert!(m.ext_on);
    assert!(m.caches_clean);
    assert!(!m.ints_on);
    assert!(m.handed_off);
    assert_eq!(m.stage(), BootStage::Halted);
}

#[test]
fn halt_loop_changes_nothing() {
    let d = payload();
    let mut m = Machine::at_reset(image(&d));
    let lc = layout();
    let _tokens = run_entry(&mut m, &lc);
    let mem_before = m.mem.clone();
    let sp_before = m.sp;
    for _ in 0..3 {
        halt_step(&mut m);
        assert_eq!(m.stage(), BootStage::Halted);
        assert_eq!(m.mem, mem_before);
        assert_eq!(m.sp, sp_before);
        assert!(m.ext_on && m.caches_clean && !m.ints_on && m.handed_off);
    }
}

#[test]
fn tokens_handed_out_once_per_boot() {
    let mut m = Machine::at_reset(image(&payload()));
    let lc = layout();
    assert!(!m.handed_off);
    let (_p, _c) = run_entry(&mut m, &lc);
    // the machine records the one hand-off; a second hand-off stage on this
    // machine is rejected by its contract (it demands `!handed_off`)
    assert!(m.handed_off);
}

#[test]
fn zero_words_is_word_granular_and_local() {
    let mut mem = vec![0xFFu8; 32];
    zero_words(&mut mem, 8, 24);
    assert!(mem[..8].iter().all(|&b| b == 0xFF));
    assert!(mem[8..24].iter().all(|&b| b == 0));
    assert!(mem[24..].iter().all(|&b| b == 0xFF));
}

#[test]
fn zero_words_empty_range() {
    let mut mem = vec![0x11u8; 16];
    zero_words(&mut mem, 8, 8);
    assert!(mem.iter().all(|&b| b == 0x11));
}

#[test]
fn copy_words_moves_bytes_and_leaves_source() {
    let mut mem = vec![0u8; 48];
    for i in 0..16 {
        mem[32 + i] = i as u8 + 1;
    }
    copy_words(&mut mem, 8, 32, 16);
    for i in 0..16 {
        assert_eq!(mem[8 + i], i as u8 + 1);
        assert_eq!(mem[32 + i], i as u8 + 1);
    }
    assert!(mem[..8].iter().all(|&b| b == 0));
    assert!(mem[24..32].iter().all(|&b| b == 0));
}

#[test]
fn copy_words_empty_range() {
    let mut mem = vec![0x22u8; 16];
    copy_words(&mut mem, 0, 8, 0);
    assert!(mem.iter().all(|&b| b == 0x22));
}
