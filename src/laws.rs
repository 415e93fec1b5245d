//! Laws of the machine, stated over the abstract state and proved from the
//! instruction semantics.
use vstd::prelude::*;

use crate::instruction::{nibble1, nibble2, nibble3, nibble4};
use crate::state::{
    cycle, execute_spec, first_key_from, mem_addr, sprite_hits, timers_ticked, wrap16, Chip8Error,
    EmuState, NUM_KEYS, SCREEN_CELLS, STACK_SIZE,
};

verus! {

/// 0x8XY4 adds with carry: for any values a = VX and b = VY, VX becomes
/// (a + b) mod 256 and VF becomes 1 exactly when a + b exceeds 255, else 0.
/// (With X = F the flag overwrites the sum, so X ranges over V0..VE.)
pub proof fn law_add_sets_carry(s: EmuState, op: u16, rnd: u8)
    requires
        s.wf(),
        nibble1(op) == 8,
        nibble4(op) == 4,
        nibble2(op) != 0xF,
    ensures
        ({
            let (x, y) = (nibble2(op) as int, nibble3(op) as int);
            let (a, b) = (s.v[x], s.v[y]);
            execute_spec(s, op, rnd) matches Ok(t) && t.v[x] == (a + b) % 256
                && t.v[15] == (if a + b > 255 { 1u8 } else { 0u8 })
        }),
{
}

/// 0x8XY5 subtracts with borrow: for any values a = VX and b = VY, VX becomes
/// (a - b) mod 256 and VF becomes 1 exactly when a >= b (no borrow), else 0.
/// (With X = F the flag overwrites the difference, so X ranges over V0..VE.)
pub proof fn law_sub_sets_no_borrow(s: EmuState, op: u16, rnd: u8)
    requires
        s.wf(),
        nibble1(op) == 8,
        nibble4(op) == 5,
        nibble2(op) != 0xF,
    ensures
        ({
            let (x, y) = (nibble2(op) as int, nibble3(op) as int);
            let (a, b) = (s.v[x], s.v[y]);
            execute_spec(s, op, rnd) matches Ok(t) && t.v[x] == (a - b) % 256
                && t.v[15] == (if a >= b { 1u8 } else { 0u8 })
        }),
{
}

/// 0x00E0 leaves every one of the 2048 display cells off.
pub proof fn law_clear_blanks_display(s: EmuState, rnd: u8)
    requires
        s.wf(),
    ensures
        execute_spec(s, 0x00E0, rnd) matches Ok(t) && t.screen.len() == SCREEN_CELLS
            && forall|c: int| 0 <= c < SCREEN_CELLS ==> !t.screen[c],
{
}

/// Drawing the same sprite at the same place twice in a row gives back the
/// display as it was; the second draw reports a collision (VF = 1) exactly
/// when one of its pixels is on after the first draw, so in particular
/// whenever the first draw turned a pixel on. The sprite's registers VX and
/// VY must not be VF, which the first draw overwrites.
pub proof fn law_draw_twice_restores(s: EmuState, op: u16, rnd: u8)
    requires
        s.wf(),
        nibble1(op) == 0xD,
        nibble2(op) != 0xF,
        nibble3(op) != 0xF,
    ensures
        ({
            let (vx, vy, n) = (s.v[nibble2(op) as int], s.v[nibble3(op) as int], nibble4(op) as u8);
            execute_spec(s, op, rnd) matches Ok(t1) && (execute_spec(t1, op, rnd) matches Ok(t2)
                && t2.screen == s.screen
                && (t2.v[15] == 1 <==> exists|c: int|
                    0 <= c < SCREEN_CELLS && #[trigger] sprite_hits(s, vx, vy, n, c) && t1.screen[c])
                && ((exists|c: int|
                    0 <= c < SCREEN_CELLS && #[trigger] sprite_hits(s, vx, vy, n, c) && !s.screen[c])
                    ==> t2.v[15] == 1))
        }),
{
    let (vx, vy, n) = (s.v[nibble2(op) as int], s.v[nibble3(op) as int], nibble4(op) as u8);
    let t1 = execute_spec(s, op, rnd)->Ok_0;
    assert forall|c: int| sprite_hits(t1, vx, vy, n, c) == sprite_hits(s, vx, vy, n, c) by {}
    let t2 = execute_spec(t1, op, rnd)->Ok_0;
    assert(t2.screen =~= s.screen);
    if exists|c: int| 0 <= c < SCREEN_CELLS && #[trigger] sprite_hits(s, vx, vy, n, c) && !s.screen[c] {
        let c = choose|c: int| 0 <= c < SCREEN_CELLS && #[trigger] sprite_hits(s, vx, vy, n, c) && !s.screen[c];
        assert(sprite_hits(t1, vx, vy, n, c) && t1.screen[c]);
    }
}

/// A call followed by the return it reaches gives back the program counter
/// of the instruction right after the call, and the stack depth it had.
pub proof fn law_call_then_return(s: EmuState, rnd1: u8, rnd2: u8)
    requires
        s.wf(),
        s.sp < STACK_SIZE,
        nibble1(s.opcode_at_pc()) == 2,
        ({
            let target = s.opcode_at_pc() % 0x1000;
            s.ram[mem_addr(target as int, 0)] == 0x00 && s.ram[mem_addr(target as int, 1)] == 0xEE
        }),
    ensures
        cycle(s, rnd1) matches Ok(t1) && t1.pc == s.opcode_at_pc() % 0x1000 && (cycle(t1, rnd2) matches Ok(
            t2,
        ) && t2.pc == wrap16(s.pc + 2) && t2.sp == s.sp),
{
    let t1 = cycle(s, rnd1)->Ok_0;
    assert(t1.opcode_at_pc() == 0x00EE);
}

/// Whether no key is down.
pub open spec fn no_key_down(keys: Seq<bool>) -> bool {
    forall|k: int| 0 <= k < NUM_KEYS ==> !#[trigger] keys[k]
}

proof fn lemma_first_key_none(keys: Seq<bool>, k: int)
    requires
        keys.len() == NUM_KEYS,
        no_key_down(keys),
        0 <= k <= NUM_KEYS,
    ensures
        first_key_from(keys, k) == NUM_KEYS,
    decreases NUM_KEYS - k,
{
    if k < NUM_KEYS {
        lemma_first_key_none(keys, k + 1);
    }
}

proof fn lemma_first_key_is(keys: Seq<bool>, k: int, j: int)
    requires
        keys.len() == NUM_KEYS,
        0 <= j <= k < NUM_KEYS,
        keys[k],
        forall|i: int| 0 <= i < k ==> !#[trigger] keys[i],
    ensures
        first_key_from(keys, j) == k,
    decreases k - j,
{
    if j < k {
        lemma_first_key_is(keys, k, j + 1);
    }
}

/// 0xFX0A waits: with no key down, a cycle leaves the machine exactly as it
/// was, program counter included, so every later cycle does the same.
pub proof fn law_wait_key_stalls(s: EmuState, rnd: u8)
    requires
        s.wf(),
        nibble1(s.opcode_at_pc()) == 0xF,
        s.opcode_at_pc() % 0x100 == 0x0A,
        no_key_down(s.keys),
    ensures
        cycle(s, rnd) == Ok::<EmuState, Chip8Error>(s),
{
    lemma_first_key_none(s.keys, 0);
}

/// 0xFX0A with key `k` down, and no lower key down: a cycle stores `k` in VX
/// and moves on to the next instruction.
pub proof fn law_wait_key_takes_key(s: EmuState, k: int, rnd: u8)
    requires
        s.wf(),
        nibble1(s.opcode_at_pc()) == 0xF,
        s.opcode_at_pc() % 0x100 == 0x0A,
        0 <= k < NUM_KEYS,
        s.keys[k],
        forall|i: int| 0 <= i < k ==> !#[trigger] s.keys[i],
    ensures
        cycle(s, rnd) matches Ok(t) && t.v[nibble2(s.opcode_at_pc()) as int] == k
            && t.pc == wrap16(s.pc + 2),
{
    lemma_first_key_is(s.keys, k, 0);
}

/// The number of beeps over `n` timer ticks from `s`.
pub open spec fn beeps_over(s: EmuState, n: nat) -> nat
    decreases n,
{
    if n == 0 {
        0
    } else {
        let (t, beep) = timers_ticked(s);
        (if beep { 1nat } else { 0nat }) + beeps_over(t, (n - 1) as nat)
    }
}

/// A silent sound timer stays silent: from a sound timer of 0, no number of
/// timer ticks beeps.
pub proof fn law_silent_timer_never_beeps(s: EmuState, n: nat)
    requires
        s.st == 0,
    ensures
        beeps_over(s, n) == 0,
    decreases n,
{
    if n > 0 {
        law_silent_timer_never_beeps(timers_ticked(s).0, (n - 1) as nat);
    }
}

/// From a sound timer of 1, any run of one or more timer ticks beeps exactly
/// once, on the first tick, after which the sound timer is 0.
pub proof fn law_sound_timer_beeps_once(s: EmuState, n: nat)
    requires
        s.st == 1,
        n >= 1,
    ensures
        timers_ticked(s).1,
        timers_ticked(s).0.st == 0,
        beeps_over(s, n) == 1,
{
    law_silent_timer_never_beeps(timers_ticked(s).0, (n - 1) as nat);
}

} // verus!
