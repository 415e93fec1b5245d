use vstd::prelude::*;

use crate::instruction::{decode, Instruction};
use crate::state::{
    cycle, drawn_screen, execute_spec, first_key_from, font, load_regs, mem_addr, outcome,
    sprite_collides, sprite_hits, step, store_regs, timers_ticked, Chip8Error, EmuState, FONT_SIZE,
    LOAD_ADDRESS, MEMORY_SIZE, NUM_KEYS, NUM_REGS, SCREEN_CELLS, STACK_SIZE,
};

verus! {

/// A CHIP-8 machine: memory, registers, call stack, display, keypad and
/// timers.
pub struct Emu {
    pc: u16,
    ram: Vec<u8>,
    screen: Vec<bool>,
    v_reg: Vec<u8>,
    i_reg: u16,
    sp: u16,
    stack: Vec<u16>,
    keys: Vec<bool>,
    dt: u8,
    st: u8,
}

impl View for Emu {
    type V = EmuState;

    closed spec fn view(&self) -> EmuState {
        EmuState {
            pc: self.pc,
            ram: self.ram@,
            screen: self.screen@,
            v: self.v_reg@,
            i: self.i_reg,
            sp: self.sp,
            stack: self.stack@,
            keys: self.keys@,
            dt: self.dt,
            st: self.st,
        }
    }
}

/// Relies on rand::random::<u8>, a byte from the thread-local generator;
/// nothing is known of which byte.
#[verifier::external_body]
fn random_byte() -> (r: u8) {
    rand::random::<u8>()
}

/// The built-in font as bytes.
fn font_bytes() -> (r: Vec<u8>)
    ensures
        r@ == font(),
{
    let r = vec![
        0xF0u8, 0x90, 0x90, 0x90, 0xF0, // 0
        0x20, 0x60, 0x20, 0x20, 0x70, // 1
        0xF0, 0x10, 0xF0, 0x80, 0xF0, // 2
        0xF0, 0x10, 0xF0, 0x10, 0xF0, // 3
        0x90, 0x90, 0xF0, 0x10, 0x10, // 4
        0xF0, 0x80, 0xF0, 0x10, 0xF0, // 5
        0xF0, 0x80, 0xF0, 0x90, 0xF0, // 6
        0xF0, 0x10, 0x20, 0x40, 0x40, // 7
        0xF0, 0x90, 0xF0, 0x90, 0xF0, // 8
        0xF0, 0x90, 0xF0, 0x10, 0xF0, // 9
        0xF0, 0x90, 0xF0, 0x90, 0x90, // A
        0xE0, 0x90, 0xE0, 0x90, 0xE0, // B
        0xF0, 0x80, 0x80, 0x80, 0xF0, // C
        0xE0, 0x90, 0x90, 0x90, 0xE0, // D
        0xF0, 0x80, 0xF0, 0x80, 0xF0, // E
        0xF0, 0x80, 0xF0, 0x80, 0x80, // F
    ];
    assert(r@ =~= font());
    r
}

impl Emu {
    /// A machine with memory zeroed but for the font, all registers, the
    /// stack, the keys, the timers and the display cleared, and the program
    /// counter at the load address.
    pub fn new() -> (r: Self)
        ensures
            r@ == EmuState::initial(),
            r@.wf(),
    {
        let glyphs = font_bytes();
        let mut ram: Vec<u8> = vec![0u8; MEMORY_SIZE];
        let mut k: usize = 0;
        while k < FONT_SIZE
            invariant
                glyphs@ == font(),
                ram@.len() == MEMORY_SIZE,
                k <= FONT_SIZE,
                forall|a: int| 0 <= a < k ==> ram@[a] == font()[a],
                forall|a: int| k <= a < MEMORY_SIZE ==> ram@[a] == 0u8,
            decreases FONT_SIZE - k,
        {
            ram[k] = glyphs[k];
            k = k + 1;
        }
        let r = Emu {
            pc: LOAD_ADDRESS,
            ram,
            screen: vec![false; SCREEN_CELLS],
            v_reg: vec![0u8; NUM_REGS],
            i_reg: 0,
            sp: 0,
            stack: vec![0u16; STACK_SIZE],
            keys: vec![false; NUM_KEYS],
            dt: 0,
            st: 0,
        };
        assert(r@.ram =~= EmuState::initial().ram);
        assert(r@.screen =~= EmuState::initial().screen);
        assert(r@.v =~= EmuState::initial().v);
        assert(r@.stack =~= EmuState::initial().stack);
        assert(r@.keys =~= EmuState::initial().keys);
        r
    }
    /// Pushes a return address onto the stack.
    fn push(&mut self, val: u16)
        requires
            old(self)@.wf(),
            old(self)@.sp < STACK_SIZE,
        ensures
            final(self)@ == (EmuState {
                stack: old(self)@.stack.update(old(self)@.sp as int, val),
                sp: (old(self)@.sp + 1) as u16,
                ..old(self)@
            }),
    {
        self.stack[self.sp as usize] = val;
        self.sp = self.sp + 1;
    }

    /// Pops the most recent return address off the stack.
    fn pop(&mut self) -> (r: u16)
        requires
            old(self)@.wf(),
            old(self)@.sp > 0,
        ensures
            r == old(self)@.stack[old(self)@.sp - 1],
            final(self)@ == (EmuState { sp: (old(self)@.sp - 1) as u16, ..old(self)@ }),
    {
        self.sp = self.sp - 1;
        self.stack[self.sp as usize]
    }

    /// Whether the sprite of `n` rows at I, drawn at (`vx`, `vy`), has a set
    /// pixel on display cell `c`.
    fn sprite_hits_cell(&self, vx: u8, vy: u8, n: u8, c: usize) -> (r: bool)
        requires
            self@.wf(),
            c < SCREEN_CELLS,
        ensures
            r == sprite_hits(self@, vx, vy, n, c as int),
    {
        let dx = (c % 64 + 64 - (vx as usize) % 64) % 64;
        let dy = (c / 64 + 32 - (vy as usize) % 32) % 32;
        if dy < n as usize && dx < 8 {
            let row = self.ram[(self.i_reg as usize + dy) % MEMORY_SIZE];
            (row >> ((7 - dx) as u8)) & 1u8 == 1u8
        } else {
            false
        }
    }

    /// 0xDXYN: XORs the sprite onto the display; VF tells whether a pixel
    /// that was on went off.
    fn draw(&mut self, x: u8, y: u8, n: u8)
        requires
            old(self)@.wf(),
            x < 16,
            y < 16,
        ensures
            final(self)@.wf(),
            Ok::<EmuState, Chip8Error>(final(self)@) == step(old(self)@, Instruction::Draw { x, y, n }, 0),
    {
        let vx = self.v_reg[x as usize];
        let vy = self.v_reg[y as usize];
        let ghost s0 = self@;
        let mut flipped = false;
        let mut c: usize = 0;
        while c < SCREEN_CELLS
            invariant
                s0.wf(),
                self@ == (EmuState { screen: self@.screen, ..s0 }),
                self.screen@.len() == SCREEN_CELLS,
                c <= SCREEN_CELLS,
                forall|j: int| 0 <= j < c ==> self.screen@[j] == (s0.screen[j] != sprite_hits(s0, vx, vy, n, j)),
                forall|j: int| c <= j < SCREEN_CELLS ==> self.screen@[j] == s0.screen[j],
                flipped == exists|j: int| 0 <= j < c && #[trigger] sprite_hits(s0, vx, vy, n, j) && s0.screen[j],
            decreases SCREEN_CELLS - c,
        {
            if self.sprite_hits_cell(vx, vy, n, c) {
                let pixel = self.screen[c];
                if pixel {
                    assert(sprite_hits(s0, vx, vy, n, c as int) && s0.screen[c as int]);
                }
                flipped = flipped || pixel;
                self.screen[c] = !pixel;
            }
            c = c + 1;
        }
        assert(self.screen@ =~= drawn_screen(s0, vx, vy, n));
        assert(flipped == sprite_collides(s0, vx, vy, n));
        self.v_reg[15] = if flipped { 1 } else { 0 };
    }

    /// 0xFX33: the hundreds, tens and ones digits of VX to I, I+1, I+2.
    fn store_bcd(&mut self, x: u8)
        requires
            old(self)@.wf(),
            x < 16,
        ensures
            final(self)@.wf(),
            Ok::<EmuState, Chip8Error>(final(self)@) == step(old(self)@, Instruction::StoreBcd { x }, 0),
    {
        let a = self.v_reg[x as usize];
        let base = self.i_reg as usize;
        self.ram[base % MEMORY_SIZE] = a / 100;
        self.ram[(base + 1) % MEMORY_SIZE] = (a / 10) % 10;
        self.ram[(base + 2) % MEMORY_SIZE] = a % 10;
    }

    /// 0xFX55: V0..=VX into memory from I on.
    fn store_registers(&mut self, x: u8)
        requires
            old(self)@.wf(),
            x < 16,
        ensures
            final(self)@.wf(),
            Ok::<EmuState, Chip8Error>(final(self)@) == step(old(self)@, Instruction::StoreRegs { x }, 0),
    {
        let ghost s0 = self@;
        let base = self.i_reg as usize;
        let mut k: usize = 0;
        while k <= x as usize
            invariant
                s0.wf(),
                x < 16,
                k <= x + 1,
                base == s0.i,
                self@ == (EmuState { ram: self@.ram, ..s0 }),
                self.ram@.len() == MEMORY_SIZE,
                self.ram@ == store_regs(s0.ram, s0.i as int, s0.v, k as int),
            decreases x + 1 - k,
        {
            self.ram[(base + k) % MEMORY_SIZE] = self.v_reg[k];
            k = k + 1;
        }
    }

    /// 0xFX65: V0..=VX from memory from I on.
    fn load_registers(&mut self, x: u8)
        requires
            old(self)@.wf(),
            x < 16,
        ensures
            final(self)@.wf(),
            Ok::<EmuState, Chip8Error>(final(self)@) == step(old(self)@, Instruction::LoadRegs { x }, 0),
    {
        let ghost s0 = self@;
        let base = self.i_reg as usize;
        let mut k: usize = 0;
        while k <= x as usize
            invariant
                s0.wf(),
                x < 16,
                k <= x + 1,
                base == s0.i,
                self@ == (EmuState { v: self@.v, ..s0 }),
                self.v_reg@.len() == NUM_REGS,
                forall|j: int| 0 <= j < k ==> self.v_reg@[j] == s0.ram[mem_addr(s0.i as int, j)],
                forall|j: int| k <= j < NUM_REGS ==> self.v_reg@[j] == s0.v[j],
            decreases x + 1 - k,
        {
            self.v_reg[k] = self.ram[(base + k) % MEMORY_SIZE];
            k = k + 1;
        }
        assert(self.v_reg@ =~= load_regs(s0.ram, s0.i as int, s0.v, x as int));
    }

    /// 0xFX0A: with a key down, VX := the lowest such key; with none, the
    /// program counter moves back onto this instruction so that it runs again.
    fn wait_key(&mut self, x: u8)
        requires
            old(self)@.wf(),
            x < 16,
        ensures
            final(self)@.wf(),
            Ok::<EmuState, Chip8Error>(final(self)@) == step(old(self)@, Instruction::WaitKey { x }, 0),
    {
        let mut k: usize = 0;
        while k < NUM_KEYS && !self.keys[k]
            invariant
                self@.wf(),
                k <= NUM_KEYS,
                first_key_from(self@.keys, 0) == first_key_from(self@.keys, k as int),
            decreases NUM_KEYS - k,
        {
            k = k + 1;
        }
        if k < NUM_KEYS {
            self.v_reg[x as usize] = k as u8;
        } else {
            self.pc = self.pc.wrapping_sub(2);
        }
    }

    /// Skips the next instruction when `cond` holds.
    fn skip_if(&mut self, cond: bool)
        ensures
            *final(self) == (Emu { pc: if cond { old(self).pc.wrapping_add(2) } else { old(self).pc }, ..*old(self) }),
            final(self)@ == old(self)@.skip_if(cond),
    {
        if cond {
            self.pc = self.pc.wrapping_add(2);
        }
    }

    /// Whether key `k` exists and is down.
    fn key_down(&self, k: u8) -> (r: bool)
        requires
            self@.wf(),
        ensures
            r == crate::state::key_down(self@.keys, k as int),
    {
        (k as usize) < NUM_KEYS && self.keys[k as usize]
    }

    /// Control flow: jumps, calls, returns, skips and the clear screen.
    #[verifier::spinoff_prover]
    fn execute_control(&mut self, ins: Instruction, rnd: u8) -> (r: Result<(), Chip8Error>)
        requires
            old(self)@.wf(),
            ins.wf(),
            ins is Nop
                || ins is ClearScreen
                || ins is Return
                || ins is Jump
                || ins is Call
                || ins is JumpOffset
                || ins is SkipEqImm
                || ins is SkipNeImm
                || ins is SkipEqReg
                || ins is SkipNeReg
                || ins is SkipIfKey
                || ins is SkipIfNotKey,
        ensures
            final(self)@.wf(),
            outcome(old(self)@, step(old(self)@, ins, rnd), final(self)@, r),
    {
        match ins {
            Instruction::Nop => {},
            Instruction::ClearScreen => {
                self.screen = vec![false; SCREEN_CELLS];
                assert(self.screen@ =~= Seq::new(SCREEN_CELLS as nat, |c: int| false));
            },
            Instruction::Return => {
                if self.sp == 0 {
                    return Err(Chip8Error::StackUnderflow);
                }
                self.pc = self.pop();
            },
            Instruction::Jump { addr } => {
                self.pc = addr;
            },
            Instruction::Call { addr } => {
                if self.sp as usize >= STACK_SIZE {
                    return Err(Chip8Error::StackOverflow);
                }
                let pc = self.pc;
                self.push(pc);
                self.pc = addr;
            },
            Instruction::JumpOffset { addr } => {
                self.pc = self.v_reg[0] as u16 + addr;
            },
            Instruction::SkipEqImm { x, nn } => {
                let c = self.v_reg[x as usize] == nn;
                self.skip_if(c);
            },
            Instruction::SkipNeImm { x, nn } => {
                let c = self.v_reg[x as usize] != nn;
                self.skip_if(c);
            },
            Instruction::SkipEqReg { x, y } => {
                let c = self.v_reg[x as usize] == self.v_reg[y as usize];
                self.skip_if(c);
            },
            Instruction::SkipNeReg { x, y } => {
                let c = self.v_reg[x as usize] != self.v_reg[y as usize];
                self.skip_if(c);
            },
            Instruction::SkipIfKey { x } => {
                let c = self.key_down(self.v_reg[x as usize]);
                self.skip_if(c);
            },
            Instruction::SkipIfNotKey { x } => {
                let c = !self.key_down(self.v_reg[x as usize]);
                self.skip_if(c);
            },
            _ => {},
        }
        Ok(())
    }

    /// Register loads and arithmetic.
    #[verifier::spinoff_prover]
    fn execute_arithmetic(&mut self, ins: Instruction, rnd: u8) -> (r: Result<(), Chip8Error>)
        requires
            old(self)@.wf(),
            ins.wf(),
            ins is LoadImm
                || ins is AddImm
                || ins is Move
                || ins is Or
                || ins is And
                || ins is Xor
                || ins is AddReg
                || ins is SubReg
                || ins is ShiftRight
                || ins is SubReverse
                || ins is ShiftLeft
                || ins is Random,
        ensures
            final(self)@.wf(),
            outcome(old(self)@, step(old(self)@, ins, rnd), final(self)@, r),
    {
        match ins {
            Instruction::LoadImm { x, nn } => {
                self.v_reg[x as usize] = nn;
            },
            Instruction::AddImm { x, nn } => {
                let a = self.v_reg[x as usize];
                self.v_reg[x as usize] = a.wrapping_add(nn);
            },
            Instruction::Move { x, y } => {
                let b = self.v_reg[y as usize];
                self.v_reg[x as usize] = b;
            },
            Instruction::Or { x, y } => {
                let r = self.v_reg[x as usize] | self.v_reg[y as usize];
                self.v_reg[x as usize] = r;
            },
            Instruction::And { x, y } => {
                let r = self.v_reg[x as usize] & self.v_reg[y as usize];
                self.v_reg[x as usize] = r;
            },
            Instruction::Xor { x, y } => {
                let r = self.v_reg[x as usize] ^ self.v_reg[y as usize];
                self.v_reg[x as usize] = r;
            },
            Instruction::AddReg { x, y } => {
                let sum = self.v_reg[x as usize] as u16 + self.v_reg[y as usize] as u16;
                self.v_reg[x as usize] = (sum % 256) as u8;
                self.v_reg[15] = if sum > 255 { 1 } else { 0 };
            },
            Instruction::SubReg { x, y } => {
                let a = self.v_reg[x as usize];
                let b = self.v_reg[y as usize];
                self.v_reg[x as usize] = a.wrapping_sub(b);
                self.v_reg[15] = if a >= b { 1 } else { 0 };
            },
            Instruction::ShiftRight { x } => {
                let a = self.v_reg[x as usize];
                self.v_reg[x as usize] = a / 2;
                self.v_reg[15] = a % 2;
            },
            Instruction::SubReverse { x, y } => {
                let a = self.v_reg[x as usize];
                let b = self.v_reg[y as usize];
                self.v_reg[x as usize] = b.wrapping_sub(a);
                self.v_reg[15] = if b >= a { 1 } else { 0 };
            },
            Instruction::ShiftLeft { x } => {
                let a = self.v_reg[x as usize];
                self.v_reg[x as usize] = ((a as u16 * 2) % 256) as u8;
                self.v_reg[15] = a / 128;
            },
            Instruction::Random { x, nn } => {
                self.v_reg[x as usize] = rnd & nn;
            },
            _ => {},
        }
        Ok(())
    }

    /// Timers and the index register.
    #[verifier::spinoff_prover]
    fn execute_timers_index(&mut self, ins: Instruction, rnd: u8) -> (r: Result<(), Chip8Error>)
        requires
            old(self)@.wf(),
            ins.wf(),
            ins is SetIndex
                || ins is LoadDelay
                || ins is SetDelay
                || ins is SetSound
                || ins is AddIndex
                || ins is FontChar,
        ensures
            final(self)@.wf(),
            outcome(old(self)@, step(old(self)@, ins, rnd), final(self)@, r),
    {
        match ins {
            Instruction::SetIndex { addr } => {
                self.i_reg = addr;
            },
            Instruction::LoadDelay { x } => {
                self.v_reg[x as usize] = self.dt;
            },
            Instruction::SetDelay { x } => {
                self.dt = self.v_reg[x as usize];
            },
            Instruction::SetSound { x } => {
                self.st = self.v_reg[x as usize];
            },
            Instruction::AddIndex { x } => {
                self.i_reg = self.i_reg.wrapping_add(self.v_reg[x as usize] as u16);
            },
            Instruction::FontChar { x } => {
                self.i_reg = self.v_reg[x as usize] as u16 * 5;
            },
            _ => {},
        }
        Ok(())
    }

    /// Drawing, waiting for a key and memory transfers.
    #[verifier::spinoff_prover]
    fn execute_memory(&mut self, ins: Instruction, rnd: u8) -> (r: Result<(), Chip8Error>)
        requires
            old(self)@.wf(),
            ins.wf(),
            ins is Draw
                || ins is WaitKey
                || ins is StoreBcd
                || ins is StoreRegs
                || ins is LoadRegs,
        ensures
            final(self)@.wf(),
            outcome(old(self)@, step(old(self)@, ins, rnd), final(self)@, r),
    {
        match ins {
            Instruction::Draw { x, y, n } => {
                self.draw(x, y, n);
            },
            Instruction::WaitKey { x } => {
                self.wait_key(x);
            },
            Instruction::StoreBcd { x } => {
                self.store_bcd(x);
            },
            Instruction::StoreRegs { x } => {
                self.store_registers(x);
            },
            Instruction::LoadRegs { x } => {
                self.load_registers(x);
            },
            _ => {},
        }
        Ok(())
    }

    /// Executes one decoded instruction; `rnd` is the byte that 0xCXNN uses.
    fn execute_instruction(&mut self, ins: Instruction, rnd: u8) -> (r: Result<(), Chip8Error>)
        requires
            old(self)@.wf(),
            ins.wf(),
        ensures
            final(self)@.wf(),
            outcome(old(self)@, step(old(self)@, ins, rnd), final(self)@, r),
    {
        match ins {
            Instruction::Nop
            | Instruction::ClearScreen
            | Instruction::Return
            | Instruction::Jump { .. }
            | Instruction::Call { .. }
            | Instruction::JumpOffset { .. }
            | Instruction::SkipEqImm { .. }
            | Instruction::SkipNeImm { .. }
            | Instruction::SkipEqReg { .. }
            | Instruction::SkipNeReg { .. }
            | Instruction::SkipIfKey { .. }
            | Instruction::SkipIfNotKey { .. } => self.execute_control(ins, rnd),
            Instruction::LoadImm { .. }
            | Instruction::AddImm { .. }
            | Instruction::Move { .. }
            | Instruction::Or { .. }
            | Instruction::And { .. }
            | Instruction::Xor { .. }
            | Instruction::AddReg { .. }
            | Instruction::SubReg { .. }
            | Instruction::ShiftRight { .. }
            | Instruction::SubReverse { .. }
            | Instruction::ShiftLeft { .. }
            | Instruction::Random { .. } => self.execute_arithmetic(ins, rnd),
            Instruction::SetIndex { .. }
            | Instruction::LoadDelay { .. }
            | Instruction::SetDelay { .. }
            | Instruction::SetSound { .. }
            | Instruction::AddIndex { .. }
            | Instruction::FontChar { .. } => self.execute_timers_index(ins, rnd),
            Instruction::Draw { .. }
            | Instruction::WaitKey { .. }
            | Instruction::StoreBcd { .. }
            | Instruction::StoreRegs { .. }
            | Instruction::LoadRegs { .. } => self.execute_memory(ins, rnd),
        }
    }

    /// Reads the big-endian opcode at the program counter and moves the
    /// program counter past it. Addresses wrap around the end of memory.
    fn fetch(&mut self) -> (op: u16)
        requires
            old(self)@.wf(),
        ensures
            final(self)@ == old(self)@.fetched(),
            op == old(self)@.opcode_at_pc(),
    {
        let high = self.ram[self.pc as usize % MEMORY_SIZE] as u16;
        let low = self.ram[(self.pc as usize + 1) % MEMORY_SIZE] as u16;
        self.pc = self.pc.wrapping_add(2);
        high * 0x100 + low
    }

    /// Decodes and executes `op`, with `rnd` as the random byte of 0xCXNN.
    /// An opcode that matches no instruction, a call with a full stack and
    /// a return with an empty one are errors that leave the machine as it was.
    pub fn execute_with_random(&mut self, op: u16, rnd: u8) -> (r: Result<(), Chip8Error>)
        requires
            old(self)@.wf(),
        ensures
            final(self)@.wf(),
            outcome(old(self)@, execute_spec(old(self)@, op, rnd), final(self)@, r),
    {
        match decode(op) {
            Some(ins) => self.execute_instruction(ins, rnd),
            None => Err(Chip8Error::UnknownOpcode(op)),
        }
    }

    /// Decodes and executes `op`. 0xCXNN draws its byte from the thread's
    /// random generator; for every other opcode the outcome is fixed.
    pub fn execute(&mut self, op: u16) -> (r: Result<(), Chip8Error>)
        requires
            old(self)@.wf(),
        ensures
            final(self)@.wf(),
            exists|rnd: u8| outcome(old(self)@, execute_spec(old(self)@, op, rnd), final(self)@, r),
            op / 0x1000 != 0xC ==> outcome(old(self)@, execute_spec(old(self)@, op, 0), final(self)@, r),
    {
        let rnd = if op / 0x1000 == 0xC {
            random_byte()
        } else {
            0
        };
        self.execute_with_random(op, rnd)
    }

    /// One cycle: fetch the opcode at the program counter, advance the
    /// program counter, then execute the opcode with `rnd` as the random
    /// byte of 0xCXNN. On an error the program counter stays advanced and
    /// nothing else changes.
    pub fn tick_with_random(&mut self, rnd: u8) -> (r: Result<(), Chip8Error>)
        requires
            old(self)@.wf(),
        ensures
            final(self)@.wf(),
            outcome(old(self)@.fetched(), cycle(old(self)@, rnd), final(self)@, r),
    {
        let op = self.fetch();
        self.execute_with_random(op, rnd)
    }

    /// One cycle: fetch, advance the program counter, execute. 0xCXNN draws
    /// its byte from the thread's random generator.
    pub fn tick(&mut self) -> (r: Result<(), Chip8Error>)
        requires
            old(self)@.wf(),
        ensures
            final(self)@.wf(),
            exists|rnd: u8| outcome(old(self)@.fetched(), cycle(old(self)@, rnd), final(self)@, r),
            old(self)@.opcode_at_pc() / 0x1000 != 0xC ==> outcome(
                old(self)@.fetched(),
                cycle(old(self)@, 0),
                final(self)@,
                r,
            ),
    {
        let ghost s0 = self@;
        let op = self.fetch();
        let r = self.execute(op);
        proof {
            let rnd = choose|rnd: u8| outcome(s0.fetched(), execute_spec(s0.fetched(), op, rnd), self@, r);
            assert(outcome(s0.fetched(), cycle(s0, rnd), self@, r));
        }
        r
    }

    /// Counts both timers down by one where they are not zero. Returns
    /// whether to beep: exactly when the sound timer goes from 1 to 0.
    pub fn tick_timers(&mut self) -> (beep: bool)
        ensures
            (final(self)@, beep) == timers_ticked(old(self)@),
    {
        if self.dt > 0 {
            self.dt = self.dt - 1;
        }
        let mut beep = false;
        if self.st > 0 {
            beep = self.st == 1;
            self.st = self.st - 1;
        }
        beep
    }

    /// The display, row-major: cell `x + 64 * y` is the pixel at (x, y).
    pub fn get_display(&self) -> (r: &[bool])
        ensures
            r@ == self@.screen,
    {
        self.screen.as_slice()
    }

    /// Sets whether key `idx` is down.
    pub fn keypress(&mut self, idx: usize, pressed: bool)
        requires
            old(self)@.wf(),
            idx < NUM_KEYS,
        ensures
            final(self)@ == (EmuState { keys: old(self)@.keys.update(idx as int, pressed), ..old(self)@ }),
    {
        self.keys[idx] = pressed;
    }

    /// Copies a program into memory at the load address. A program longer
    /// than the memory from the load address to the end is refused and
    /// nothing changes.
    pub fn load(&mut self, data: &[u8]) -> (r: Result<(), Chip8Error>)
        requires
            old(self)@.wf(),
        ensures
            final(self)@.wf(),
            data@.len() <= MEMORY_SIZE - LOAD_ADDRESS <==> r is Ok,
            r is Ok ==> final(self)@ == (EmuState {
                ram: old(self)@.ram.subrange(0, LOAD_ADDRESS as int) + data@
                    + old(self)@.ram.subrange(LOAD_ADDRESS + data@.len(), MEMORY_SIZE as int),
                ..old(self)@
            }),
            r is Err ==> r == Err::<(), Chip8Error>(Chip8Error::ProgramTooLarge(data@.len() as usize))
                && final(self)@ == old(self)@,
    {
        let start = LOAD_ADDRESS as usize;
        if data.len() > MEMORY_SIZE - start {
            return Err(Chip8Error::ProgramTooLarge(data.len()));
        }
        let ghost s0 = self@;
        let mut k: usize = 0;
        while k < data.len()
            invariant
                s0.wf(),
                start == LOAD_ADDRESS,
                data@.len() <= MEMORY_SIZE - start,
                k <= data@.len(),
                self@ == (EmuState { ram: self@.ram, ..s0 }),
                self.ram@.len() == MEMORY_SIZE,
                forall|a: int| 0 <= a < start ==> self.ram@[a] == s0.ram[a],
                forall|a: int| start <= a < start + k ==> self.ram@[a] == data@[a - start],
                forall|a: int| start + k <= a < MEMORY_SIZE ==> self.ram@[a] == s0.ram[a],
            decreases data@.len() - k,
        {
            self.ram[start + k] = data[k];
            k = k + 1;
        }
        assert(self.ram@ =~= s0.ram.subrange(0, LOAD_ADDRESS as int) + data@
            + s0.ram.subrange(LOAD_ADDRESS + data@.len(), MEMORY_SIZE as int));
        Ok(())
    }

    /// The program counter.
    pub fn program_counter(&self) -> (r: u16)
        ensures
            r == self@.pc,
    {
        self.pc
    }

    /// Register V`x`.
    pub fn register(&self, x: usize) -> (r: u8)
        requires
            self@.wf(),
            x < NUM_REGS,
        ensures
            r == self@.v[x as int],
    {
        self.v_reg[x]
    }

    /// The memory byte at `addr`.
    pub fn memory(&self, addr: usize) -> (r: u8)
        requires
            self@.wf(),
            addr < MEMORY_SIZE,
        ensures
            r == self@.ram[addr as int],
    {
        self.ram[addr]
    }

    /// The index register I.
    pub fn index_register(&self) -> (r: u16)
        ensures
            r == self@.i,
    {
        self.i_reg
    }

    /// The number of return addresses on the stack.
    pub fn stack_pointer(&self) -> (r: u16)
        ensures
            r == self@.sp,
    {
        self.sp
    }

    /// The delay timer.
    pub fn delay_timer(&self) -> (r: u8)
        ensures
            r == self@.dt,
    {
        self.dt
    }

    /// The sound timer.
    pub fn sound_timer(&self) -> (r: u8)
        ensures
            r == self@.st,
    {
        self.st
    }
}

} // verus!
