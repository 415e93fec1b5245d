use vstd::prelude::*;

use crate::instruction::{decode_spec, Instruction};

verus! {

/// Width of the display in pixels.
pub const SCREEN_WIDTH: usize = 64;
/// Height of the display in pixels.
pub const SCREEN_HEIGHT: usize = 32;

/// Errors that stop the machine.
#[derive(Clone, Copy, Debug, PartialEq, Eq, Structural)]
pub enum Chip8Error {
    /// A program of this many bytes does not fit between the load address
    /// and the end of memory.
    ProgramTooLarge(usize),
    /// The opcode matches no instruction.
    UnknownOpcode(u16),
    /// A call with all sixteen stack slots in use.
    StackOverflow,
    /// A return with an empty stack.
    StackUnderflow,
}


/// Bytes of addressable memory.
pub const MEMORY_SIZE: usize = 4096;
/// Address at which programs are loaded and execution starts.
pub const LOAD_ADDRESS: u16 = 0x200;
/// Number of general-purpose registers V0..VF.
pub const NUM_REGS: usize = 16;
/// Number of return-address slots on the call stack.
pub const STACK_SIZE: usize = 16;
/// Number of keys on the keypad.
pub const NUM_KEYS: usize = 16;
/// Number of display cells.
pub const SCREEN_CELLS: usize = 2048;
/// Bytes of the built-in font: 16 glyphs of 5 rows each.
pub const FONT_SIZE: usize = 80;

/// The built-in hexadecimal font, glyphs 0 to F, 5 bytes each.
pub open spec fn font() -> Seq<u8> {
    seq![
        0xF0u8, 0x90, 0x90, 0x90, 0xF0, // 0
        0x20, 0x60, 0x20, 0x20, 0x70, // 1
        0xF0, 0x10, 0xF0, 0x80, 0xF0, // 2
        0xF0, 0x10, 0xF0, 0x10, 0xF0, // 3
        0x90, 0x90, 0xF0, 0x10, 0x10, // 4
        0xF0, 0x80, 0xF0, 0x10, 0xF0, // 5
        0xF0, 0x80, 0xF0, 0x90, 0xF0, // 6
        0xF0, 0x10, 0x20, 0x40, 0x40, // 7
        0xF0, 0x90, 0xF0, 0x90, 0xF0, // 8
        0xF0, 0x90, 0xF0, 0x10, 0xF0, // 9
        0xF0, 0x90, 0xF0, 0x90, 0x90, // A
        0xE0, 0x90, 0xE0, 0x90, 0xE0, // B
        0xF0, 0x80, 0x80, 0x80, 0xF0, // C
        0xE0, 0x90, 0x90, 0x90, 0xE0, // D
        0xF0, 0x80, 0xF0, 0x80, 0xF0, // E
        0xF0, 0x80, 0xF0, 0x80, 0x80, // F
    ]
}

/// 16-bit wrapping of an integer result.
pub open spec fn wrap16(n: int) -> u16 {
    (n % 0x10000) as u16
}

/// The memory address that `base + offset` denotes: addresses wrap around
/// the end of memory.
pub open spec fn mem_addr(base: int, offset: int) -> int {
    (base + offset) % (MEMORY_SIZE as int)
}

/// The abstract state of the machine.
pub struct EmuState {
    /// Address of the next instruction.
    pub pc: u16,
    /// The 4096 bytes of memory.
    pub ram: Seq<u8>,
    /// The 64x32 display, row-major: cell `x + 64 * y`.
    pub screen: Seq<bool>,
    /// Registers V0..VF.
    pub v: Seq<u8>,
    /// The index register I.
    pub i: u16,
    /// Number of return addresses on the stack.
    pub sp: u16,
    /// The return-address stack; slots below `sp` are in use.
    pub stack: Seq<u16>,
    /// Which keys are down.
    pub keys: Seq<bool>,
    /// The delay timer.
    pub dt: u8,
    /// The sound timer.
    pub st: u8,
}

impl EmuState {
    /// Every buffer has its fixed size and the stack depth is within bounds.
    pub open spec fn wf(self) -> bool {
        &&& self.ram.len() == MEMORY_SIZE
        &&& self.screen.len() == SCREEN_CELLS
        &&& self.v.len() == NUM_REGS
        &&& self.sp <= STACK_SIZE
        &&& self.stack.len() == STACK_SIZE
        &&& self.keys.len() == NUM_KEYS
    }

    /// The state right after construction: everything zero or false but the
    /// font at the bottom of memory and the program counter at the load
    /// address.
    pub open spec fn initial() -> EmuState {
        EmuState {
            pc: LOAD_ADDRESS,
            ram: Seq::new(MEMORY_SIZE as nat, |a: int| if a < FONT_SIZE { font()[a] } else { 0u8 }),
            screen: Seq::new(SCREEN_CELLS as nat, |c: int| false),
            v: Seq::new(NUM_REGS as nat, |k: int| 0u8),
            i: 0,
            sp: 0,
            stack: Seq::new(STACK_SIZE as nat, |k: int| 0u16),
            keys: Seq::new(NUM_KEYS as nat, |k: int| false),
            dt: 0,
            st: 0,
        }
    }

    /// This state with register `x` set to `val`.
    pub open spec fn set_v(self, x: int, val: u8) -> EmuState {
        EmuState { v: self.v.update(x, val), ..self }
    }

    /// This state with the flag register VF set to 1 or 0.
    pub open spec fn set_flag(self, flag: bool) -> EmuState {
        self.set_v(0xF, if flag { 1u8 } else { 0u8 })
    }

    /// This state with the next instruction skipped when `cond` holds.
    pub open spec fn skip_if(self, cond: bool) -> EmuState {
        if cond {
            EmuState { pc: wrap16(self.pc + 2), ..self }
        } else {
            self
        }
    }

    /// The opcode at the program counter, big-endian.
    pub open spec fn opcode_at_pc(self) -> u16 {
        (self.ram[mem_addr(self.pc as int, 0)] * 0x100 + self.ram[mem_addr(self.pc as int, 1)]) as u16
    }

    /// This state after the fetch step: the program counter moved past the
    /// opcode.
    pub open spec fn fetched(self) -> EmuState {
        EmuState { pc: wrap16(self.pc + 2), ..self }
    }
}

/// Whether key `k` exists and is down.
pub open spec fn key_down(keys: Seq<bool>, k: int) -> bool {
    0 <= k < NUM_KEYS && keys[k]
}

/// The lowest index from `k` on of a key that is down, or 16 where none is.
pub open spec fn first_key_from(keys: Seq<bool>, k: int) -> int
    decreases NUM_KEYS - k,
{
    if k >= NUM_KEYS {
        NUM_KEYS as int
    } else if keys[k] {
        k
    } else {
        first_key_from(keys, k + 1)
    }
}

/// Whether the sprite pixel in column `col` (0 = leftmost) of a sprite row
/// byte is set: rows are read most significant bit first.
pub open spec fn sprite_bit(row: u8, col: u8) -> bool {
    (row >> ((7 - col) as u8)) & 1u8 == 1u8
}

/// Whether a sprite of `n` rows from memory at I, drawn at (`x`, `y`) with
/// wraparound, has a set pixel on display cell `cell`.
pub open spec fn sprite_hits(s: EmuState, x: u8, y: u8, n: u8, cell: int) -> bool {
    let dx = (cell % 64 + 64 - x % 64) % 64;
    let dy = (cell / 64 + 32 - y % 32) % 32;
    dy < n && dx < 8 && sprite_bit(s.ram[mem_addr(s.i as int, dy)], dx as u8)
}

/// Whether drawing that sprite turns off a pixel that was on.
pub open spec fn sprite_collides(s: EmuState, x: u8, y: u8, n: u8) -> bool {
    exists|c: int| 0 <= c < SCREEN_CELLS && #[trigger] sprite_hits(s, x, y, n, c) && s.screen[c]
}

/// The display after XOR-ing that sprite onto it.
pub open spec fn drawn_screen(s: EmuState, x: u8, y: u8, n: u8) -> Seq<bool> {
    Seq::new(SCREEN_CELLS as nat, |c: int| s.screen[c] != sprite_hits(s, x, y, n, c))
}

/// Memory with registers V0..V(count-1) stored from address `base` on.
pub open spec fn store_regs(ram: Seq<u8>, base: int, v: Seq<u8>, count: int) -> Seq<u8>
    decreases count,
{
    if count <= 0 {
        ram
    } else {
        store_regs(ram, base, v, count - 1).update(mem_addr(base, count - 1), v[count - 1])
    }
}

/// Registers with V0..=Vx loaded from memory from address `base` on.
pub open spec fn load_regs(ram: Seq<u8>, base: int, v: Seq<u8>, x: int) -> Seq<u8> {
    Seq::new(NUM_REGS as nat, |k: int| if k <= x { ram[mem_addr(base, k)] } else { v[k] })
}

/// The effect of executing `ins` on state `s`; `rnd` is the random byte
/// that 0xCXNN uses, and nothing else reads it.
pub open spec fn step(s: EmuState, ins: Instruction, rnd: u8) -> Result<EmuState, Chip8Error> {
    match ins {
        Instruction::Nop => Ok(s),
        Instruction::ClearScreen => Ok(EmuState { screen: Seq::new(SCREEN_CELLS as nat, |c: int| false), ..s }),
        Instruction::Return => if s.sp == 0 {
            Err(Chip8Error::StackUnderflow)
        } else {
            Ok(EmuState { sp: (s.sp - 1) as u16, pc: s.stack[s.sp - 1], ..s })
        },
        Instruction::Jump { addr } => Ok(EmuState { pc: addr, ..s }),
        Instruction::Call { addr } => if s.sp >= STACK_SIZE {
            Err(Chip8Error::StackOverflow)
        } else {
            Ok(EmuState { stack: s.stack.update(s.sp as int, s.pc), sp: (s.sp + 1) as u16, pc: addr, ..s })
        },
        Instruction::SkipEqImm { x, nn } => Ok(s.skip_if(s.v[x as int] == nn)),
        Instruction::SkipNeImm { x, nn } => Ok(s.skip_if(s.v[x as int] != nn)),
        Instruction::SkipEqReg { x, y } => Ok(s.skip_if(s.v[x as int] == s.v[y as int])),
        Instruction::LoadImm { x, nn } => Ok(s.set_v(x as int, nn)),
        Instruction::AddImm { x, nn } => Ok(s.set_v(x as int, ((s.v[x as int] + nn) % 256) as u8)),
        Instruction::Move { x, y } => Ok(s.set_v(x as int, s.v[y as int])),
        Instruction::Or { x, y } => Ok(s.set_v(x as int, s.v[x as int] | s.v[y as int])),
        Instruction::And { x, y } => Ok(s.set_v(x as int, s.v[x as int] & s.v[y as int])),
        Instruction::Xor { x, y } => Ok(s.set_v(x as int, s.v[x as int] ^ s.v[y as int])),
        Instruction::AddReg { x, y } => {
            let sum = s.v[x as int] + s.v[y as int];
            Ok(s.set_v(x as int, (sum % 256) as u8).set_flag(sum > 255))
        },
        Instruction::SubReg { x, y } => {
            let (a, b) = (s.v[x as int], s.v[y as int]);
            Ok(s.set_v(x as int, ((a - b + 256) % 256) as u8).set_flag(a >= b))
        },
        Instruction::ShiftRight { x } => {
            let a = s.v[x as int];
            Ok(s.set_v(x as int, a / 2).set_v(0xF, a % 2))
        },
        Instruction::SubReverse { x, y } => {
            let (a, b) = (s.v[x as int], s.v[y as int]);
            Ok(s.set_v(x as int, ((b - a + 256) % 256) as u8).set_flag(b >= a))
        },
        Instruction::ShiftLeft { x } => {
            let a = s.v[x as int];
            Ok(s.set_v(x as int, ((a * 2) % 256) as u8).set_v(0xF, a / 128))
        },
        Instruction::SkipNeReg { x, y } => Ok(s.skip_if(s.v[x as int] != s.v[y as int])),
        Instruction::SetIndex { addr } => Ok(EmuState { i: addr, ..s }),
        Instruction::JumpOffset { addr } => Ok(EmuState { pc: (s.v[0] + addr) as u16, ..s }),
        Instruction::Random { x, nn } => Ok(s.set_v(x as int, rnd & nn)),
        Instruction::Draw { x, y, n } => {
            let (vx, vy) = (s.v[x as int], s.v[y as int]);
            Ok(EmuState { screen: drawn_screen(s, vx, vy, n), ..s }.set_flag(sprite_collides(s, vx, vy, n)))
        },
        Instruction::SkipIfKey { x } => Ok(s.skip_if(key_down(s.keys, s.v[x as int] as int))),
        Instruction::SkipIfNotKey { x } => Ok(s.skip_if(!key_down(s.keys, s.v[x as int] as int))),
        Instruction::LoadDelay { x } => Ok(s.set_v(x as int, s.dt)),
        Instruction::WaitKey { x } => {
            let k = first_key_from(s.keys, 0);
            if k < NUM_KEYS {
                Ok(s.set_v(x as int, k as u8))
            } else {
                Ok(EmuState { pc: wrap16(s.pc - 2), ..s })
            }
        },
        Instruction::SetDelay { x } => Ok(EmuState { dt: s.v[x as int], ..s }),
        Instruction::SetSound { x } => Ok(EmuState { st: s.v[x as int], ..s }),
        Instruction::AddIndex { x } => Ok(EmuState { i: wrap16(s.i + s.v[x as int]), ..s }),
        Instruction::FontChar { x } => Ok(EmuState { i: (s.v[x as int] * 5) as u16, ..s }),
        Instruction::StoreBcd { x } => {
            let a = s.v[x as int];
            let ram = s.ram.update(mem_addr(s.i as int, 0), (a / 100) as u8)
                .update(mem_addr(s.i as int, 1), ((a / 10) % 10) as u8)
                .update(mem_addr(s.i as int, 2), (a % 10) as u8);
            Ok(EmuState { ram, ..s })
        },
        Instruction::StoreRegs { x } => Ok(EmuState { ram: store_regs(s.ram, s.i as int, s.v, x + 1), ..s }),
        Instruction::LoadRegs { x } => Ok(EmuState { v: load_regs(s.ram, s.i as int, s.v, x as int), ..s }),
    }
}

/// The effect of executing opcode `op` on state `s`: an opcode that decodes
/// to no instruction is an error.
pub open spec fn execute_spec(s: EmuState, op: u16, rnd: u8) -> Result<EmuState, Chip8Error> {
    match decode_spec(op) {
        Some(ins) => step(s, ins, rnd),
        None => Err(Chip8Error::UnknownOpcode(op)),
    }
}

/// The effect of one cycle on `s`: fetch the opcode at the program counter,
/// advance the program counter, execute the opcode. On an error the machine
/// keeps the advanced program counter.
pub open spec fn cycle(s: EmuState, rnd: u8) -> Result<EmuState, Chip8Error> {
    execute_spec(s.fetched(), s.opcode_at_pc(), rnd)
}

/// The state after one timer tick, and whether it beeps: each nonzero timer
/// counts down by one, and the beep comes as the sound timer goes from 1 to 0.
pub open spec fn timers_ticked(s: EmuState) -> (EmuState, bool) {
    (
        EmuState {
            dt: if s.dt > 0 { (s.dt - 1) as u8 } else { 0 },
            st: if s.st > 0 { (s.st - 1) as u8 } else { 0 },
            ..s
        },
        s.st == 1,
    )
}

/// Whether a call that returned `r` and left the machine in `after` did
/// what `expected` says, starting from `before`: on an error nothing changed.
pub open spec fn outcome(
    before: EmuState,
    expected: Result<EmuState, Chip8Error>,
    after: EmuState,
    r: Result<(), Chip8Error>,
) -> bool {
    match expected {
        Ok(s) => r is Ok && after == s,
        Err(e) => r == Err::<(), Chip8Error>(e) && after == before,
    }
}

} // verus!
