use vstd::prelude::*;

use crate::error::VmError;
use crate::framebuffer::{blank, blit, collides, Screen};
use crate::opcode::{decode_spec, Instruction};

verus! {

/// Whether the interpreter fetches instructions or waits for a key press.
#[derive(Debug, Clone, Copy, PartialEq, Eq, Structural)]
pub enum Mode {
    /// Fetch, decode and execute the instruction at the program counter.
    Running,
    /// A wait-for-key instruction is pending; the key goes into register `x`.
    AwaitingKey { x: u8 },
}

/// The abstract state of the whole machine.
pub struct Machine {
    /// The 4096 bytes of memory.
    pub memory: Seq<u8>,
    /// The sixteen registers `V0` to `VF`.
    pub v: Seq<u8>,
    /// The index register `I`.
    pub i: u16,
    /// The program counter.
    pub pc: u16,
    /// The return addresses of the pending calls, the most recent last.
    pub stack: Seq<u16>,
    /// The framebuffer.
    pub screen: Screen,
    /// Which of the sixteen keys are held down.
    pub keys: Seq<bool>,
    /// The delay timer.
    pub delay: u8,
    /// The sound timer.
    pub sound: u8,
    /// Whether an instruction is pending on a key press.
    pub mode: Mode,
    /// Whether the timers also count down on a step that finds no key while
    /// waiting for one.
    pub tick_while_waiting: bool,
}

/// Number of bytes of memory.
pub const MEMORY_SIZE: usize = 4096;

/// Address at which programs are loaded.
pub const PROGRAM_START: usize = 512;

/// Largest program that fits above the reserved area.
pub const MAX_PROGRAM_SIZE: usize = 3584;

/// Number of return addresses the stack holds.
pub const STACK_DEPTH: usize = 16;

/// The register that arithmetic, shifts and drawing use as a flag.
pub const FLAG: u8 = 15;

/// Bytes per glyph of the built-in font.
pub const GLYPH_SIZE: u16 = 5;

/// The built-in glyphs of the hexadecimal digits, five rows each, stored at
/// the start of memory.
pub open spec fn font() -> Seq<u8> {
    seq![
        0xF0u8, 0x90, 0x90, 0x90, 0xF0,
        0x20, 0x60, 0x20, 0x20, 0x70,
        0xF0, 0x10, 0xF0, 0x80, 0xF0,
        0xF0, 0x10, 0xF0, 0x10, 0xF0,
        0x90, 0x90, 0xF0, 0x10, 0x10,
        0xF0, 0x80, 0xF0, 0x10, 0xF0,
        0xF0, 0x80, 0xF0, 0x90, 0xF0,
        0xF0, 0x10, 0x20, 0x40, 0x40,
        0xF0, 0x90, 0xF0, 0x90, 0xF0,
        0xF0, 0x90, 0xF0, 0x10, 0xF0,
        0xF0, 0x90, 0xF0, 0x90, 0x90,
        0xE0, 0x90, 0xE0, 0x90, 0xE0,
        0xF0, 0x80, 0x80, 0x80, 0xF0,
        0xE0, 0x90, 0x90, 0x90, 0xE0,
        0xF0, 0x80, 0xF0, 0x80, 0xF0,
        0xF0, 0x80, 0xF0, 0x80, 0x80,
    ]
}

impl Machine {
    /// The shape every reachable state has.
    pub open spec fn wf(self) -> bool {
        &&& self.memory.len() == 4096
        &&& self.v.len() == 16
        &&& self.keys.len() == 16
        &&& self.screen.pixels.len() == 2048
        &&& self.stack.len() <= 16
        &&& forall|k: int| 0 <= k < self.stack.len() ==> #[trigger] self.stack[k] <= 4094
        &&& (self.mode matches Mode::AwaitingKey { x } ==> x < 16 && self.pc <= 4094)
    }
}

/// The state of a freshly built machine: the font at the start of memory,
/// everything else zero, a blank screen, and the program counter at 512.
pub open spec fn initial() -> Machine {
    Machine {
        memory: Seq::new(4096, |a: int| if a < 80 { font()[a] } else { 0u8 }),
        v: Seq::new(16, |r: int| 0u8),
        i: 0,
        pc: 512,
        stack: Seq::empty(),
        screen: Screen { pixels: blank(), dirty: false },
        keys: Seq::new(16, |k: int| false),
        delay: 0,
        sound: 0,
        mode: Mode::Running,
        tick_while_waiting: true,
    }
}

/// Memory after copying `program` to the addresses from 512 on.
pub open spec fn loaded(memory: Seq<u8>, program: Seq<u8>) -> Seq<u8> {
    Seq::new(
        4096,
        |a: int|
            if 512 <= a < 512 + program.len() {
                program[a - 512]
            } else {
                memory[a]
            },
    )
}

/// The two bytes at the program counter, most significant first.
pub open spec fn fetch_spec(m: Machine) -> u16 {
    (m.memory[m.pc as int] as int * 256 + m.memory[m.pc as int + 1] as int) as u16
}

/// The state with the program counter moved on by `k` bytes.
pub open spec fn advance(m: Machine, k: int) -> Machine {
    Machine { pc: (m.pc + k) as u16, ..m }
}

/// Moves past the next instruction when `cond` holds, else past this one.
pub open spec fn skip_if(m: Machine, cond: bool) -> Machine {
    advance(m, if cond { 4 } else { 2 })
}

/// The state with register `x` set to `val`.
pub open spec fn set_reg(m: Machine, x: u8, val: u8) -> Machine {
    Machine { v: m.v.update(x as int, val), ..m }
}

/// Sets register `x` to `val` and then the flag register to `flag`.
pub open spec fn set_with_flag(m: Machine, x: u8, val: u8, flag: bool) -> Machine {
    set_reg(set_reg(m, x, val), FLAG, if flag { 1u8 } else { 0u8 })
}

/// Whether the key numbered `key` exists and is held down.
pub open spec fn key_pressed(m: Machine, key: u8) -> bool {
    key < 16 && m.keys[key as int]
}

/// The highest-numbered key among the first `n` that is held down.
pub open spec fn last_pressed(keys: Seq<bool>, n: int) -> Option<u8>
    decreases n,
{
    if n <= 0 {
        None
    } else if keys[n - 1] {
        Some((n - 1) as u8)
    } else {
        last_pressed(keys, n - 1)
    }
}

/// Both timers counted down by one, each only while above zero.
pub open spec fn tick(m: Machine) -> Machine {
    Machine {
        delay: if m.delay > 0 { (m.delay - 1) as u8 } else { 0u8 },
        sound: if m.sound > 0 { (m.sound - 1) as u8 } else { 0u8 },
        ..m
    }
}

/// Memory after storing the registers `V0..=VX` from address `I` on.
pub open spec fn dumped(m: Machine, x: u8) -> Seq<u8> {
    Seq::new(
        4096,
        |a: int|
            if m.i <= a <= m.i + x {
                m.v[a - m.i]
            } else {
                m.memory[a]
            },
    )
}

/// The registers after loading `V0..=VX` from address `I` on.
pub open spec fn restored(m: Machine, x: u8) -> Seq<u8> {
    Seq::new(
        16,
        |r: int|
            if r <= x {
                m.memory[m.i + r]
            } else {
                m.v[r]
            },
    )
}

/// The effect of one instruction, including how it moves the program
/// counter, but not the countdown of the timers. `random` is the byte that
/// the random-number instruction combines with its mask.
pub open spec fn execute_spec(m: Machine, ins: Instruction, random: u8) -> Result<Machine, VmError> {
    match ins {
        Instruction::ClearScreen => Ok(
            advance(Machine { screen: Screen { pixels: blank(), dirty: true }, ..m }, 2),
        ),
        Instruction::Return => if m.stack.len() == 0 {
            Err(VmError::StackUnderflow)
        } else {
            Ok(Machine { pc: (m.stack.last() + 2) as u16, stack: m.stack.drop_last(), ..m })
        },
        Instruction::Jump { nnn } => Ok(Machine { pc: nnn, ..m }),
        Instruction::Call { nnn } => if m.stack.len() >= 16 {
            Err(VmError::StackOverflow)
        } else {
            Ok(Machine { stack: m.stack.push(m.pc), pc: nnn, ..m })
        },
        Instruction::SkipIfEqualImm { x, nn } => Ok(skip_if(m, m.v[x as int] == nn)),
        Instruction::SkipIfNotEqualImm { x, nn } => Ok(skip_if(m, m.v[x as int] != nn)),
        Instruction::SkipIfEqualReg { x, y } => Ok(skip_if(m, m.v[x as int] == m.v[y as int])),
        Instruction::SkipIfNotEqualReg { x, y } => Ok(
            skip_if(m, m.v[x as int] != m.v[y as int]),
        ),
        Instruction::SetImm { x, nn } => Ok(advance(set_reg(m, x, nn), 2)),
        Instruction::AddImm { x, nn } => Ok(
            advance(set_reg(m, x, ((m.v[x as int] + nn) % 256) as u8), 2),
        ),
        Instruction::Assign { x, y } => Ok(advance(set_reg(m, x, m.v[y as int]), 2)),
        Instruction::Or { x, y } => Ok(advance(set_reg(m, x, m.v[x as int] | m.v[y as int]), 2)),
        Instruction::And { x, y } => Ok(advance(set_reg(m, x, m.v[x as int] & m.v[y as int]), 2)),
        Instruction::Xor { x, y } => Ok(advance(set_reg(m, x, m.v[x as int] ^ m.v[y as int]), 2)),
        Instruction::AddReg { x, y } => {
            let sum = m.v[x as int] + m.v[y as int];
            Ok(advance(set_with_flag(m, x, (sum % 256) as u8, sum > 255), 2))
        },
        Instruction::SubReg { x, y } => {
            let (vx, vy) = (m.v[x as int], m.v[y as int]);
            Ok(advance(set_with_flag(m, x, ((vx - vy) % 256) as u8, vy > vx), 2))
        },
        Instruction::SubRev { x, y } => {
            let (vx, vy) = (m.v[x as int], m.v[y as int]);
            Ok(advance(set_with_flag(m, x, ((vy - vx) % 256) as u8, vx > vy), 2))
        },
        Instruction::ShiftRight { x } => {
            let vx = m.v[x as int];
            Ok(advance(set_with_flag(m, x, vx / 2, vx % 2 == 1), 2))
        },
        Instruction::ShiftLeft { x } => {
            let vx = m.v[x as int];
            Ok(advance(set_with_flag(m, x, ((vx * 2) % 256) as u8, vx >= 128), 2))
        },
        Instruction::SetIndex { nnn } => Ok(advance(Machine { i: nnn, ..m }, 2)),
        Instruction::JumpOffset { nnn } => Ok(Machine { pc: (nnn + m.v[0]) as u16, ..m }),
        Instruction::Random { x, nn } => Ok(advance(set_reg(m, x, random & nn), 2)),
        Instruction::Draw { x, y, n } => if m.i + n > 4096 {
            Err(VmError::OutOfBounds)
        } else {
            let rows = m.memory.subrange(m.i as int, m.i + n);
            let x0 = m.v[x as int] as int;
            let y0 = m.v[y as int] as int;
            let drawn = Machine {
                screen: Screen { pixels: blit(m.screen.pixels, rows, x0, y0), dirty: true },
                ..m
            };
            Ok(
                advance(
                    set_reg(
                        drawn,
                        FLAG,
                        if collides(m.screen.pixels, rows, x0, y0) {
                            1u8
                        } else {
                            0u8
                        },
                    ),
                    2,
                ),
            )
        },
        Instruction::SkipIfKey { x } => Ok(skip_if(m, key_pressed(m, m.v[x as int]))),
        Instruction::SkipIfNotKey { x } => Ok(skip_if(m, !key_pressed(m, m.v[x as int]))),
        Instruction::GetDelay { x } => Ok(advance(set_reg(m, x, m.delay), 2)),
        Instruction::WaitKey { x } => Ok(Machine { mode: Mode::AwaitingKey { x }, ..m }),
        Instruction::SetDelay { x } => Ok(advance(Machine { delay: m.v[x as int], ..m }, 2)),
        Instruction::SetSound { x } => Ok(advance(Machine { sound: m.v[x as int], ..m }, 2)),
        Instruction::AddIndex { x } => {
            let sum = m.i + m.v[x as int];
            Ok(advance(set_reg(Machine { i: sum as u16, ..m }, FLAG, if sum > 0xFFF {
                1u8
            } else {
                0u8
            }), 2))
        },
        Instruction::Glyph { x } => Ok(advance(Machine { i: (m.v[x as int] * 5) as u16, ..m }, 2)),
        Instruction::Bcd { x } => if m.i + 3 > 4096 {
            Err(VmError::OutOfBounds)
        } else {
            let vx = m.v[x as int];
            let memory = m.memory.update(m.i as int, vx / 100).update(
                m.i + 1,
                (vx / 10) % 10,
            ).update(m.i + 2, vx % 10);
            Ok(advance(Machine { memory, ..m }, 2))
        },
        Instruction::Dump { x } => if m.i + x + 1 > 4096 {
            Err(VmError::OutOfBounds)
        } else {
            Ok(
                advance(
                    Machine { memory: dumped(m, x), i: (m.i + x + 1) as u16, ..m },
                    2,
                ),
            )
        },
        Instruction::Load { x } => if m.i + x + 1 > 4096 {
            Err(VmError::OutOfBounds)
        } else {
            Ok(advance(Machine { v: restored(m, x), i: (m.i + x + 1) as u16, ..m }, 2))
        },
    }
}

/// One step of the interpreter. While waiting for a key: take the
/// highest-numbered key held down, if any, into the pending register and
/// move on; with no key held the step changes nothing but, if so configured,
/// the timers. While running: fetch the opcode at the program counter,
/// decode it, execute it, then count the timers down. A step that fails
/// changes nothing.
pub open spec fn step_spec(m: Machine, random: u8) -> Result<Machine, VmError> {
    match m.mode {
        Mode::AwaitingKey { x } => match last_pressed(m.keys, 16) {
            Some(key) => Ok(
                tick(
                    Machine {
                        v: m.v.update(x as int, key),
                        pc: (m.pc + 2) as u16,
                        mode: Mode::Running,
                        ..m
                    },
                ),
            ),
            None => Ok(
                if m.tick_while_waiting {
                    tick(m)
                } else {
                    m
                },
            ),
        },
        Mode::Running => if m.pc + 1 >= 4096 {
            Err(VmError::FetchOutOfBounds)
        } else {
            match decode_spec(fetch_spec(m)) {
                None => Err(VmError::UnknownOpcode(fetch_spec(m))),
                Some(ins) => match execute_spec(m, ins, random) {
                    Ok(next) => Ok(tick(next)),
                    Err(e) => Err(e),
                },
            }
        },
    }
}

/// Whether a call that returned `r` and left the machine in `after`, from
/// `before`, did what `expected` says: on success the new state, on failure
/// the error with the state untouched.
pub open spec fn performs(
    before: Machine,
    after: Machine,
    r: Result<(), VmError>,
    expected: Result<Machine, VmError>,
) -> bool {
    match expected {
        Ok(next) => r is Ok && after == next,
        Err(e) => r == Err::<(), VmError>(e) && after == before,
    }
}

/// The state after running one step per entry of `randoms`, each step
/// given that byte; the first error stops the run.
pub open spec fn steps(m: Machine, randoms: Seq<u8>) -> Result<Machine, VmError>
    decreases randoms.len(),
{
    if randoms.len() == 0 {
        Ok(m)
    } else {
        match step_spec(m, randoms[0]) {
            Ok(next) => steps(next, randoms.drop_first()),
            Err(e) => Err(e),
        }
    }
}

} // verus!
