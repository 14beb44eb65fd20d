use vstd::prelude::*;

use crate::cartridge::Cartridge;
use crate::error::VmError;
use crate::framebuffer::{blank, FrameBuffer};
use crate::opcode::Instruction;
use crate::semantics::{
    advance, execute_spec, last_pressed, step_spec, tick, fetch_spec, font, initial, loaded, performs, restored, dumped, set_reg,
    set_with_flag, skip_if, Machine, Mode, FLAG, GLYPH_SIZE, MAX_PROGRAM_SIZE, MEMORY_SIZE,
    PROGRAM_START, STACK_DEPTH,
};

verus! {

/// Relies on `rand::thread_rng` and `rand::Rng::gen::<u8>`: a byte drawn from
/// the thread's generator. Nothing is known of its value.
#[verifier::external_body]
fn random_byte() -> (r: u8) {
    rand::Rng::gen::<u8>(&mut rand::thread_rng())
}

/// The virtual machine: memory, registers, stack, timers, keypad and
/// framebuffer, and the interpreter that runs on them.
pub struct VirtualMachine {
    memory: Vec<u8>,
    v: Vec<u8>,
    i: u16,
    pc: u16,
    stack: Vec<u16>,
    screen: FrameBuffer,
    keypad: Vec<bool>,
    delay_timer: u8,
    sound_timer: u8,
    mode: Mode,
    tick_while_waiting: bool,
}

impl View for VirtualMachine {
    type V = Machine;

    closed spec fn view(&self) -> Machine {
        Machine {
            memory: self.memory@,
            v: self.v@,
            i: self.i,
            pc: self.pc,
            stack: self.stack@,
            screen: self.screen@,
            keys: self.keypad@,
            delay: self.delay_timer,
            sound: self.sound_timer,
            mode: self.mode,
            tick_while_waiting: self.tick_while_waiting,
        }
    }
}

/// A vector of `n` copies of `value`.
fn filled<T: Copy>(value: T, n: usize) -> (r: Vec<T>)
    ensures
        r@ == Seq::new(n as nat, |k: int| value),
{
    let mut r: Vec<T> = Vec::new();
    let mut k: usize = 0;
    while k < n
        invariant
            k <= n,
            r@ == Seq::new(k as nat, |j: int| value),
        decreases n - k,
    {
        r.push(value);
        k = k + 1;
        assert(r@ =~= Seq::new(k as nat, |j: int| value));
    }
    r
}

impl VirtualMachine {
    /// Whether the machine is in a reachable shape.
    pub open spec fn wf(&self) -> bool {
        self@.wf()
    }

    /// A machine with the font at the start of memory, the rest of memory,
    /// the registers, stack and timers zero, a blank screen, no key held,
    /// and the program counter at 512.
    pub fn new() -> (r: VirtualMachine)
        ensures
            r.wf(),
            r@ == initial(),
    {
        let glyphs: Vec<u8> = vec![
            0xF0u8, 0x90, 0x90, 0x90, 0xF0,
            0x20, 0x60, 0x20, 0x20, 0x70,
            0xF0, 0x10, 0xF0, 0x80, 0xF0,
            0xF0, 0x10, 0xF0, 0x10, 0xF0,
            0x90, 0x90, 0xF0, 0x10, 0x10,
            0xF0, 0x80, 0xF0, 0x10, 0xF0,
            0xF0, 0x80, 0xF0, 0x90, 0xF0,
            0xF0, 0x10, 0x20, 0x40, 0x40,
            0xF0, 0x90, 0xF0, 0x90, 0xF0,
            0xF0, 0x90, 0xF0, 0x10, 0xF0,
            0xF0, 0x90, 0xF0, 0x90, 0x90,
            0xE0, 0x90, 0xE0, 0x90, 0xE0,
            0xF0, 0x80, 0x80, 0x80, 0xF0,
            0xE0, 0x90, 0x90, 0x90, 0xE0,
            0xF0, 0x80, 0xF0, 0x80, 0xF0,
            0xF0, 0x80, 0xF0, 0x80, 0x80,
        ];
        assert(glyphs@ =~= font());
        let mut memory: Vec<u8> = Vec::new();
        let mut a: usize = 0;
        while a < MEMORY_SIZE
            invariant
                a <= 4096,
                glyphs@ == font(),
                memory@ == Seq::new(a as nat, |b: int| if b < 80 { font()[b] } else { 0u8 }),
            decreases 4096 - a,
        {
            if a < glyphs.len() {
                memory.push(glyphs[a]);
            } else {
                memory.push(0);
            }
            a = a + 1;
            assert(memory@ =~= Seq::new(
                a as nat,
                |b: int| if b < 80 { font()[b] } else { 0u8 },
            ));
        }
        let r = VirtualMachine {
            memory,
            v: filled(0u8, 16),
            i: 0,
            pc: PROGRAM_START as u16,
            stack: Vec::new(),
            screen: FrameBuffer::new(),
            keypad: filled(false, 16),
            delay_timer: 0,
            sound_timer: 0,
            mode: Mode::Running,
            tick_while_waiting: true,
        };
        assert(r@.stack =~= Seq::<u16>::empty());
        r
    }

    /// Copies `program` into memory from address 512 on, leaving the rest
    /// of memory as it is; a program longer than 3584 bytes is refused and
    /// nothing changes.
    pub fn load_program(&mut self, program: &[u8]) -> (r: Result<(), VmError>)
        requires
            old(self).wf(),
        ensures
            final(self).wf(),
            r is Err <==> program@.len() > 3584,
            r is Err ==> r == Err::<(), VmError>(VmError::ProgramTooLarge) && final(self)@
                == old(self)@,
            r is Ok ==> final(self)@ == (Machine {
                memory: loaded(old(self)@.memory, program@),
                ..old(self)@
            }),
    {
        if program.len() > MAX_PROGRAM_SIZE {
            return Err(VmError::ProgramTooLarge);
        }
        let ghost before = self.memory@;
        let ghost whole = self@;
        let mut k: usize = 0;
        while k < program.len()
            invariant
                program@.len() <= 3584,
                k <= program@.len(),
                before.len() == 4096,
                self@ == (Machine { memory: self.memory@, ..whole }),
                self.memory@ == Seq::new(
                    4096,
                    |a: int|
                        if 512 <= a < 512 + k {
                            program@[a - 512]
                        } else {
                            before[a]
                        },
                ),
            decreases program@.len() - k,
        {
            self.memory.set(PROGRAM_START + k, program[k]);
            k = k + 1;
            assert(self.memory@ =~= Seq::new(
                4096,
                |a: int|
                    if 512 <= a < 512 + k {
                        program@[a - 512]
                    } else {
                        before[a]
                    },
            ));
        }
        assert(self.memory@ =~= loaded(before, program@));
        Ok(())
    }

    /// Loads the program image `cart` from address 512 on.
    pub fn load_rom(&mut self, cart: Cartridge)
        requires
            old(self).wf(),
            cart.wf(),
        ensures
            final(self).wf(),
            final(self)@ == (Machine { memory: loaded(old(self)@.memory, cart@), ..old(self)@ }),
    {
        let r = self.load_program(cart.data());
        assert(r is Ok);
    }

    /// The byte at `addr`; an address past the end of memory is refused.
    pub fn read_byte(&self, addr: u16) -> (r: Result<u8, VmError>)
        requires
            self.wf(),
        ensures
            addr < 4096 ==> r == Ok::<u8, VmError>(self@.memory[addr as int]),
            addr >= 4096 ==> r == Err::<u8, VmError>(VmError::OutOfBounds),
    {
        if addr as usize >= MEMORY_SIZE {
            Err(VmError::OutOfBounds)
        } else {
            Ok(self.memory[addr as usize])
        }
    }

    /// Stores `value` at `addr`; an address past the end of memory is
    /// refused and nothing changes.
    pub fn write_byte(&mut self, addr: u16, value: u8) -> (r: Result<(), VmError>)
        requires
            old(self).wf(),
        ensures
            final(self).wf(),
            addr < 4096 ==> r is Ok && final(self)@ == (Machine {
                memory: old(self)@.memory.update(addr as int, value),
                ..old(self)@
            }),
            addr >= 4096 ==> r == Err::<(), VmError>(VmError::OutOfBounds) && final(self)@
                == old(self)@,
    {
        if addr as usize >= MEMORY_SIZE {
            Err(VmError::OutOfBounds)
        } else {
            self.memory.set(addr as usize, value);
            Ok(())
        }
    }

    /// Records whether key `key` is held down.
    pub fn set_key(&mut self, key: usize, pressed: bool)
        requires
            old(self).wf(),
            key < 16,
        ensures
            final(self).wf(),
            final(self)@ == (Machine {
                keys: old(self)@.keys.update(key as int, pressed),
                ..old(self)@
            }),
    {
        self.keypad.set(key, pressed);
    }

    /// Chooses whether the timers count down on a step that waits for a
    /// key and finds none held (they do by default).
    pub fn set_tick_while_waiting(&mut self, on: bool)
        requires
            old(self).wf(),
        ensures
            final(self).wf(),
            final(self)@ == (Machine { tick_while_waiting: on, ..old(self)@ }),
    {
        self.tick_while_waiting = on;
    }

    /// The pixels, row after row, and whether anything was drawn since the
    /// previous call; the flag is reset.
    pub fn framebuffer(&mut self) -> (r: (Vec<bool>, bool))
        requires
            old(self).wf(),
        ensures
            final(self).wf(),
            r.0@ == old(self)@.screen.pixels,
            r.1 == old(self)@.screen.dirty,
            final(self)@.screen.pixels == old(self)@.screen.pixels,
            !final(self)@.screen.dirty,
            final(self)@ == (Machine { screen: final(self)@.screen, ..old(self)@ }),
    {
        let dirty = self.screen.take_dirty();
        (self.screen.pixels(), dirty)
    }

    /// The program counter.
    pub fn pc(&self) -> (r: u16)
        ensures
            r == self@.pc,
    {
        self.pc
    }

    /// The index register `I`.
    pub fn index(&self) -> (r: u16)
        ensures
            r == self@.i,
    {
        self.i
    }

    /// The register `Vx`.
    pub fn register(&self, x: usize) -> (r: u8)
        requires
            self.wf(),
            x < 16,
        ensures
            r == self@.v[x as int],
    {
        self.v[x]
    }

    /// How many return addresses are on the stack.
    pub fn stack_pointer(&self) -> (r: usize)
        ensures
            r == self@.stack.len(),
    {
        self.stack.len()
    }

    /// The delay timer.
    pub fn delay_timer(&self) -> (r: u8)
        ensures
            r == self@.delay,
    {
        self.delay_timer
    }

    /// The sound timer; the host sounds a tone when it falls to zero.
    pub fn sound_timer(&self) -> (r: u8)
        ensures
            r == self@.sound,
    {
        self.sound_timer
    }

    /// Whether the interpreter runs or waits for a key.
    pub fn mode(&self) -> (r: Mode)
        ensures
            r == self@.mode,
    {
        self.mode
    }

    /// The state of the pixel at column `x`, row `y`.
    pub fn pixel(&self, x: usize, y: usize) -> (r: bool)
        requires
            self.wf(),
            x < 64,
            y < 32,
        ensures
            r == self@.screen.pixels[y * 64 + x],
    {
        self.screen.get(x, y)
    }

    /// The opcode at the program counter, most significant byte first.
    fn fetch_opcode(&self) -> (r: u16)
        requires
            self.wf(),
            self@.pc + 1 < 4096,
        ensures
            r == fetch_spec(self@),
    {
        let hi = self.memory[self.pc as usize] as u16;
        let lo = self.memory[self.pc as usize + 1] as u16;
        hi * 256 + lo
    }

    /// Blanks the screen and marks it for repainting.
    fn clear_screen(&mut self)
        requires
            old(self).wf(),
        ensures
            final(self)@ == (Machine {
                screen: crate::framebuffer::Screen { pixels: blank(), dirty: true },
                ..old(self)@
            }),
    {
        self.screen.clear();
    }

    /// Moves the program counter on by `k` bytes.
    fn advance(&mut self, k: u16)
        requires
            old(self)@.pc <= 4094,
            k <= 4,
        ensures
            final(self)@ == advance(old(self)@, k as int),
    {
        self.pc = self.pc + k;
    }

    /// Skips the next instruction when `cond` holds.
    fn skip_next_if(&mut self, cond: bool)
        requires
            old(self)@.pc <= 4094,
        ensures
            final(self)@ == skip_if(old(self)@, cond),
    {
        if cond {
            self.advance(4);
        } else {
            self.advance(2);
        }
    }

    /// Sets register `x` to `val`.
    fn set_reg(&mut self, x: u8, val: u8)
        requires
            old(self)@.v.len() == 16,
            x < 16,
        ensures
            final(self)@ == set_reg(old(self)@, x, val),
    {
        self.v.set(x as usize, val);
    }

    /// Sets register `x` to `val` and then the flag register to `flag`.
    fn set_with_flag(&mut self, x: u8, val: u8, flag: bool)
        requires
            old(self)@.v.len() == 16,
            x < 16,
        ensures
            final(self)@ == set_with_flag(old(self)@, x, val, flag),
    {
        self.set_reg(x, val);
        self.set_reg(FLAG, if flag { 1 } else { 0 });
    }

    /// Draws the `n` sprite rows at `I` at `(VX, VY)` and sets the flag
    /// register to whether a set pixel was cleared.
    fn draw_sprite(&mut self, x: u8, y: u8, n: u8) -> (r: Result<(), VmError>)
        requires
            old(self).wf(),
            old(self)@.mode == Mode::Running,
            old(self)@.pc <= 4094,
            x < 16,
            y < 16,
            n < 16,
        ensures
            performs(
                old(self)@,
                final(self)@,
                r,
                execute_spec(old(self)@, Instruction::Draw { x, y, n }, 0),
            ),
    {
        let start = self.i as usize;
        if start + n as usize > MEMORY_SIZE {
            return Err(VmError::OutOfBounds);
        }
        let mut rows: Vec<u8> = Vec::new();
        let mut k: usize = 0;
        while k < n as usize
            invariant
                k <= n,
                start + n <= 4096,
                self.memory@.len() == 4096,
                rows@ == self.memory@.subrange(start as int, start + k),
            decreases n - k,
        {
            rows.push(self.memory[start + k]);
            k = k + 1;
            assert(rows@ =~= self.memory@.subrange(start as int, start + k));
        }
        let x0 = self.v[x as usize];
        let y0 = self.v[y as usize];
        let collided = self.screen.draw_sprite(x0, y0, rows.as_slice());
        self.set_reg(FLAG, if collided { 1 } else { 0 });
        self.advance(2);
        Ok(())
    }

    /// Executes one decoded instruction: its effect and the move of the
    /// program counter, without counting the timers down. `random` is the
    /// byte that the random-number instruction masks.
    pub fn execute(&mut self, ins: Instruction, random: u8) -> (r: Result<(), VmError>)
        requires
            old(self).wf(),
            old(self)@.mode == Mode::Running,
            old(self)@.pc <= 4094,
            ins.wf(),
        ensures
            final(self).wf(),
            performs(old(self)@, final(self)@, r, execute_spec(old(self)@, ins, random)),
    {
        match ins {
            Instruction::ClearScreen
            | Instruction::Return
            | Instruction::Jump { .. }
            | Instruction::Call { .. }
            | Instruction::JumpOffset { .. }
            | Instruction::WaitKey { .. }
            | Instruction::Draw { .. }
            | Instruction::Dump { .. }
            | Instruction::Load { .. }
            => self.execute_control(ins, random),
            Instruction::SkipIfEqualImm { .. }
            | Instruction::SkipIfNotEqualImm { .. }
            | Instruction::SkipIfEqualReg { .. }
            | Instruction::SkipIfNotEqualReg { .. }
            | Instruction::SkipIfKey { .. }
            | Instruction::SkipIfNotKey { .. }
            => self.execute_skip(ins, random),
            Instruction::SetImm { .. }
            | Instruction::AddImm { .. }
            | Instruction::Assign { .. }
            | Instruction::Or { .. }
            | Instruction::And { .. }
            | Instruction::Xor { .. }
            | Instruction::Random { .. }
            | Instruction::GetDelay { .. }
            => self.execute_register(ins, random),
            Instruction::AddReg { .. }
            | Instruction::SubReg { .. }
            | Instruction::SubRev { .. }
            | Instruction::ShiftRight { .. }
            | Instruction::ShiftLeft { .. }
            => self.execute_arith(ins, random),
            Instruction::SetIndex { .. }
            | Instruction::SetDelay { .. }
            | Instruction::SetSound { .. }
            | Instruction::AddIndex { .. }
            | Instruction::Glyph { .. }
            | Instruction::Bcd { .. }
            => self.execute_index(ins, random),
        }
    }

    /// Executes the instructions that move the program counter other than by a skip, and those that touch memory or the screen.
    #[verifier::rlimit(40)]
    fn execute_control(&mut self, ins: Instruction, random: u8) -> (r: Result<(), VmError>)
        requires
            old(self).wf(),
            old(self)@.mode == Mode::Running,
            old(self)@.pc <= 4094,
            ins.wf(),
            ins is ClearScreen || ins is Return || ins is Jump || ins is Call || ins is JumpOffset || ins is WaitKey || ins is Draw || ins is Dump || ins is Load,
        ensures
            final(self).wf(),
            performs(old(self)@, final(self)@, r, execute_spec(old(self)@, ins, random)),
    {
        match ins {
            Instruction::ClearScreen => {
                self.clear_screen();
                self.advance(2);
            },
            Instruction::Return => {
                if self.stack.len() == 0 {
                    return Err(VmError::StackUnderflow);
                }
                let top = self.stack.pop().unwrap();
                self.pc = top + 2;
            },
            Instruction::Jump { nnn } => {
                self.pc = nnn;
            },
            Instruction::Call { nnn } => {
                if self.stack.len() >= STACK_DEPTH {
                    return Err(VmError::StackOverflow);
                }
                self.stack.push(self.pc);
                self.pc = nnn;
            },
            Instruction::JumpOffset { nnn } => {
                self.pc = nnn + self.v[0] as u16;
            },
            Instruction::WaitKey { x } => {
                self.mode = Mode::AwaitingKey { x };
            },
            Instruction::Draw { x, y, n } => {
                return self.draw_sprite(x, y, n);
            },
            Instruction::Dump { x } => {
                return self.dump_registers(x);
            },
            Instruction::Load { x } => {
                return self.load_registers(x);
            },
            _ => {},
        }
        Ok(())
    }

    /// Executes the conditional skips.
    #[verifier::rlimit(40)]
    fn execute_skip(&mut self, ins: Instruction, random: u8) -> (r: Result<(), VmError>)
        requires
            old(self).wf(),
            old(self)@.mode == Mode::Running,
            old(self)@.pc <= 4094,
            ins.wf(),
            ins is SkipIfEqualImm || ins is SkipIfNotEqualImm || ins is SkipIfEqualReg || ins is SkipIfNotEqualReg || ins is SkipIfKey || ins is SkipIfNotKey,
        ensures
            final(self).wf(),
            performs(old(self)@, final(self)@, r, execute_spec(old(self)@, ins, random)),
    {
        match ins {
            Instruction::SkipIfEqualImm { x, nn } => {
                let cond = self.v[x as usize] == nn;
                self.skip_next_if(cond);
            },
            Instruction::SkipIfNotEqualImm { x, nn } => {
                let cond = self.v[x as usize] != nn;
                self.skip_next_if(cond);
            },
            Instruction::SkipIfEqualReg { x, y } => {
                let cond = self.v[x as usize] == self.v[y as usize];
                self.skip_next_if(cond);
            },
            Instruction::SkipIfNotEqualReg { x, y } => {
                let cond = self.v[x as usize] != self.v[y as usize];
                self.skip_next_if(cond);
            },
            Instruction::SkipIfKey { x } => {
                let key = self.v[x as usize];
                let cond = key < 16 && self.keypad[key as usize];
                self.skip_next_if(cond);
            },
            Instruction::SkipIfNotKey { x } => {
                let key = self.v[x as usize];
                let cond = !(key < 16 && self.keypad[key as usize]);
                self.skip_next_if(cond);
            },
            _ => {},
        }
        Ok(())
    }

    /// Executes the instructions that compute a register.
    #[verifier::rlimit(40)]
    fn execute_register(&mut self, ins: Instruction, random: u8) -> (r: Result<(), VmError>)
        requires
            old(self).wf(),
            old(self)@.mode == Mode::Running,
            old(self)@.pc <= 4094,
            ins.wf(),
            ins is SetImm || ins is AddImm || ins is Assign || ins is Or || ins is And || ins is Xor || ins is Random || ins is GetDelay,
        ensures
            final(self).wf(),
            performs(old(self)@, final(self)@, r, execute_spec(old(self)@, ins, random)),
    {
        match ins {
            Instruction::SetImm { x, nn } => {
                self.set_reg(x, nn);
                self.advance(2);
            },
            Instruction::AddImm { x, nn } => {
                let val = self.v[x as usize].wrapping_add(nn);
                self.set_reg(x, val);
                self.advance(2);
            },
            Instruction::Assign { x, y } => {
                let val = self.v[y as usize];
                self.set_reg(x, val);
                self.advance(2);
            },
            Instruction::Or { x, y } => {
                let val = self.v[x as usize] | self.v[y as usize];
                self.set_reg(x, val);
                self.advance(2);
            },
            Instruction::And { x, y } => {
                let val = self.v[x as usize] & self.v[y as usize];
                self.set_reg(x, val);
                self.advance(2);
            },
            Instruction::Xor { x, y } => {
                let val = self.v[x as usize] ^ self.v[y as usize];
                self.set_reg(x, val);
                self.advance(2);
            },
            Instruction::Random { x, nn } => {
                self.set_reg(x, random & nn);
                self.advance(2);
            },
            Instruction::GetDelay { x } => {
                let val = self.delay_timer;
                self.set_reg(x, val);
                self.advance(2);
            },
            _ => {},
        }
        Ok(())
    }

    /// Executes the arithmetic and shifts that set the flag register.
    #[verifier::rlimit(40)]
    fn execute_arith(&mut self, ins: Instruction, random: u8) -> (r: Result<(), VmError>)
        requires
            old(self).wf(),
            old(self)@.mode == Mode::Running,
            old(self)@.pc <= 4094,
            ins.wf(),
            ins is AddReg || ins is SubReg || ins is SubRev || ins is ShiftRight || ins is ShiftLeft,
        ensures
            final(self).wf(),
            performs(old(self)@, final(self)@, r, execute_spec(old(self)@, ins, random)),
    {
        match ins {
            Instruction::AddReg { x, y } => {
                let sum = self.v[x as usize] as u16 + self.v[y as usize] as u16;
                self.set_with_flag(x, (sum % 256) as u8, sum > 255);
                self.advance(2);
            },
            Instruction::SubReg { x, y } => {
                let vx = self.v[x as usize];
                let vy = self.v[y as usize];
                self.set_with_flag(x, vx.wrapping_sub(vy), vy > vx);
                self.advance(2);
            },
            Instruction::SubRev { x, y } => {
                let vx = self.v[x as usize];
                let vy = self.v[y as usize];
                self.set_with_flag(x, vy.wrapping_sub(vx), vx > vy);
                self.advance(2);
            },
            Instruction::ShiftRight { x } => {
                let vx = self.v[x as usize];
                self.set_with_flag(x, vx / 2, vx % 2 == 1);
                self.advance(2);
            },
            Instruction::ShiftLeft { x } => {
                let vx = self.v[x as usize];
                self.set_with_flag(x, ((vx as u16 * 2) % 256) as u8, vx >= 128);
                self.advance(2);
            },
            _ => {},
        }
        Ok(())
    }

    /// Executes the instructions on the index register and the timers.
    #[verifier::rlimit(40)]
    fn execute_index(&mut self, ins: Instruction, random: u8) -> (r: Result<(), VmError>)
        requires
            old(self).wf(),
            old(self)@.mode == Mode::Running,
            old(self)@.pc <= 4094,
            ins.wf(),
            ins is SetIndex || ins is SetDelay || ins is SetSound || ins is AddIndex || ins is Glyph || ins is Bcd,
        ensures
            final(self).wf(),
            performs(old(self)@, final(self)@, r, execute_spec(old(self)@, ins, random)),
    {
        match ins {
            Instruction::SetIndex { nnn } => {
                self.i = nnn;
                self.advance(2);
            },
            Instruction::SetDelay { x } => {
                self.delay_timer = self.v[x as usize];
                self.advance(2);
            },
            Instruction::SetSound { x } => {
                self.sound_timer = self.v[x as usize];
                self.advance(2);
            },
            Instruction::AddIndex { x } => {
                let sum = self.i as u32 + self.v[x as usize] as u32;
                self.i = sum as u16;
                self.set_reg(FLAG, if sum > 0xFFF { 1 } else { 0 });
                self.advance(2);
            },
            Instruction::Glyph { x } => {
                self.i = self.v[x as usize] as u16 * GLYPH_SIZE;
                self.advance(2);
            },
            Instruction::Bcd { x } => {
                let base = self.i as usize;
                if base + 3 > MEMORY_SIZE {
                    return Err(VmError::OutOfBounds);
                }
                let vx = self.v[x as usize];
                self.memory.set(base, vx / 100);
                self.memory.set(base + 1, (vx / 10) % 10);
                self.memory.set(base + 2, vx % 10);
                self.advance(2);
            },
            _ => {},
        }
        Ok(())
    }

    /// Stores `V0..=VX` in memory from `I` on, then moves `I` past them.
    fn dump_registers(&mut self, x: u8) -> (r: Result<(), VmError>)
        requires
            old(self).wf(),
            old(self)@.mode == Mode::Running,
            old(self)@.pc <= 4094,
            x < 16,
        ensures
            performs(
                old(self)@,
                final(self)@,
                r,
                execute_spec(old(self)@, Instruction::Dump { x }, 0),
            ),
    {
        let base = self.i as usize;
        if base + x as usize + 1 > MEMORY_SIZE {
            return Err(VmError::OutOfBounds);
        }
        let ghost before = self@;
        let mut k: usize = 0;
        while k <= x as usize
            invariant
                x < 16,
                k <= x + 1,
                base == before.i,
                base + x + 1 <= 4096,
                before.wf(),
                self@ == (Machine { memory: self.memory@, ..before }),
                self.memory@ == Seq::new(
                    4096,
                    |a: int|
                        if base <= a < base + k {
                            before.v[a - base]
                        } else {
                            before.memory[a]
                        },
                ),
            decreases x + 1 - k,
        {
            self.memory.set(base + k, self.v[k]);
            k = k + 1;
            assert(self.memory@ =~= Seq::new(
                4096,
                |a: int|
                    if base <= a < base + k {
                        before.v[a - base]
                    } else {
                        before.memory[a]
                    },
            ));
        }
        assert(self.memory@ =~= dumped(before, x));
        self.i = (base + x as usize + 1) as u16;
        self.advance(2);
        Ok(())
    }

    /// Loads `V0..=VX` from memory from `I` on, then moves `I` past them.
    fn load_registers(&mut self, x: u8) -> (r: Result<(), VmError>)
        requires
            old(self).wf(),
            old(self)@.mode == Mode::Running,
            old(self)@.pc <= 4094,
            x < 16,
        ensures
            performs(
                old(self)@,
                final(self)@,
                r,
                execute_spec(old(self)@, Instruction::Load { x }, 0),
            ),
    {
        let base = self.i as usize;
        if base + x as usize + 1 > MEMORY_SIZE {
            return Err(VmError::OutOfBounds);
        }
        let ghost before = self@;
        let mut k: usize = 0;
        while k <= x as usize
            invariant
                x < 16,
                k <= x + 1,
                base == before.i,
                base + x + 1 <= 4096,
                before.wf(),
                self@ == (Machine { v: self.v@, ..before }),
                self.v@ == Seq::new(
                    16,
                    |r: int|
                        if r < k {
                            before.memory[base + r]
                        } else {
                            before.v[r]
                        },
                ),
            decreases x + 1 - k,
        {
            let val = self.memory[base + k];
            self.v.set(k, val);
            k = k + 1;
            assert(self.v@ =~= Seq::new(
                16,
                |r: int|
                    if r < k {
                        before.memory[base + r]
                    } else {
                        before.v[r]
                    },
            ));
        }
        assert(self.v@ =~= restored(before, x));
        self.i = (base + x as usize + 1) as u16;
        self.advance(2);
        Ok(())
    }

    /// The highest-numbered key held down, if any.
    fn pressed_key(&self) -> (r: Option<u8>)
        requires
            self.wf(),
        ensures
            r == last_pressed(self@.keys, 16),
    {
        let mut found: Option<u8> = None;
        let mut k: usize = 0;
        while k < 16
            invariant
                k <= 16,
                self.keypad@.len() == 16,
                found == last_pressed(self.keypad@, k as int),
            decreases 16 - k,
        {
            if self.keypad[k] {
                found = Some(k as u8);
            }
            k = k + 1;
        }
        found
    }

    /// Counts each timer down by one if it is above zero.
    fn tick_timers(&mut self)
        ensures
            final(self)@ == tick(old(self)@),
    {
        if self.delay_timer > 0 {
            self.delay_timer = self.delay_timer - 1;
        }
        if self.sound_timer > 0 {
            self.sound_timer = self.sound_timer - 1;
        }
    }

    /// Runs one step of the interpreter, with `random` as the byte that a
    /// random-number instruction masks. While waiting for a key, takes the
    /// highest-numbered key held down into the pending register and moves
    /// on, or, with none held, leaves the program where it is. While
    /// running, fetches, decodes and executes the instruction at the program
    /// counter. Then counts the timers down. A step that fails changes
    /// nothing.
    pub fn step(&mut self, random: u8) -> (r: Result<(), VmError>)
        requires
            old(self).wf(),
        ensures
            final(self).wf(),
            performs(old(self)@, final(self)@, r, step_spec(old(self)@, random)),
    {
        match self.mode {
            Mode::AwaitingKey { x } => {
                match self.pressed_key() {
                    Some(key) => {
                        self.v.set(x as usize, key);
                        self.pc = self.pc + 2;
                        self.mode = Mode::Running;
                        self.tick_timers();
                    },
                    None => {
                        if self.tick_while_waiting {
                            self.tick_timers();
                        }
                    },
                }
                Ok(())
            },
            Mode::Running => {
                if self.pc as usize + 1 >= MEMORY_SIZE {
                    return Err(VmError::FetchOutOfBounds);
                }
                let op = self.fetch_opcode();
                match Instruction::decode(op) {
                    None => Err(VmError::UnknownOpcode(op)),
                    Some(ins) => {
                        let r = self.execute(ins, random);
                        match r {
                            Ok(()) => {
                                self.tick_timers();
                            },
                            Err(_) => {},
                        }
                        r
                    },
                }
            },
        }
    }

    /// Runs one step of the interpreter with a freshly drawn random byte.
    /// Whatever byte was drawn, the step did what `step` does with it.
    pub fn run_cycle(&mut self) -> (r: Result<(), VmError>)
        requires
            old(self).wf(),
        ensures
            final(self).wf(),
            exists|random: u8| performs(old(self)@, final(self)@, r, step_spec(old(self)@, random)),
    {
        let random = random_byte();
        self.step(random)
    }
}

} // verus!
