use vstd::prelude::*;

use crate::error::VmError;
use crate::opcode::{decode_spec, Instruction};
use crate::semantics::{fetch_spec, step_spec, steps, Machine, Mode};

verus! {

/// The fields of an opcode whose bytes are `hi` and `lo`.
proof fn lemma_fields(hi: u8, lo: u8)
    ensures
        ({
            let op = (hi as int * 256 + lo as int) as u16;
            &&& op as int == hi as int * 256 + lo as int
            &&& crate::opcode::class_of(op) == hi as int / 16
            &&& crate::opcode::x_of(op) == hi % 16
            &&& crate::opcode::y_of(op) == lo / 16
            &&& crate::opcode::n_of(op) == lo % 16
            &&& crate::opcode::nn_of(op) == lo
            &&& crate::opcode::nnn_of(op) as int == (hi as int % 16) * 256 + lo as int
        }),
{
    let op = hi as int * 256 + lo as int;
    assert({
        &&& 0 <= op < 65536
        &&& op / 4096 == hi as int / 16
        &&& op / 256 == hi as int
        &&& op % 256 == lo as int
        &&& (op / 16) % 16 == lo as int / 16
        &&& op % 16 == lo as int % 16
        &&& op % 4096 == (hi as int % 16) * 256 + lo as int
    }) by (nonlinear_arith)
        requires
            op == hi as int * 256 + lo as int,
            0 <= hi < 256,
            0 <= lo < 256,
    ;
}

/// After "set `VX` to `a`; set `VY` to `b`; add `VY` to `VX`", `VX` holds
/// `(a + b) mod 256` and `VF` is 1 exactly when `a + b` exceeds 255. `X`
/// must be neither `Y` nor `F`, or the later writes would overwrite the
/// earlier ones.
pub proof fn law_add_sets_carry(m: Machine, x: u8, y: u8, a: u8, b: u8, randoms: Seq<u8>)
    requires
        m.wf(),
        m.mode == Mode::Running,
        m.pc + 6 <= 4096,
        x < 15,
        y < 16,
        x != y,
        randoms.len() == 3,
        m.memory[m.pc as int] == 0x60 + x,
        m.memory[m.pc + 1] == a,
        m.memory[m.pc + 2] == 0x60 + y,
        m.memory[m.pc + 3] == b,
        m.memory[m.pc + 4] == 0x80 + x,
        m.memory[m.pc + 5] == y * 16 + 4,
    ensures
        steps(m, randoms) is Ok,
        ({
            let end = steps(m, randoms)->Ok_0;
            &&& end.v[x as int] == (a + b) % 256
            &&& (end.v[15] == 1 <==> a + b > 255)
            &&& (end.v[15] == 0 <==> a + b <= 255)
            &&& end.pc == m.pc + 6
        }),
{
    lemma_fields((0x60 + x) as u8, a);
    lemma_fields((0x60 + y) as u8, b);
    lemma_fields((0x80 + x) as u8, (y * 16 + 4) as u8);
    reveal_with_fuel(steps, 4);
    let m1 = step_spec(m, randoms[0])->Ok_0;
    assert(step_spec(m, randoms[0]) is Ok);
    let m2 = step_spec(m1, randoms[1])->Ok_0;
    assert(step_spec(m1, randoms[1]) is Ok);
    assert(step_spec(m2, randoms[2]) is Ok);
    assert(randoms.drop_first().drop_first().drop_first().len() == 0);
}

/// After "set `VX` to `a`; set `VY` to `b`; subtract `VY` from `VX`", `VX`
/// holds `(a - b) mod 256` and `VF` is 1 exactly when `b` exceeds `a` (a
/// borrow). `X` must be neither `Y` nor `F`.
pub proof fn law_sub_sets_borrow(m: Machine, x: u8, y: u8, a: u8, b: u8, randoms: Seq<u8>)
    requires
        m.wf(),
        m.mode == Mode::Running,
        m.pc + 6 <= 4096,
        x < 15,
        y < 16,
        x != y,
        randoms.len() == 3,
        m.memory[m.pc as int] == 0x60 + x,
        m.memory[m.pc + 1] == a,
        m.memory[m.pc + 2] == 0x60 + y,
        m.memory[m.pc + 3] == b,
        m.memory[m.pc + 4] == 0x80 + x,
        m.memory[m.pc + 5] == y * 16 + 5,
    ensures
        steps(m, randoms) is Ok,
        ({
            let end = steps(m, randoms)->Ok_0;
            &&& end.v[x as int] == (a - b) % 256
            &&& (end.v[15] == 1 <==> b > a)
            &&& (end.v[15] == 0 <==> b <= a)
            &&& end.pc == m.pc + 6
        }),
{
    lemma_fields((0x60 + x) as u8, a);
    lemma_fields((0x60 + y) as u8, b);
    lemma_fields((0x80 + x) as u8, (y * 16 + 5) as u8);
    reveal_with_fuel(steps, 4);
    let m1 = step_spec(m, randoms[0])->Ok_0;
    assert(step_spec(m, randoms[0]) is Ok);
    let m2 = step_spec(m1, randoms[1])->Ok_0;
    assert(step_spec(m1, randoms[1]) is Ok);
    assert(step_spec(m2, randoms[2]) is Ok);
    assert(randoms.drop_first().drop_first().drop_first().len() == 0);
}

/// A call to `0x300` followed there by a return resumes right after the
/// call, with the stack as it was before the call.
pub proof fn law_call_then_return(m: Machine, randoms: Seq<u8>)
    requires
        m.wf(),
        m.mode == Mode::Running,
        m.pc + 1 < 4096,
        m.stack.len() < 16,
        randoms.len() == 2,
        m.memory[m.pc as int] == 0x23,
        m.memory[m.pc + 1] == 0x00,
        m.memory[0x300] == 0x00,
        m.memory[0x301] == 0xEE,
    ensures
        steps(m, randoms) is Ok,
        steps(m, randoms)->Ok_0.pc == m.pc + 2,
        steps(m, randoms)->Ok_0.stack == m.stack,
{
    lemma_fields(0x23, 0x00);
    lemma_fields(0x00, 0xEE);
    reveal_with_fuel(steps, 3);
    let m1 = step_spec(m, randoms[0])->Ok_0;
    assert(step_spec(m, randoms[0]) is Ok);
    assert(m1.pc == 0x300);
    assert(m1.stack == m.stack.push(m.pc));
    assert(step_spec(m1, randoms[1]) is Ok);
    assert(m1.stack.drop_last() =~= m.stack);
    assert(randoms.drop_first().drop_first().len() == 0);
}

/// A sound timer at 1 falls to 0 on the next step that executes any
/// instruction other than setting the sound timer: the edge on which the
/// host sounds its tone.
pub proof fn law_sound_timer_edge(m: Machine, random: u8)
    requires
        m.wf(),
        m.mode == Mode::Running,
        m.sound == 1,
        step_spec(m, random) is Ok,
        !(decode_spec(fetch_spec(m)) matches Some(Instruction::SetSound { .. })),
    ensures
        step_spec(m, random)->Ok_0.sound == 0,
{
}

/// An opcode that names no instruction fails the step with that opcode.
/// (`step` leaves the machine untouched on failure, the program counter
/// included.)
pub proof fn law_unknown_opcode(m: Machine, random: u8)
    requires
        m.wf(),
        m.mode == Mode::Running,
        m.pc + 1 < 4096,
        decode_spec(fetch_spec(m)) is None,
    ensures
        step_spec(m, random) == Err::<Machine, VmError>(VmError::UnknownOpcode(fetch_spec(m))),
{
}

} // verus!
