//! General laws of the machine model, stated over the `isa` definitions and
//! proved once for all register files, memories and operands.

use vstd::prelude::*;
use crate::isa::{
    PC, SP, A0, COND, HALT, NEG, ZERO, CARRY, reg, with_reg, pair, with_pair, flag_byte, flag_on,
    with_flags_set, with_flags_cleared, sub8, add16, sub16, ridx, pidx, argc_of, pred_of, sel_of, dest_of,
    src_of, math_flags, carry_sum, add_spec, sub_spec, rsub_spec, push_spec, pop_spec,
    call_spec, ret_spec, shl_spec, shr_spec, instr_spec, fetched_byte, after_fetch,
    regs_after_one_operand, regs_after_two_operands, regs_after_operands, step_spec, steps_spec,
    lemma_mask_set, lemma_mask_clear, lemma_bit_terms, lemma_decode_bounds, lemma_nibble_bounds,
    lemma_not_byte, next_addr, bus_read, bus_read_word_le,
};

verus! {

// ---------------------------------------------------------------------------
// Register-pair composition.

/// Writing bytes `b0` and `b1` to registers 0 and 1 makes the PC pair read
/// as their little-endian 16-bit composition.
pub proof fn lemma_pc_pair_composition(s: Seq<u8>, b0: u8, b1: u8)
    requires
        s.len() == 16,
    ensures
        pair(with_reg(with_reg(s, 0, b0), 1, b1), PC) == b0 + 256 * b1,
{
}

/// Reading back a register pair yields exactly the 16-bit value written.
pub proof fn lemma_pair_roundtrip(s: Seq<u8>, i: u8, v: u16)
    requires
        s.len() == 16,
    ensures
        pair(with_pair(s, i, v), i) == v,
{
}

// ---------------------------------------------------------------------------
// HALT idempotence.

/// A halted machine idles: one step changes neither the register file nor
/// the memory.
pub proof fn lemma_halt_step_idle(s: Seq<u8>, m: Seq<u8>, w: bool)
    requires
        flag_on(s, HALT),
    ensures
        step_spec(s, m, w) == (s, m),
{
}

/// A halted machine stays exactly as it is under any number of steps.
pub proof fn lemma_halt_steps_idle(n: nat, s: Seq<u8>, m: Seq<u8>, w: bool)
    requires
        flag_on(s, HALT),
    ensures
        steps_spec(n, s, m, w) == (s, m),
    decreases n,
{
    if n > 0 {
        lemma_halt_steps_idle((n - 1) as nat, s, m, w);
    }
}

// ---------------------------------------------------------------------------
// The fetch phase and the program counter.

/// The fetch phase of a step advances PC by exactly 1 + argc, wrapping, and
/// touches nothing but PC and the scratch registers.
pub proof fn lemma_fetch_phase(s: Seq<u8>, m: Seq<u8>)
    requires
        s.len() == 16,
    ensures
        pair(regs_after_operands(s, m), PC) == add16(
            pair(s, PC),
            (1 + argc_of(fetched_byte(s, m))) as u16,
        ),
        flag_byte(regs_after_operands(s, m)) == flag_byte(s),
        forall|i: int|
            (2 <= i < 5 || 8 <= i < 16) ==> regs_after_operands(s, m)[i] == s[i],
{
    let op = fetched_byte(s, m);
    let n = argc_of(op);
    let pc0 = pair(s, PC);
    lemma_decode_bounds(op);
    let s1 = after_fetch(s);
    let s2 = regs_after_one_operand(s, m);
    let s3 = regs_after_two_operands(s, m);
    let s4 = regs_after_operands(s, m);
    assert(pair(s1, PC) == add16(pc0, 1));
    assert(add16(add16(pc0, 1), 1) == add16(pc0, 2));
    assert(add16(add16(pc0, 2), 1) == add16(pc0, 3));
    assert(add16(add16(pc0, 3), 1) == add16(pc0, 4));
    if n >= 1 {
        assert(pair(s2, PC) == add16(pair(s1, PC), 1));
    }
    if n >= 2 {
        assert(pair(s3, PC) == add16(pair(s2, PC), 1));
    }
    if n >= 3 {
        assert(pair(s4, PC) == add16(pair(s3, PC), 1));
    }
}

// ---------------------------------------------------------------------------
// Predication.

/// With COND clear, a predicated instruction has no side effect: memory is
/// untouched, the flags, SP and general registers keep their values — yet
/// PC still advances past the opcode and its operand bytes.
pub proof fn lemma_predicated_skip(s: Seq<u8>, m: Seq<u8>, w: bool)
    requires
        s.len() == 16,
        !flag_on(s, HALT),
        pred_of(fetched_byte(s, m)) == 1,
        !flag_on(s, COND),
    ensures
        step_spec(s, m, w).1 == m,
        step_spec(s, m, w).0 == regs_after_operands(s, m),
        pair(step_spec(s, m, w).0, PC) == add16(
            pair(s, PC),
            (1 + argc_of(fetched_byte(s, m))) as u16,
        ),
        flag_byte(step_spec(s, m, w).0) == flag_byte(s),
        forall|i: int| (2 <= i < 5 || 8 <= i < 16) ==> step_spec(s, m, w).0[i] == s[i],
{
    lemma_fetch_phase(s, m);
}

// ---------------------------------------------------------------------------
// PC advance for executed instructions.

/// Whether the instruction selected by `op`, with operand byte `a0`, leaves
/// the PC pair alone: either it touches no register at all below the
/// general ones, or its destination operands name registers other than the
/// PC bytes. Control transfers (a `mov16`, `call` or `ret` aimed at the PC
/// pair, or any write into registers 0 or 1) are exactly what this rules
/// out.
pub open spec fn retains_pc(op: u8, a0: u8) -> bool {
    let sel = sel_of(op);
    let d = dest_of(a0);
    let sn = src_of(a0);
    if sel == 0x00 || sel == 0x01 || sel == 0x02 || sel == 0x03 || sel == 0x0D || sel == 0x0E
        || sel == 0x1E || sel == 0x1F {
        true
    } else if sel == 0x04 {
        d >= 2 && sn >= 2
    } else {
        d >= 2
    }
}

/// Executing an instruction that `retains_pc` leaves the PC pair unchanged.
#[verifier::rlimit(100)]
pub proof fn lemma_instr_retains_pc(s: Seq<u8>, m: Seq<u8>, w: bool, op: u8)
    requires
        s.len() == 16,
        retains_pc(op, reg(s, A0)),
    ensures
        pair(instr_spec(s, m, w, op).0, PC) == pair(s, PC),
{
    lemma_decode_bounds(op);
    lemma_nibble_bounds(reg(s, A0));
    let sel = sel_of(op);
    let r = instr_spec(s, m, w, op).0;
    let pc0 = pair(s, PC);
    if sel == 0x00 {
        assert(pair(r, PC) == pc0);
    } else if sel == 0x01 {
        assert(pair(r, PC) == pc0);
    } else if sel == 0x02 {
        assert(pair(r, PC) == pc0);
    } else if sel == 0x03 {
        assert(pair(r, PC) == pc0);
    } else if sel == 0x04 {
        assert(pair(r, PC) == pc0);
    } else if sel == 0x05 {
        assert(pair(r, PC) == pc0);
    } else if sel == 0x06 {
        assert(pair(r, PC) == pc0);
    } else if sel == 0x07 {
        assert(pair(r, PC) == pc0);
    } else if sel == 0x08 {
        assert(pair(r, PC) == pc0);
    } else if sel == 0x09 {
        assert(pair(r, PC) == pc0);
    } else if sel == 0x0A {
        assert(pair(r, PC) == pc0);
    } else if sel == 0x0B {
        assert(pair(r, PC) == pc0);
    } else if sel == 0x0C {
        assert(pair(r, PC) == pc0);
    } else if sel == 0x0D {
        assert(pair(r, PC) == pc0);
    } else if sel == 0x0E {
        assert(pair(r, PC) == pc0);
    } else if sel == 0x0F {
        assert(pair(r, PC) == pc0);
    } else if sel <= 0x13 {
        assert(pair(r, PC) == pc0);
    } else if sel <= 0x16 {
        assert(pair(r, PC) == pc0);
    } else if sel == 0x17 {
        assert(pair(r, PC) == pc0);
    } else if sel <= 0x1B {
        assert(pair(r, PC) == pc0);
    } else if sel <= 0x1D {
        assert(pair(r, PC) == pc0);
    } else {
        assert(pair(r, PC) == pc0);
    }
}

/// An executed (non-skipped, non-halted) step of an instruction that does
/// not write the PC advances PC by exactly 1 + argc, wrapping.
pub proof fn lemma_step_pc_advance(s: Seq<u8>, m: Seq<u8>, w: bool)
    requires
        s.len() == 16,
        !flag_on(s, HALT),
        pred_of(fetched_byte(s, m)) == 0 || flag_on(s, COND),
        retains_pc(fetched_byte(s, m), reg(regs_after_operands(s, m), A0)),
    ensures
        pair(step_spec(s, m, w).0, PC) == add16(
            pair(s, PC),
            (1 + argc_of(fetched_byte(s, m))) as u16,
        ),
{
    let op = fetched_byte(s, m);
    let s4 = regs_after_operands(s, m);
    lemma_fetch_phase(s, m);
    lemma_instr_retains_pc(s4, m, w, op);
}

// ---------------------------------------------------------------------------
// Ripple-carry arithmetic.

/// After an arithmetic-flag update from `sum`, the CARRY bit is exactly the
/// ninth bit of `sum`.
/// Setting or clearing the flags under one mask leaves the bits under a
/// disjoint mask alone.
proof fn lemma_mask_disjoint(f: u8, m1: u8, m2: u8)
    requires
        m1 & m2 == 0,
    ensures
        (f | m1) & m2 == f & m2,
        (f & !m1) & m2 == f & m2,
{
    assert((f | m1) & m2 == f & m2 && (f & !m1) & m2 == f & m2) by (bit_vector)
        requires
            m1 & m2 == 0,
    ;
}

proof fn lemma_carry_bit(s: Seq<u8>, sum: u16)
    requires
        s.len() == 16,
    ensures
        flag_byte(math_flags(s, sum)) & CARRY == (if sum > 255 {
            1u8
        } else {
            0u8
        }),
        flag_byte(math_flags(s, sum)) & ZERO == (if sum % 256 == 0 {
            ZERO
        } else {
            0u8
        }),
        flag_byte(math_flags(s, sum)) & NEG == (if sum % 256 >= 128 {
            NEG
        } else {
            0u8
        }),
        forall|i: int| 0 <= i < 16 && i != 4 ==> math_flags(s, sum)[i] == s[i],
{
    assert(ZERO & NEG == 0 && CARRY & NEG == 0 && CARRY & ZERO == 0) by (bit_vector);
    let s1 = if sum % 256 >= 128 {
        with_flags_set(s, NEG)
    } else {
        with_flags_cleared(s, NEG)
    };
    let s2 = if sum % 256 == 0 {
        with_flags_set(s1, ZERO)
    } else {
        with_flags_cleared(s1, ZERO)
    };
    if sum % 256 >= 128 {
        lemma_mask_set(flag_byte(s), NEG);
    } else {
        lemma_mask_clear(flag_byte(s), NEG);
    }
    if sum % 256 == 0 {
        lemma_mask_set(flag_byte(s1), ZERO);
    } else {
        lemma_mask_clear(flag_byte(s1), ZERO);
    }
    lemma_mask_disjoint(flag_byte(s1), ZERO, NEG);
    if sum > 255 {
        lemma_mask_set(flag_byte(s2), CARRY);
    } else {
        lemma_mask_clear(flag_byte(s2), CARRY);
    }
    lemma_mask_disjoint(flag_byte(s2), CARRY, NEG);
    lemma_mask_disjoint(flag_byte(s2), CARRY, ZERO);
}

/// Two chained `add` instructions — low bytes first, then high bytes with
/// the carry rippling through the CARRY flag — compute the 16-bit sum of
/// the two little-endian operand pairs, wrapping modulo 65536, and leave
/// CARRY exactly when the true sum overflows 16 bits.
pub proof fn lemma_add_ripple_carry(s: Seq<u8>, dl: u8, sl: u8, dh: u8, sh: u8)
    requires
        s.len() == 16,
        !flag_on(s, CARRY),
        dl < 16,
        sl < 16,
        dh < 16,
        sh < 16,
        dl != 4,
        dh != 4,
        sh != 4,
        dh != dl,
        sh != dl,
    ensures
        ({
            let s2 = add_spec(add_spec(s, dl, sl), dh, sh);
            let total = reg(s, dl) + reg(s, sl) + 256 * (reg(s, dh) + reg(s, sh));
            reg(s2, dl) + 256 * reg(s2, dh) == total % 0x10000 && (flag_on(s2, CARRY) <==> total
                >= 0x10000)
        }),
{
    let a = reg(s, dl);
    let b = reg(s, sl);
    let c = reg(s, dh);
    let d0 = reg(s, sh);
    let total = a + b + 256 * (c + d0);
    assert(flag_byte(s) & CARRY == 0);
    let s1 = add_spec(s, dl, sl);
    let sum1 = carry_sum(s, a, b);
    assert(sum1 == a + b);
    lemma_carry_bit(s, sum1);
    let c1: int = if sum1 > 255 {
        1
    } else {
        0
    };
    assert(flag_byte(s1) & CARRY == c1);
    assert(reg(s1, dl) == (sum1 % 256) as u8);
    assert(reg(s1, dh) == c);
    assert(reg(s1, sh) == d0);
    let s2 = add_spec(s1, dh, sh);
    let sum2 = carry_sum(s1, c, d0);
    assert(sum2 == c + d0 + c1);
    lemma_carry_bit(s1, sum2);
    assert(reg(s2, dh) == (sum2 % 256) as u8);
    assert(reg(s2, dl) == reg(s1, dl));
    let c2: int = if sum2 > 255 {
        1
    } else {
        0
    };
    assert(flag_on(s2, CARRY) <==> sum2 > 255);
    assert(sum1 % 256 == a + b - 256 * c1);
    assert(sum2 % 256 == sum2 - 256 * c2);
    assert(reg(s2, dl) + 256 * reg(s2, dh) == total - 0x10000 * c2);
    if sum2 > 255 {
        assert(total >= 0x10000);
        assert(total - 0x10000 < 0x10000);
        assert(total % 0x10000 == total - 0x10000);
    } else {
        assert(total < 0x10000);
        assert(total % 0x10000 == total);
    }
}

// ---------------------------------------------------------------------------
// Subtraction via one's complement plus carry.

/// With CARRY preset to 1, `sub` computes the plain (no borrow-in) wrapping
/// difference dest - src, and leaves CARRY exactly when no borrow occurred
/// (dest >= src).
pub proof fn lemma_sub_no_borrow(s: Seq<u8>, d: u8, sn: u8)
    requires
        s.len() == 16,
        flag_on(s, CARRY),
        d < 16,
        sn < 16,
        d != 4,
    ensures
        reg(sub_spec(s, d, sn), d) == sub8(reg(s, d), reg(s, sn)),
        flag_on(sub_spec(s, d, sn), CARRY) <==> reg(s, d) >= reg(s, sn),
        flag_on(sub_spec(s, d, sn), ZERO) <==> reg(s, d) == reg(s, sn),
        flag_on(sub_spec(s, d, sn), NEG) <==> sub8(reg(s, d), reg(s, sn)) >= 128,
        forall|i: int| 0 <= i < 16 && i != 4 && i != d ==> sub_spec(s, d, sn)[i] == s[i],
{
    let a = reg(s, d);
    let b = reg(s, sn);
    lemma_bit_terms(flag_byte(s));
    assert(flag_byte(s) & CARRY == 1);
    lemma_not_byte(b);
    let sum = carry_sum(s, a, !b);
    assert(sum == a - b + 256);
    lemma_carry_bit(s, sum);
    assert(reg(sub_spec(s, d, sn), d) == (sum % 256) as u8);
    assert(sum % 256 == (a - b) % 256);
}

/// With CARRY preset to 1, `rsub` computes the plain wrapping difference
/// src - dest, and leaves CARRY exactly when src >= dest.
pub proof fn lemma_rsub_no_borrow(s: Seq<u8>, d: u8, sn: u8)
    requires
        s.len() == 16,
        flag_on(s, CARRY),
        d < 16,
        sn < 16,
        d != 4,
    ensures
        reg(rsub_spec(s, d, sn), d) == sub8(reg(s, sn), reg(s, d)),
        flag_on(rsub_spec(s, d, sn), CARRY) <==> reg(s, sn) >= reg(s, d),
        flag_on(rsub_spec(s, d, sn), ZERO) <==> reg(s, sn) == reg(s, d),
        flag_on(rsub_spec(s, d, sn), NEG) <==> sub8(reg(s, sn), reg(s, d)) >= 128,
        forall|i: int| 0 <= i < 16 && i != 4 && i != d ==> rsub_spec(s, d, sn)[i] == s[i],
{
    let a = reg(s, d);
    let b = reg(s, sn);
    lemma_bit_terms(flag_byte(s));
    assert(flag_byte(s) & CARRY == 1);
    lemma_not_byte(a);
    let sum = carry_sum(s, !a, b);
    assert(sum == b - a + 256);
    lemma_carry_bit(s, sum);
    assert(reg(rsub_spec(s, d, sn), d) == (sum % 256) as u8);
    assert(sum % 256 == (b - a) % 256);
}

/// Two chained `sub` instructions — low bytes with CARRY preset to 1, then
/// high bytes with the borrow rippling through CARRY — compute the 16-bit
/// wrapping difference of the two little-endian operand pairs, and leave
/// CARRY exactly when no 16-bit borrow occurred.
pub proof fn lemma_sub_ripple_borrow(s: Seq<u8>, dl: u8, sl: u8, dh: u8, sh: u8)
    requires
        s.len() == 16,
        flag_on(s, CARRY),
        dl < 16,
        sl < 16,
        dh < 16,
        sh < 16,
        dl != 4,
        dh != 4,
        sh != 4,
        dh != dl,
        sh != dl,
    ensures
        ({
            let s2 = sub_spec(sub_spec(s, dl, sl), dh, sh);
            let x = reg(s, dl) + 256 * reg(s, dh);
            let y = reg(s, sl) + 256 * reg(s, sh);
            reg(s2, dl) + 256 * reg(s2, dh) == (x - y) % 0x10000 && (flag_on(s2, CARRY) <==> x
                >= y)
        }),
{
    let a = reg(s, dl);
    let b = reg(s, sl);
    let c = reg(s, dh);
    let d0 = reg(s, sh);
    let x = a + 256 * c;
    let y = b + 256 * d0;
    lemma_bit_terms(flag_byte(s));
    assert(flag_byte(s) & CARRY == 1);
    lemma_not_byte(b);
    let s1 = sub_spec(s, dl, sl);
    let sum1 = carry_sum(s, a, !b);
    assert(sum1 == a - b + 256);
    lemma_carry_bit(s, sum1);
    let c1: int = if sum1 > 255 {
        1
    } else {
        0
    };
    assert(flag_byte(s1) & CARRY == c1);
    assert(reg(s1, dl) == (sum1 % 256) as u8);
    assert(reg(s1, dh) == c);
    assert(reg(s1, sh) == d0);
    lemma_not_byte(d0);
    let s2 = sub_spec(s1, dh, sh);
    let sum2 = carry_sum(s1, c, !d0);
    assert(sum2 == c - d0 + 255 + c1);
    lemma_carry_bit(s1, sum2);
    assert(reg(s2, dh) == (sum2 % 256) as u8);
    assert(reg(s2, dl) == reg(s1, dl));
    let c2: int = if sum2 > 255 {
        1
    } else {
        0
    };
    assert(flag_on(s2, CARRY) <==> sum2 > 255);
    assert(sum1 % 256 == a - b + 256 - 256 * c1);
    assert(sum2 % 256 == sum2 - 256 * c2);
    assert(reg(s2, dl) + 256 * reg(s2, dh) == x - y + 0x10000 - 0x10000 * c2);
    if sum2 > 255 {
        assert(x >= y);
        assert(0 <= x - y < 0x10000);
        assert((x - y) % 0x10000 == x - y);
    } else {
        assert(x < y);
        assert(0 <= x - y + 0x10000 < 0x10000);
        assert((x - y) % 0x10000 == x - y + 0x10000);
    }
}

// ---------------------------------------------------------------------------
// Stack round trips.

/// `push` then `pop` of the same value through the stack: the destination
/// register receives exactly the byte pushed from the source register, SP
/// returns to its original value, and no other register changes. The stack
/// slot must lie inside the writable store.
pub proof fn lemma_push_pop_roundtrip(s: Seq<u8>, src: u8, dest: u8, m: Seq<u8>, w: bool)
    requires
        s.len() == 16,
        w,
        src < 16,
        dest < 16,
        dest != 2,
        dest != 3,
        (pair(s, SP) as int) < m.len(),
    ensures
        ({
            let p = push_spec(s, src, m, w);
            let s2 = pop_spec(p.0, dest, p.1);
            reg(s2, dest) == reg(s, src) && pair(s2, SP) == pair(s, SP) && forall|i: int|
                0 <= i < 16 && i != 2 && i != 3 && i != dest ==> s2[i] == s[i]
        }),
{
    let sp = pair(s, SP);
    let p = push_spec(s, src, m, w);
    assert(bus_read(p.1, sp) == reg(s, src));
    lemma_pair_roundtrip(s, SP, add16(sp, 1));
    assert(pair(p.0, SP) == add16(sp, 1));
    assert(sub16(add16(sp, 1), 1) == sp);
    let s1 = with_pair(p.0, SP, sub16(pair(p.0, SP), 1));
    lemma_pair_roundtrip(p.0, SP, sp);
    assert(pair(s1, SP) == sp);
}

/// `call` then `ret` on the same register pair: the pair returns to the
/// value it held when the call executed (for a `call` on the PC pair, the
/// address of the instruction after the call), SP returns to its original
/// value, and no register outside that pair and the SP pair changes. The
/// two stack bytes must lie inside the writable store, and the pair must
/// not be the SP pair itself.
pub proof fn lemma_call_ret_roundtrip(s: Seq<u8>, d: u8, sn: u8, m: Seq<u8>, w: bool)
    requires
        s.len() == 16,
        w,
        d < 16,
        sn < 16,
        d != 2,
        d != 3,
        (pair(s, SP) as int) < m.len(),
        (next_addr(pair(s, SP)) as int) < m.len(),
    ensures
        ({
            let p = call_spec(s, d, sn, m, w);
            let s2 = ret_spec(p.0, d, p.1);
            pair(s2, d) == pair(s, d) && pair(s2, SP) == pair(s, SP) && forall|i: int|
                0 <= i < 16 && i != 2 && i != 3 && i != pidx(d) && i != pidx(d) + 1 ==> s2[i]
                    == s[i]
        }),
{
    let sp = pair(s, SP);
    let ret0 = pair(s, d);
    let p = call_spec(s, d, sn, m, w);
    assert(next_addr(sp) != sp);
    assert(bus_read(p.1, sp) == ret0 % 256);
    assert(bus_read(p.1, next_addr(sp)) == ret0 / 256);
    assert(bus_read_word_le(p.1, sp) == ret0);
    lemma_pair_roundtrip(s, SP, add16(sp, 2));
    assert(pair(p.0, SP) == add16(sp, 2));
    assert(sub16(add16(sp, 2), 2) == sp);
    let s1 = with_pair(p.0, SP, sub16(pair(p.0, SP), 2));
    lemma_pair_roundtrip(p.0, SP, sp);
    assert(pair(s1, SP) == sp);
    let s2 = ret_spec(p.0, d, p.1);
    assert(s2 == with_pair(s1, d, bus_read_word_le(p.1, pair(s1, SP))));
    lemma_pair_roundtrip(s1, d, ret0);
    assert(s2[2] == s[2] && s2[3] == s[3]);
}

// ---------------------------------------------------------------------------
// Shift saturation.

/// A shift by 8 or more always yields 0 — it never wraps around to the
/// original value — and shifts touch no register but their destination
/// (in particular, no flags).
pub proof fn lemma_shift_saturation(s: Seq<u8>, dest: u8, src: u8)
    requires
        s.len() == 16,
        reg(s, src) >= 8,
    ensures
        reg(shl_spec(s, dest, src), dest) == 0,
        reg(shr_spec(s, dest, src), dest) == 0,
        forall|i: int| 0 <= i < 16 && i != ridx(dest) ==> shl_spec(s, dest, src)[i] == s[i],
        forall|i: int| 0 <= i < 16 && i != ridx(dest) ==> shr_spec(s, dest, src)[i] == s[i],
{
}

} // verus!
