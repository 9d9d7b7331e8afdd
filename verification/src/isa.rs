//! Mathematical model of the Melo instruction-set architecture.
//!
//! Everything here is specification-level: the register file and the bus are
//! modelled as byte sequences, and each instruction's effect is a function
//! from machine state to machine state. The executable interpreter in
//! `mfcpu` is verified against these definitions.

use vstd::prelude::*;

verus! {

// Structural register indices.
pub const PC: u8 = 0;
pub const SP: u8 = 2;
pub const FLAG: u8 = 4;
pub const A0: u8 = 5;
pub const A1: u8 = 6;
pub const A2: u8 = 7;

// Flag masks, bit 7 down to bit 0.
pub const COND: u8 = 128;
pub const HALT: u8 = 64;
pub const GT: u8 = 32;
pub const EQ: u8 = 16;
pub const LT: u8 = 8;
pub const NEG: u8 = 4;
pub const ZERO: u8 = 2;
pub const CARRY: u8 = 1;

// ---------------------------------------------------------------------------
// Bus model: an address space of up to 65536 bytes. Reads outside the backing
// store return 0; writes outside it, or to a write-protected store, are
// dropped.

/// The byte a bus with contents `m` yields at `addr`.
pub open spec fn bus_read(m: Seq<u8>, addr: u16) -> u8 {
    if (addr as int) < m.len() {
        m[addr as int]
    } else {
        0
    }
}

/// The contents of a bus after writing `val` at `addr`: out-of-range writes
/// and writes to a write-protected store (`writable == false`) are dropped.
pub open spec fn bus_write(m: Seq<u8>, addr: u16, val: u8, writable: bool) -> Seq<u8> {
    if writable && (addr as int) < m.len() {
        m.update(addr as int, val)
    } else {
        m
    }
}

/// The address one past `a`, wrapping modulo 65536.
pub open spec fn next_addr(a: u16) -> u16 {
    (((a as int) + 1) % 0x10000) as u16
}

/// A 16-bit word read little-endian: low byte at `addr`, high byte at the
/// wrapped successor address.
pub open spec fn bus_read_word_le(m: Seq<u8>, addr: u16) -> u16 {
    (bus_read(m, addr) + 256 * bus_read(m, next_addr(addr))) as u16
}

/// A 16-bit word written little-endian.
pub open spec fn bus_write_word_le(m: Seq<u8>, addr: u16, val: u16, writable: bool) -> Seq<u8> {
    bus_write(
        bus_write(m, addr, (val % 256) as u8, writable),
        next_addr(addr),
        (val / 256) as u8,
        writable,
    )
}

/// A 16-bit word read big-endian: high byte at `addr`.
pub open spec fn bus_read_word_be(m: Seq<u8>, addr: u16) -> u16 {
    (256 * bus_read(m, addr) + bus_read(m, next_addr(addr))) as u16
}

/// A 16-bit word written big-endian.
pub open spec fn bus_write_word_be(m: Seq<u8>, addr: u16, val: u16, writable: bool) -> Seq<u8> {
    bus_write(
        bus_write(m, addr, (val / 256) as u8, writable),
        next_addr(addr),
        (val % 256) as u8,
        writable,
    )
}

// ---------------------------------------------------------------------------
// Register file model: a sequence of 16 bytes. Any index is legal; it is
// masked into 0..16, and 16-bit pair access is additionally aligned down to
// an even index.

/// A register index masked into 0..16.
pub open spec fn ridx(i: u8) -> int {
    (i as int) % 16
}

/// A register-pair index: masked into 0..16, then aligned down to even.
pub open spec fn pidx(i: u8) -> int {
    2 * (((i as int) % 16) / 2)
}

/// The byte held by register `i` (index masked).
pub open spec fn reg(s: Seq<u8>, i: u8) -> u8 {
    s[ridx(i)]
}

/// The register file after storing `v` into register `i` (index masked).
pub open spec fn with_reg(s: Seq<u8>, i: u8, v: u8) -> Seq<u8> {
    s.update(ridx(i), v)
}

/// The 16-bit little-endian value of the register pair at `i`.
pub open spec fn pair(s: Seq<u8>, i: u8) -> u16 {
    (s[pidx(i)] + 256 * s[pidx(i) + 1]) as u16
}

/// The register file after storing the 16-bit value `v` little-endian into
/// the register pair at `i`.
pub open spec fn with_pair(s: Seq<u8>, i: u8, v: u16) -> Seq<u8> {
    s.update(pidx(i), (v % 256) as u8).update(pidx(i) + 1, (v / 256) as u8)
}

/// The flag byte.
pub open spec fn flag_byte(s: Seq<u8>) -> u8 {
    s[FLAG as int]
}

/// Whether any flag under `mask` is set.
pub open spec fn flag_on(s: Seq<u8>, mask: u8) -> bool {
    flag_byte(s) & mask != 0
}

/// The register file with every flag under `mask` set.
pub open spec fn with_flags_set(s: Seq<u8>, mask: u8) -> Seq<u8> {
    s.update(FLAG as int, flag_byte(s) | mask)
}

/// The register file with every flag under `mask` cleared.
pub open spec fn with_flags_cleared(s: Seq<u8>, mask: u8) -> Seq<u8> {
    s.update(FLAG as int, flag_byte(s) & !mask)
}

// ---------------------------------------------------------------------------
// 8-bit helper arithmetic, all wrapping modulo 256.

/// 8-bit wrapping addition.
pub open spec fn add8(x: u8, y: u8) -> u8 {
    ((x + y) % 256) as u8
}

/// 8-bit wrapping subtraction.
pub open spec fn sub8(x: u8, y: u8) -> u8 {
    ((x - y) % 256) as u8
}

/// 16-bit wrapping addition.
pub open spec fn add16(x: u16, y: u16) -> u16 {
    ((x + y) % 0x10000) as u16
}

/// 16-bit wrapping subtraction.
pub open spec fn sub16(x: u16, y: u16) -> u16 {
    ((x - y) % 0x10000) as u16
}

// ---------------------------------------------------------------------------
// Opcode decoding: [argc:2][predicated:1][selector:5].

/// The operand-byte count of an opcode (0..=3).
pub open spec fn argc_of(op: u8) -> u8 {
    op >> 6
}

/// The predication bit of an opcode.
pub open spec fn pred_of(op: u8) -> u8 {
    (op >> 5) & 1
}

/// The instruction selector of an opcode (0..=31).
pub open spec fn sel_of(op: u8) -> u8 {
    op & 0x1F
}

/// The destination nibble of an operand byte.
pub open spec fn dest_of(a: u8) -> u8 {
    a >> 4
}

/// The source nibble of an operand byte.
pub open spec fn src_of(a: u8) -> u8 {
    a & 0xF
}

// ---------------------------------------------------------------------------
// Derived flag updates.

/// Flags after a logic result `v`: NEG from bit 7, ZERO from `v == 0`;
/// CARRY untouched.
pub open spec fn logic_flags(s: Seq<u8>, v: u8) -> Seq<u8> {
    let s1 = if v >= 128 {
        with_flags_set(s, NEG)
    } else {
        with_flags_cleared(s, NEG)
    };
    if v == 0 {
        with_flags_set(s1, ZERO)
    } else {
        with_flags_cleared(s1, ZERO)
    }
}

/// Flags after an arithmetic intermediate `sum` (0..=511, before truncation
/// to 8 bits): NEG from bit 7 of the truncated value, ZERO from the truncated
/// value being 0, CARRY from `sum` exceeding 255.
pub open spec fn math_flags(s: Seq<u8>, sum: u16) -> Seq<u8> {
    let s1 = if sum % 256 >= 128 {
        with_flags_set(s, NEG)
    } else {
        with_flags_cleared(s, NEG)
    };
    let s2 = if sum % 256 == 0 {
        with_flags_set(s1, ZERO)
    } else {
        with_flags_cleared(s1, ZERO)
    };
    if sum > 255 {
        with_flags_set(s2, CARRY)
    } else {
        with_flags_cleared(s2, CARRY)
    }
}

// ---------------------------------------------------------------------------
// Bit helpers on single bytes.

/// The bit-reversal of a byte.
pub open spec fn rev8(b: u8) -> u8 {
    ((b >> 7) & 1) | (((b >> 6) & 1) << 1) | (((b >> 5) & 1) << 2) | (((b >> 4) & 1) << 3) | (((b
        >> 3) & 1) << 4) | (((b >> 2) & 1) << 5) | (((b >> 1) & 1) << 6) | ((b & 1) << 7)
}

/// The number of 1-bits in a byte.
pub open spec fn ones8(b: u8) -> u8 {
    ((b & 1) + ((b >> 1) & 1) + ((b >> 2) & 1) + ((b >> 3) & 1) + ((b >> 4) & 1) + ((b >> 5) & 1)
        + ((b >> 6) & 1) + ((b >> 7) & 1)) as u8
}

/// A left shift that yields 0 for shift amounts of 8 or more.
pub open spec fn shl8(l: u8, r: u8) -> u8 {
    if r >= 8 {
        0
    } else {
        l << r
    }
}

/// A right shift that yields 0 for shift amounts of 8 or more.
pub open spec fn shr8(l: u8, r: u8) -> u8 {
    if r >= 8 {
        0
    } else {
        l >> r
    }
}

// ---------------------------------------------------------------------------
// Instruction effects. `dest` and `src` are the operand nibbles (register
// indices, masked by `reg`/`pair` themselves); `arg` is the raw A0 byte.
// Instructions that touch the bus take its contents `m` and whether it
// accepts writes, and give back the new contents.

/// `cmp`: GT/EQ/LT from unsigned comparison; NEG/ZERO from the right operand.
pub open spec fn cmp_spec(s: Seq<u8>, dest: u8, src: u8) -> Seq<u8> {
    let lhs = reg(s, dest);
    let rhs = reg(s, src);
    let s1 = if lhs > rhs {
        with_flags_set(s, GT)
    } else {
        with_flags_cleared(s, GT)
    };
    let s2 = if lhs == rhs {
        with_flags_set(s1, EQ)
    } else {
        with_flags_cleared(s1, EQ)
    };
    let s3 = if lhs < rhs {
        with_flags_set(s2, LT)
    } else {
        with_flags_cleared(s2, LT)
    };
    logic_flags(s3, rhs)
}

/// `any`: COND set iff some flag under `arg` is set.
pub open spec fn any_spec(s: Seq<u8>, arg: u8) -> Seq<u8> {
    if flag_byte(s) & arg != 0 {
        with_flags_set(s, COND)
    } else {
        with_flags_cleared(s, COND)
    }
}

/// `all`: COND set iff every flag under `arg` is set.
pub open spec fn all_spec(s: Seq<u8>, arg: u8) -> Seq<u8> {
    if flag_byte(s) & arg == arg {
        with_flags_set(s, COND)
    } else {
        with_flags_cleared(s, COND)
    }
}

/// `swap`: exchange two registers.
pub open spec fn swap_spec(s: Seq<u8>, dest: u8, src: u8) -> Seq<u8> {
    let lhs = reg(s, dest);
    let rhs = reg(s, src);
    with_reg(with_reg(s, dest, rhs), src, lhs)
}

/// `rev`: bit-reversal of the source register.
pub open spec fn rev_spec(s: Seq<u8>, dest: u8, src: u8) -> Seq<u8> {
    with_reg(s, dest, rev8(reg(s, src)))
}

/// `zeros`: count of 0-bits in the source register.
pub open spec fn zeros_spec(s: Seq<u8>, dest: u8, src: u8) -> Seq<u8> {
    with_reg(s, dest, ones8(!reg(s, src)))
}

/// `ones`: count of 1-bits in the source register.
pub open spec fn ones_spec(s: Seq<u8>, dest: u8, src: u8) -> Seq<u8> {
    with_reg(s, dest, ones8(reg(s, src)))
}

/// `mov`: 8-bit register copy.
pub open spec fn mov_spec(s: Seq<u8>, dest: u8, src: u8) -> Seq<u8> {
    with_reg(s, dest, reg(s, src))
}

/// `mov16`: 16-bit paired register copy.
pub open spec fn mov16_spec(s: Seq<u8>, dest: u8, src: u8) -> Seq<u8> {
    with_pair(s, dest, pair(s, src))
}

/// `call`: push the dest pair onto the bus at [SP], advance SP by 2
/// (16-bit, wrapping), then load the dest pair from the src pair.
pub open spec fn call_spec(s: Seq<u8>, dest: u8, src: u8, m: Seq<u8>, w: bool) -> (
    Seq<u8>,
    Seq<u8>,
) {
    let m1 = bus_write_word_le(m, pair(s, SP), pair(s, dest), w);
    let s1 = with_pair(s, SP, add16(pair(s, SP), 2));
    let s2 = with_pair(s1, dest, pair(s1, src));
    (s2, m1)
}

/// `ret`: drop SP by 2 (16-bit, wrapping), then load the dest pair from
/// the bus at [SP].
pub open spec fn ret_spec(s: Seq<u8>, dest: u8, m: Seq<u8>) -> Seq<u8> {
    let s1 = with_pair(s, SP, sub16(pair(s, SP), 2));
    with_pair(s1, dest, bus_read_word_le(m, pair(s1, SP)))
}

/// `load`: indirect byte load through the src pair.
pub open spec fn load_spec(s: Seq<u8>, dest: u8, src: u8, m: Seq<u8>) -> Seq<u8> {
    with_reg(s, dest, bus_read(m, pair(s, src)))
}

/// `store`: indirect byte store through the dest pair.
pub open spec fn store_spec(s: Seq<u8>, dest: u8, src: u8, m: Seq<u8>, w: bool) -> Seq<u8> {
    bus_write(m, pair(s, dest), reg(s, src), w)
}

/// `push`: store the src register at [SP], then advance SP by 1 (16-bit,
/// wrapping).
pub open spec fn push_spec(s: Seq<u8>, src: u8, m: Seq<u8>, w: bool) -> (Seq<u8>, Seq<u8>) {
    let m1 = bus_write(m, pair(s, SP), reg(s, src), w);
    let s1 = with_pair(s, SP, add16(pair(s, SP), 1));
    (s1, m1)
}

/// `pop`: drop SP by 1 (16-bit, wrapping), then load the dest register
/// from [SP].
pub open spec fn pop_spec(s: Seq<u8>, dest: u8, m: Seq<u8>) -> Seq<u8> {
    let s1 = with_pair(s, SP, sub16(pair(s, SP), 1));
    with_reg(s1, dest, bus_read(m, pair(s1, SP)))
}

/// `and`/`or`/`xor`/`not`: bitwise result into dest, with the logic-flag
/// update.
pub open spec fn logic_op_spec(s: Seq<u8>, dest: u8, v: u8) -> Seq<u8> {
    with_reg(logic_flags(s, v), dest, v)
}

/// The 9-bit-wide intermediate of an add-with-carry: `lhs + rhs + CARRY`.
pub open spec fn carry_sum(s: Seq<u8>, lhs: u8, rhs: u8) -> u16 {
    (lhs + rhs + (flag_byte(s) & CARRY)) as u16
}

/// `add`/`sub`/`rsub`: truncated sum into dest, with the arithmetic-flag
/// update from the untruncated sum.
pub open spec fn math_op_spec(s: Seq<u8>, dest: u8, sum: u16) -> Seq<u8> {
    with_reg(math_flags(s, sum), dest, (sum % 256) as u8)
}

/// `add`: dest + src + CARRY.
pub open spec fn add_spec(s: Seq<u8>, dest: u8, src: u8) -> Seq<u8> {
    math_op_spec(s, dest, carry_sum(s, reg(s, dest), reg(s, src)))
}

/// `sub`: dest + !src + CARRY (subtract-with-borrow).
pub open spec fn sub_spec(s: Seq<u8>, dest: u8, src: u8) -> Seq<u8> {
    math_op_spec(s, dest, carry_sum(s, reg(s, dest), !reg(s, src)))
}

/// `rsub`: !dest + src + CARRY (reverse subtract).
pub open spec fn rsub_spec(s: Seq<u8>, dest: u8, src: u8) -> Seq<u8> {
    math_op_spec(s, dest, carry_sum(s, !reg(s, dest), reg(s, src)))
}

/// The two's-complement negation of a byte.
pub open spec fn neg8(v: u8) -> u8 {
    ((256 - v) % 256) as u8
}

/// `neg`: 0 - src into dest, with the logic-flag update only.
pub open spec fn neg_spec(s: Seq<u8>, dest: u8, src: u8) -> Seq<u8> {
    logic_op_spec(s, dest, neg8(reg(s, src)))
}

/// `shl`/`shr`: shift dest by the amount in the src register; no flags.
pub open spec fn shl_spec(s: Seq<u8>, dest: u8, src: u8) -> Seq<u8> {
    with_reg(s, dest, shl8(reg(s, dest), reg(s, src)))
}

/// See `shl_spec`.
pub open spec fn shr_spec(s: Seq<u8>, dest: u8, src: u8) -> Seq<u8> {
    with_reg(s, dest, shr8(reg(s, dest), reg(s, src)))
}

/// `shlimm`/`shrimm`: shift dest by the src nibble as an immediate.
pub open spec fn shlimm_spec(s: Seq<u8>, dest: u8, imm: u8) -> Seq<u8> {
    with_reg(s, dest, shl8(reg(s, dest), imm))
}

/// See `shlimm_spec`.
pub open spec fn shrimm_spec(s: Seq<u8>, dest: u8, imm: u8) -> Seq<u8> {
    with_reg(s, dest, shr8(reg(s, dest), imm))
}

/// `inc`: dest + immediate, with the arithmetic-flag update.
pub open spec fn inc_spec(s: Seq<u8>, dest: u8, imm: u8) -> Seq<u8> {
    math_op_spec(s, dest, (reg(s, dest) + imm) as u16)
}

/// `dec`: dest - immediate via !imm + 1, with the arithmetic-flag update.
pub open spec fn dec_spec(s: Seq<u8>, dest: u8, imm: u8) -> Seq<u8> {
    math_op_spec(s, dest, (reg(s, dest) + !imm + 1) as u16)
}

/// `set`: set every flag under `arg`.
pub open spec fn set_spec(s: Seq<u8>, arg: u8) -> Seq<u8> {
    with_flags_set(s, arg)
}

/// `clear`: clear every flag under `arg`.
pub open spec fn clear_spec(s: Seq<u8>, arg: u8) -> Seq<u8> {
    with_flags_cleared(s, arg)
}

// ---------------------------------------------------------------------------
// Dispatch and the fetch-decode-execute step.

/// The machine state after executing the instruction selected by `op`,
/// with operands already fetched into the scratch registers.
pub open spec fn instr_spec(s: Seq<u8>, m: Seq<u8>, w: bool, op: u8) -> (Seq<u8>, Seq<u8>) {
    let arg = reg(s, A0);
    let dest = dest_of(arg);
    let src = src_of(arg);
    let sel = sel_of(op);
    if sel == 0x00 {
        (s, m)
    } else if sel == 0x01 {
        (cmp_spec(s, dest, src), m)
    } else if sel == 0x02 {
        (any_spec(s, arg), m)
    } else if sel == 0x03 {
        (all_spec(s, arg), m)
    } else if sel == 0x04 {
        (swap_spec(s, dest, src), m)
    } else if sel == 0x05 {
        (rev_spec(s, dest, src), m)
    } else if sel == 0x06 {
        (zeros_spec(s, dest, src), m)
    } else if sel == 0x07 {
        (ones_spec(s, dest, src), m)
    } else if sel == 0x08 {
        (mov_spec(s, dest, src), m)
    } else if sel == 0x09 {
        (mov16_spec(s, dest, src), m)
    } else if sel == 0x0A {
        call_spec(s, dest, src, m, w)
    } else if sel == 0x0B {
        (ret_spec(s, dest, m), m)
    } else if sel == 0x0C {
        (load_spec(s, dest, src, m), m)
    } else if sel == 0x0D {
        (s, store_spec(s, dest, src, m, w))
    } else if sel == 0x0E {
        push_spec(s, src, m, w)
    } else if sel == 0x0F {
        (pop_spec(s, dest, m), m)
    } else if sel == 0x10 {
        (logic_op_spec(s, dest, reg(s, dest) & reg(s, src)), m)
    } else if sel == 0x11 {
        (logic_op_spec(s, dest, reg(s, dest) | reg(s, src)), m)
    } else if sel == 0x12 {
        (logic_op_spec(s, dest, reg(s, dest) ^ reg(s, src)), m)
    } else if sel == 0x13 {
        (logic_op_spec(s, dest, !reg(s, src)), m)
    } else if sel == 0x14 {
        (add_spec(s, dest, src), m)
    } else if sel == 0x15 {
        (sub_spec(s, dest, src), m)
    } else if sel == 0x16 {
        (rsub_spec(s, dest, src), m)
    } else if sel == 0x17 {
        (neg_spec(s, dest, src), m)
    } else if sel == 0x18 {
        (shl_spec(s, dest, src), m)
    } else if sel == 0x19 {
        (shr_spec(s, dest, src), m)
    } else if sel == 0x1A {
        (shlimm_spec(s, dest, src), m)
    } else if sel == 0x1B {
        (shrimm_spec(s, dest, src), m)
    } else if sel == 0x1C {
        (inc_spec(s, dest, src), m)
    } else if sel == 0x1D {
        (dec_spec(s, dest, src), m)
    } else if sel == 0x1E {
        (set_spec(s, arg), m)
    } else {
        (clear_spec(s, arg), m)
    }
}

/// The byte the next fetch yields: the bus byte at PC.
pub open spec fn fetched_byte(s: Seq<u8>, m: Seq<u8>) -> u8 {
    bus_read(m, pair(s, PC))
}

/// The register file after one fetch: PC advanced by 1, wrapping.
pub open spec fn after_fetch(s: Seq<u8>) -> Seq<u8> {
    with_pair(s, PC, add16(pair(s, PC), 1))
}

/// The register file after the opcode fetch and, if the opcode declares at
/// least one operand, the fetch of the first operand byte into A0.
pub open spec fn regs_after_one_operand(s: Seq<u8>, m: Seq<u8>) -> Seq<u8> {
    let op = fetched_byte(s, m);
    let s1 = after_fetch(s);
    if argc_of(op) >= 1 {
        with_reg(after_fetch(s1), A0, fetched_byte(s1, m))
    } else {
        s1
    }
}

/// The register file after additionally fetching the second operand byte
/// into A1, where the opcode declares one.
pub open spec fn regs_after_two_operands(s: Seq<u8>, m: Seq<u8>) -> Seq<u8> {
    let op = fetched_byte(s, m);
    let s2 = regs_after_one_operand(s, m);
    if argc_of(op) >= 2 {
        with_reg(after_fetch(s2), A1, fetched_byte(s2, m))
    } else {
        s2
    }
}

/// The register file after the whole fetch phase of one step: the opcode
/// byte is consumed, and its operand bytes are consumed into A0, A1, A2 in
/// order. Scratch registers beyond the operand count keep their old
/// contents.
pub open spec fn regs_after_operands(s: Seq<u8>, m: Seq<u8>) -> Seq<u8> {
    let op = fetched_byte(s, m);
    let s3 = regs_after_two_operands(s, m);
    if argc_of(op) >= 3 {
        with_reg(after_fetch(s3), A2, fetched_byte(s3, m))
    } else {
        s3
    }
}

/// One step of the fetch-decode-execute cycle. A halted machine idles.
/// Otherwise the opcode and its operands are fetched (PC advancing past
/// them), and the instruction executes unless it is predicated and COND
/// is clear.
pub open spec fn step_spec(s: Seq<u8>, m: Seq<u8>, w: bool) -> (Seq<u8>, Seq<u8>) {
    if flag_on(s, HALT) {
        (s, m)
    } else {
        let op = fetched_byte(s, m);
        let s4 = regs_after_operands(s, m);
        if pred_of(op) == 0 || flag_on(s4, COND) {
            instr_spec(s4, m, w, op)
        } else {
            (s4, m)
        }
    }
}

// ---------------------------------------------------------------------------
// Facts about flag masks and bit extraction that the interpreter and the
// laws lean on.

/// Setting the flags under `m` leaves every one of them set.
pub proof fn lemma_mask_set(f: u8, m: u8)
    ensures
        (f | m) & m == m,
{
    assert((f | m) & m == m) by (bit_vector);
}

/// Clearing the flags under `m` leaves none of them set.
pub proof fn lemma_mask_clear(f: u8, m: u8)
    ensures
        (f & !m) & m == 0,
{
    assert((f & !m) & m == 0) by (bit_vector);
}

/// The decoded fields of an opcode stay in their ranges: at most 3 operand
/// bytes, a 1-bit predicate, a 5-bit selector.
pub proof fn lemma_decode_bounds(op: u8)
    ensures
        argc_of(op) <= 3,
        pred_of(op) <= 1,
        sel_of(op) <= 31,
{
    assert((op >> 6) <= 3 && ((op >> 5) & 1) <= 1 && (op & 0x1F) <= 31) by (bit_vector);
}

/// The two nibbles of an operand byte are register indices below 16.
pub proof fn lemma_nibble_bounds(a: u8)
    ensures
        a >> 4 <= 15,
        a & 0xF <= 15,
{
    assert((a >> 4) <= 15 && (a & 0xF) <= 15) by (bit_vector);
}

/// A byte's bitwise complement is its difference from 255.
pub proof fn lemma_not_byte(b: u8)
    ensures
        !b == 255 - b,
{
    assert(!b == 255 - b) by (bit_vector);
}

/// Each single extracted bit of a byte is 0 or 1.
pub proof fn lemma_bit_terms(b: u8)
    ensures
        b & 1 <= 1,
        (b >> 1) & 1 <= 1,
        (b >> 2) & 1 <= 1,
        (b >> 3) & 1 <= 1,
        (b >> 4) & 1 <= 1,
        (b >> 5) & 1 <= 1,
        (b >> 6) & 1 <= 1,
        (b >> 7) & 1 <= 1,
{
    assert(b & 1 <= 1 && (b >> 1) & 1 <= 1 && (b >> 2) & 1 <= 1 && (b >> 3) & 1 <= 1 && (b >> 4)
        & 1 <= 1 && (b >> 5) & 1 <= 1 && (b >> 6) & 1 <= 1 && (b >> 7) & 1 <= 1) by (bit_vector);
}

/// `n` steps of the cycle in sequence.
pub open spec fn steps_spec(n: nat, s: Seq<u8>, m: Seq<u8>, w: bool) -> (Seq<u8>, Seq<u8>)
    decreases n,
{
    if n == 0 {
        (s, m)
    } else {
        let p = step_spec(s, m, w);
        steps_spec((n - 1) as nat, p.0, p.1, w)
    }
}

} // verus!
