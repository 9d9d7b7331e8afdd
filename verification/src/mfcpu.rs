//! The Melo fantasy CPU: 16 byte-registers with fixed structural roles, a
//! packed flag byte, and a fetch-decode-execute cycle over a borrowed bus.
//!
//! Every public operation is specified against the machine model in `isa`:
//! the register file is viewed as a 16-byte sequence, and `tick` performs
//! exactly one `step_spec` transition.

use vstd::prelude::*;
use crate::addressing::Addressable;
use crate::isa::{
    PC, SP, FLAG, A0, A1, A2, COND, HALT, GT, EQ, LT, NEG, ZERO, CARRY, reg, with_reg, pair,
    with_pair, flag_byte, flag_on, with_flags_set, with_flags_cleared, add8, sub8, add16, sub16,
    logic_flags, math_flags, lemma_mask_set, lemma_mask_clear,
    lemma_bit_terms, cmp_spec, any_spec, all_spec, swap_spec, rev_spec, zeros_spec, ones_spec,
    mov_spec, mov16_spec, call_spec, ret_spec, load_spec, store_spec, push_spec, pop_spec,
    logic_op_spec, add_spec, sub_spec, rsub_spec, neg_spec, shl_spec, shr_spec, shlimm_spec,
    shrimm_spec, inc_spec, dec_spec, set_spec, clear_spec, instr_spec, fetched_byte, after_fetch,
    step_spec,
};

verus! {

/// Splits a byte into its high and low nibbles.
pub fn nibs(b: u8) -> (r: (u8, u8))
    ensures
        r.0 == b >> 4,
        r.1 == b & 0xF,
{
    (b >> 4, b & 0xF)
}

/// The CPU state: a plain, freely copyable value holding the 16 byte
/// registers (which include PC, SP, the flag byte and the scratch
/// registers, per the structural roles in `isa`).
#[derive(PartialEq, Eq, Clone, Copy, Hash, Debug)]
pub struct MeloCpu {
    regs: [u8; 16],
}

impl View for MeloCpu {
    type V = Seq<u8>;

    closed spec fn view(&self) -> Seq<u8> {
        self.regs@
    }
}

impl MeloCpu {
    /// The register file always holds exactly 16 bytes.
    pub proof fn view_len(&self)
        ensures
            self@.len() == 16,
    {
    }

    /// A zero-initialized CPU.
    pub fn new() -> (c: MeloCpu)
        ensures
            c@.len() == 16,
            forall|i: int| 0 <= i < 16 ==> c@[i] == 0,
    {
        MeloCpu { regs: [0; 16] }
    }

    /// A zero-initialized CPU.
    pub fn zero() -> (c: MeloCpu)
        ensures
            c@.len() == 16,
            forall|i: int| 0 <= i < 16 ==> c@[i] == 0,
    {
        MeloCpu { regs: [0; 16] }
    }

    /// A CPU with every register randomized, then forced into a runnable
    /// state: PC = 0 and HALT cleared.
    pub fn rand() -> (c: MeloCpu)
        ensures
            c@.len() == 16,
            pair(c@, PC) == 0,
            !flag_on(c@, HALT),
    {
        let mut c = MeloCpu { regs: crate::random_bytes() };
        c.reset();
        c
    }

    /// Forces PC to 0 and clears HALT, leaving all other state alone.
    pub fn reset(&mut self)
        ensures
            final(self)@ == with_flags_cleared(with_pair(old(self)@, PC, 0), HALT),
            pair(final(self)@, PC) == 0,
            !flag_on(final(self)@, HALT),
    {
        self.set_le_reg(PC, 0);
        self.clear_flag(HALT);
        proof {
            lemma_mask_clear(flag_byte(with_pair(old(self)@, PC, 0)), HALT);
        }
    }

    /// Sets the HALT flag: the cycle idles until it is cleared again.
    pub fn halt(&mut self)
        ensures
            final(self)@ == with_flags_set(old(self)@, HALT),
            flag_on(final(self)@, HALT),
    {
        self.set_flag(HALT);
        proof {
            lemma_mask_set(flag_byte(old(self)@), HALT);
        }
    }

    /// Clears the HALT flag.
    pub fn clear_halt(&mut self)
        ensures
            final(self)@ == with_flags_cleared(old(self)@, HALT),
            !flag_on(final(self)@, HALT),
    {
        self.clear_flag(HALT);
        proof {
            lemma_mask_clear(flag_byte(old(self)@), HALT);
        }
    }

    /// Whether the CPU is halted.
    pub fn is_halted(&mut self) -> (r: bool)
        ensures
            *final(self) == *old(self),
            r == flag_on(old(self)@, HALT),
    {
        self.get_flag(HALT) != 0
    }

    /// Reads a byte register; the index is masked into 0..16.
    pub fn get_reg(&self, idx: u8) -> (r: u8)
        ensures
            r == reg(self@, idx),
    {
        let i: usize = (idx as usize) % 16;
        self.regs[i]
    }

    /// Writes a byte register; the index is masked into 0..16.
    pub fn set_reg(&mut self, idx: u8, val: u8)
        ensures
            final(self)@ == with_reg(old(self)@, idx, val),
    {
        let i: usize = (idx as usize) % 16;
        self.regs[i] = val;
    }

    /// Adds to a byte register, wrapping modulo 256.
    pub fn inc_reg(&mut self, idx: u8, amt: u8)
        ensures
            final(self)@ == with_reg(old(self)@, idx, add8(reg(old(self)@, idx), amt)),
    {
        let v = self.get_reg(idx).wrapping_add(amt);
        self.set_reg(idx, v);
    }

    /// Subtracts from a byte register, wrapping modulo 256.
    pub fn dec_reg(&mut self, idx: u8, amt: u8)
        ensures
            final(self)@ == with_reg(old(self)@, idx, sub8(reg(old(self)@, idx), amt)),
    {
        let v = self.get_reg(idx).wrapping_sub(amt);
        self.set_reg(idx, v);
    }

    /// Reads a register pair as a little-endian 16-bit value; the index is
    /// masked into 0..16 and aligned down to even.
    pub fn get_le_reg(&self, idx: u8) -> (r: u16)
        ensures
            r == pair(self@, idx),
    {
        let p: usize = (idx as usize) % 16 / 2 * 2;
        let lo = self.regs[p];
        let hi = self.regs[p + 1];
        (lo as u16) + (hi as u16) * 256
    }

    /// Writes a register pair as a little-endian 16-bit value.
    pub fn set_le_reg(&mut self, idx: u8, val: u16)
        ensures
            final(self)@ == with_pair(old(self)@, idx, val),
    {
        let p: usize = (idx as usize) % 16 / 2 * 2;
        self.regs[p] = (val % 256) as u8;
        self.regs[p + 1] = (val / 256) as u8;
    }

    /// Adds to a register pair, wrapping modulo 65536.
    pub fn inc_le_reg(&mut self, idx: u8, amt: u16)
        ensures
            final(self)@ == with_pair(old(self)@, idx, add16(pair(old(self)@, idx), amt)),
    {
        let v = self.get_le_reg(idx).wrapping_add(amt);
        self.set_le_reg(idx, v);
    }

    /// Subtracts from a register pair, wrapping modulo 65536.
    pub fn dec_le_reg(&mut self, idx: u8, amt: u16)
        ensures
            final(self)@ == with_pair(old(self)@, idx, sub16(pair(old(self)@, idx), amt)),
    {
        let v = self.get_le_reg(idx).wrapping_sub(amt);
        self.set_le_reg(idx, v);
    }

    /// The flag byte masked by `flag`.
    pub fn get_flag(&mut self, flag: u8) -> (r: u8)
        ensures
            *final(self) == *old(self),
            r == flag_byte(old(self)@) & flag,
    {
        self.get_reg(FLAG) & flag
    }

    /// Sets every flag under `flag`.
    pub fn set_flag(&mut self, flag: u8)
        ensures
            final(self)@ == with_flags_set(old(self)@, flag),
    {
        let f = self.get_reg(FLAG) | flag;
        self.set_reg(FLAG, f);
    }

    /// Clears every flag under `flag`.
    pub fn clear_flag(&mut self, flag: u8)
        ensures
            final(self)@ == with_flags_cleared(old(self)@, flag),
    {
        let f = self.get_reg(FLAG) & !flag;
        self.set_reg(FLAG, f);
    }

    /// Fetches one byte at PC and advances PC past it, wrapping.
    fn fetch<B: Addressable>(&mut self, bus: &B) -> (r: u8)
        ensures
            r == fetched_byte(old(self)@, bus.mem()),
            final(self)@ == after_fetch(old(self)@),
    {
        let pc = self.get_le_reg(PC);
        let byte = bus.read_byte(pc);
        self.inc_le_reg(PC, 1);
        byte
    }

    /// NEG, ZERO and CARRY from a 9-bit arithmetic intermediate.
    fn update_math_flags(&mut self, val: u16)
        ensures
            final(self)@ == math_flags(old(self)@, val),
    {
        if val % 256 >= 128 {
            self.set_flag(NEG)
        } else {
            self.clear_flag(NEG)
        }
        if val % 256 == 0 {
            self.set_flag(ZERO)
        } else {
            self.clear_flag(ZERO)
        }
        if val > 255 {
            self.set_flag(CARRY)
        } else {
            self.clear_flag(CARRY)
        }
    }

    /// NEG and ZERO from an 8-bit logic result; CARRY untouched.
    fn update_logic_flags(&mut self, val: u8)
        ensures
            final(self)@ == logic_flags(old(self)@, val),
    {
        if val >= 128 {
            self.set_flag(NEG)
        } else {
            self.clear_flag(NEG)
        }
        if val == 0 {
            self.set_flag(ZERO)
        } else {
            self.clear_flag(ZERO)
        }
    }

    /// One step of the fetch-decode-execute cycle against the given bus.
    pub fn tick<B: Addressable>(&mut self, bus: &mut B)
        ensures
            final(self)@ == step_spec(old(self)@, old(bus).mem(), old(bus).writable()).0,
            final(bus).mem() == step_spec(old(self)@, old(bus).mem(), old(bus).writable()).1,
            final(bus).writable() == old(bus).writable(),
    {
        if self.get_flag(HALT) != 0 {
            return ;
        }
        let opcode = self.fetch(bus);
        let argc = opcode >> 6;
        let cond = (opcode >> 5) & 1;

        if argc >= 1 {
            let b = self.fetch(bus);
            self.set_reg(A0, b)
        }
        if argc >= 2 {
            let b = self.fetch(bus);
            self.set_reg(A1, b)
        }
        if argc >= 3 {
            let b = self.fetch(bus);
            self.set_reg(A2, b)
        }
        if cond == 0 || self.get_flag(COND) != 0 {
            self.execute(opcode, bus)
        }
    }

    /// Dispatches on the selector bits of `opcode`; the operand nibbles come
    /// from the A0 scratch register.
    fn execute<B: Addressable>(&mut self, opcode: u8, bus: &mut B)
        ensures
            final(self)@ == instr_spec(
                old(self)@,
                old(bus).mem(),
                old(bus).writable(),
                opcode,
            ).0,
            final(bus).mem() == instr_spec(
                old(self)@,
                old(bus).mem(),
                old(bus).writable(),
                opcode,
            ).1,
            final(bus).writable() == old(bus).writable(),
    {
        let arg = self.get_reg(A0);
        let (dest, src) = nibs(arg);
        match opcode & 0x1F {
            0x00 => self.nop(),
            0x01 => self.cmp(dest, src),
            0x02 => self.any(arg),
            0x03 => self.all(arg),
            0x04 => self.swap(dest, src),
            0x05 => self.rev(dest, src),
            0x06 => self.zeros(dest, src),
            0x07 => self.ones(dest, src),
            0x08 => self.mov(dest, src),
            0x09 => self.mov16(dest, src),
            0x0A => self.call(dest, src, bus),
            0x0B => self.ret(dest, bus),
            0x0C => self.load(dest, src, bus),
            0x0D => self.store(dest, src, bus),
            0x0E => self.push(src, bus),
            0x0F => self.pop(dest, bus),
            0x10 => self.and(dest, src),
            0x11 => self.or(dest, src),
            0x12 => self.xor(dest, src),
            0x13 => self.not(dest, src),
            0x14 => self.add(dest, src),
            0x15 => self.sub(dest, src),
            0x16 => self.rsub(dest, src),
            0x17 => self.neg(dest, src),
            0x18 => self.shl(dest, src),
            0x19 => self.shr(dest, src),
            0x1A => self.shlimm(dest, src),
            0x1B => self.shrimm(dest, src),
            0x1C => self.inc(dest, src),
            0x1D => self.dec(dest, src),
            0x1E => self.set(arg),
            _ => self.clear(arg),
        }
    }

    fn nop(&self) {
    }

    fn cmp(&mut self, dest: u8, src: u8)
        ensures
            final(self)@ == cmp_spec(old(self)@, dest, src),
    {
        let lhs = self.get_reg(dest);
        let rhs = self.get_reg(src);
        if lhs > rhs {
            self.set_flag(GT)
        } else {
            self.clear_flag(GT)
        }
        if lhs == rhs {
            self.set_flag(EQ)
        } else {
            self.clear_flag(EQ)
        }
        if lhs < rhs {
            self.set_flag(LT)
        } else {
            self.clear_flag(LT)
        }
        self.update_logic_flags(rhs);
    }

    fn any(&mut self, arg: u8)
        ensures
            final(self)@ == any_spec(old(self)@, arg),
    {
        if self.get_flag(arg) != 0 {
            self.set_flag(COND);
        } else {
            self.clear_flag(COND);
        }
    }

    fn all(&mut self, arg: u8)
        ensures
            final(self)@ == all_spec(old(self)@, arg),
    {
        if self.get_flag(arg) == arg {
            self.set_flag(COND);
        } else {
            self.clear_flag(COND);
        }
    }

    fn swap(&mut self, dest: u8, src: u8)
        ensures
            final(self)@ == swap_spec(old(self)@, dest, src),
    {
        let lhs = self.get_reg(dest);
        let rhs = self.get_reg(src);
        self.set_reg(dest, rhs);
        self.set_reg(src, lhs);
    }

    fn rev(&mut self, dest: u8, src: u8)
        ensures
            final(self)@ == rev_spec(old(self)@, dest, src),
    {
        let b = self.get_reg(src);
        let val = ((b >> 7) & 1) | (((b >> 6) & 1) << 1) | (((b >> 5) & 1) << 2) | (((b >> 4) & 1)
            << 3) | (((b >> 3) & 1) << 4) | (((b >> 2) & 1) << 5) | (((b >> 1) & 1) << 6) | ((b
            & 1) << 7);
        self.set_reg(dest, val);
    }

    fn zeros(&mut self, dest: u8, src: u8)
        ensures
            final(self)@ == zeros_spec(old(self)@, dest, src),
    {
        let b = !self.get_reg(src);
        proof {
            lemma_bit_terms(b);
        }
        let val = (b & 1) + ((b >> 1) & 1) + ((b >> 2) & 1) + ((b >> 3) & 1) + ((b >> 4) & 1) + ((b
            >> 5) & 1) + ((b >> 6) & 1) + ((b >> 7) & 1);
        self.set_reg(dest, val);
    }

    fn ones(&mut self, dest: u8, src: u8)
        ensures
            final(self)@ == ones_spec(old(self)@, dest, src),
    {
        let b = self.get_reg(src);
        proof {
            lemma_bit_terms(b);
        }
        let val = (b & 1) + ((b >> 1) & 1) + ((b >> 2) & 1) + ((b >> 3) & 1) + ((b >> 4) & 1) + ((b
            >> 5) & 1) + ((b >> 6) & 1) + ((b >> 7) & 1);
        self.set_reg(dest, val);
    }

    fn mov(&mut self, dest: u8, src: u8)
        ensures
            final(self)@ == mov_spec(old(self)@, dest, src),
    {
        let v = self.get_reg(src);
        self.set_reg(dest, v);
    }

    fn mov16(&mut self, dest: u8, src: u8)
        ensures
            final(self)@ == mov16_spec(old(self)@, dest, src),
    {
        let v = self.get_le_reg(src);
        self.set_le_reg(dest, v);
    }

    fn call<B: Addressable>(&mut self, dest: u8, src: u8, bus: &mut B)
        ensures
            final(self)@ == call_spec(
                old(self)@,
                dest,
                src,
                old(bus).mem(),
                old(bus).writable(),
            ).0,
            final(bus).mem() == call_spec(
                old(self)@,
                dest,
                src,
                old(bus).mem(),
                old(bus).writable(),
            ).1,
            final(bus).writable() == old(bus).writable(),
    {
        let ret = self.get_le_reg(dest);
        let sp = self.get_le_reg(SP);
        bus.write_le_word(sp, ret);
        self.inc_le_reg(SP, 2);
        let target = self.get_le_reg(src);
        self.set_le_reg(dest, target);
    }

    fn ret<B: Addressable>(&mut self, dest: u8, bus: &B)
        ensures
            final(self)@ == ret_spec(old(self)@, dest, bus.mem()),
    {
        self.dec_le_reg(SP, 2);
        let sp = self.get_le_reg(SP);
        let ret = bus.read_le_word(sp);
        self.set_le_reg(dest, ret);
    }

    fn load<B: Addressable>(&mut self, dest: u8, src: u8, bus: &B)
        ensures
            final(self)@ == load_spec(old(self)@, dest, src, bus.mem()),
    {
        let addr = self.get_le_reg(src);
        let byte = bus.read_byte(addr);
        self.set_reg(dest, byte);
    }

    fn store<B: Addressable>(&mut self, dest: u8, src: u8, bus: &mut B)
        ensures
            *final(self) == *old(self),
            final(bus).mem() == store_spec(
                old(self)@,
                dest,
                src,
                old(bus).mem(),
                old(bus).writable(),
            ),
            final(bus).writable() == old(bus).writable(),
    {
        let byte = self.get_reg(src);
        let addr = self.get_le_reg(dest);
        bus.write_byte(addr, byte);
    }

    fn push<B: Addressable>(&mut self, src: u8, bus: &mut B)
        ensures
            final(self)@ == push_spec(old(self)@, src, old(bus).mem(), old(bus).writable()).0,
            final(bus).mem() == push_spec(
                old(self)@,
                src,
                old(bus).mem(),
                old(bus).writable(),
            ).1,
            final(bus).writable() == old(bus).writable(),
    {
        let byte = self.get_reg(src);
        let sp = self.get_le_reg(SP);
        bus.write_byte(sp, byte);
        self.inc_le_reg(SP, 1);
    }

    fn pop<B: Addressable>(&mut self, dest: u8, bus: &B)
        ensures
            final(self)@ == pop_spec(old(self)@, dest, bus.mem()),
    {
        self.dec_le_reg(SP, 1);
        let sp = self.get_le_reg(SP);
        let byte = bus.read_byte(sp);
        self.set_reg(dest, byte);
    }

    fn and(&mut self, dest: u8, src: u8)
        ensures
            final(self)@ == logic_op_spec(
                old(self)@,
                dest,
                reg(old(self)@, dest) & reg(old(self)@, src),
            ),
    {
        let val = self.get_reg(dest) & self.get_reg(src);
        self.update_logic_flags(val);
        self.set_reg(dest, val);
    }

    fn or(&mut self, dest: u8, src: u8)
        ensures
            final(self)@ == logic_op_spec(
                old(self)@,
                dest,
                reg(old(self)@, dest) | reg(old(self)@, src),
            ),
    {
        let val = self.get_reg(dest) | self.get_reg(src);
        self.update_logic_flags(val);
        self.set_reg(dest, val);
    }

    fn xor(&mut self, dest: u8, src: u8)
        ensures
            final(self)@ == logic_op_spec(
                old(self)@,
                dest,
                reg(old(self)@, dest) ^ reg(old(self)@, src),
            ),
    {
        let val = self.get_reg(dest) ^ self.get_reg(src);
        self.update_logic_flags(val);
        self.set_reg(dest, val);
    }

    fn not(&mut self, dest: u8, src: u8)
        ensures
            final(self)@ == logic_op_spec(old(self)@, dest, !reg(old(self)@, src)),
    {
        let val = !self.get_reg(src);
        self.update_logic_flags(val);
        self.set_reg(dest, val);
    }

    fn add(&mut self, dest: u8, src: u8)
        ensures
            final(self)@ == add_spec(old(self)@, dest, src),
    {
        let lhs = self.get_reg(dest);
        let rhs = self.get_reg(src);
        let carry = self.get_flag(CARRY);
        let sum = lhs as u16 + rhs as u16 + carry as u16;
        self.update_math_flags(sum);
        self.set_reg(dest, (sum % 256) as u8);
    }

    fn sub(&mut self, dest: u8, src: u8)
        ensures
            final(self)@ == sub_spec(old(self)@, dest, src),
    {
        let lhs = self.get_reg(dest);
        let rhs = !self.get_reg(src);
        let carry = self.get_flag(CARRY);
        let sum = lhs as u16 + rhs as u16 + carry as u16;
        self.update_math_flags(sum);
        self.set_reg(dest, (sum % 256) as u8);
    }

    fn rsub(&mut self, dest: u8, src: u8)
        ensures
            final(self)@ == rsub_spec(old(self)@, dest, src),
    {
        let lhs = !self.get_reg(dest);
        let rhs = self.get_reg(src);
        let carry = self.get_flag(CARRY);
        let sum = lhs as u16 + rhs as u16 + carry as u16;
        self.update_math_flags(sum);
        self.set_reg(dest, (sum % 256) as u8);
    }

    fn neg(&mut self, dest: u8, src: u8)
        ensures
            final(self)@ == neg_spec(old(self)@, dest, src),
    {
        let v = self.get_reg(src);
        let val = 0u8.wrapping_sub(v);
        self.update_logic_flags(val);
        self.set_reg(dest, val);
    }

    fn shl(&mut self, dest: u8, src: u8)
        ensures
            final(self)@ == shl_spec(old(self)@, dest, src),
    {
        let lhs = self.get_reg(dest);
        let rhs = self.get_reg(src);
        let val = if rhs >= 8 {
            0
        } else {
            lhs << rhs
        };
        self.set_reg(dest, val);
    }

    fn shr(&mut self, dest: u8, src: u8)
        ensures
            final(self)@ == shr_spec(old(self)@, dest, src),
    {
        let lhs = self.get_reg(dest);
        let rhs = self.get_reg(src);
        let val = if rhs >= 8 {
            0
        } else {
            lhs >> rhs
        };
        self.set_reg(dest, val);
    }

    fn shlimm(&mut self, dest: u8, src: u8)
        ensures
            final(self)@ == shlimm_spec(old(self)@, dest, src),
    {
        let lhs = self.get_reg(dest);
        let val = if src >= 8 {
            0
        } else {
            lhs << src
        };
        self.set_reg(dest, val);
    }

    fn shrimm(&mut self, dest: u8, src: u8)
        ensures
            final(self)@ == shrimm_spec(old(self)@, dest, src),
    {
        let lhs = self.get_reg(dest);
        let val = if src >= 8 {
            0
        } else {
            lhs >> src
        };
        self.set_reg(dest, val);
    }

    fn inc(&mut self, dest: u8, src: u8)
        ensures
            final(self)@ == inc_spec(old(self)@, dest, src),
    {
        let lhs = self.get_reg(dest);
        let sum = lhs as u16 + src as u16;
        self.update_math_flags(sum);
        self.set_reg(dest, (sum % 256) as u8);
    }

    fn dec(&mut self, dest: u8, src: u8)
        ensures
            final(self)@ == dec_spec(old(self)@, dest, src),
    {
        let lhs = self.get_reg(dest);
        let sum = lhs as u16 + (!src) as u16 + 1;
        self.update_math_flags(sum);
        self.set_reg(dest, (sum % 256) as u8);
    }

    fn set(&mut self, arg: u8)
        ensures
            final(self)@ == set_spec(old(self)@, arg),
    {
        self.set_flag(arg);
    }

    fn clear(&mut self, arg: u8)
        ensures
            final(self)@ == clear_spec(old(self)@, arg),
    {
        self.clear_flag(arg);
    }
}

} // verus!
