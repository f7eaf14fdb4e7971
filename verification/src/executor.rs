//! Fetching, decoding and executing instructions.

use crate::chip8::Chip8;
use crate::config::{
    FONT_START, GLYPH_SIZE, NUM_KEYS, NUM_PIXELS, RAM_SIZE, REGISTER_COUNT, STACK_SIZE,
};
use crate::random::random_byte;
use crate::semantics::{
    alu_flag, alu_value, bcd_len, blank_screen, can_fetch, dispatch, exec_alu, exec_bcd,
    exec_call, exec_load, exec_misc, exec_store, exec_system, executable, execute, fault_of,
    fetched, first_released, lemma_fault_ignores_pc, low8, next_fault, next_word, out_of_memory,
    recognised, repaints, settled,
};
use crate::state::{op_class, op_kk, op_n, op_nnn, op_x, op_y, DisplayPixel, Fault, KeyState};
use vstd::prelude::*;

verus! {

/// The fields of an instruction word.
pub(crate) struct Operands {
    pub class: u8,
    pub x: usize,
    pub y: usize,
    pub n: u8,
    pub kk: u8,
    pub nnn: u16,
}

/// The fields of an instruction word, cut out with masks and shifts, are
/// its quotients and remainders by powers of sixteen.
proof fn lemma_operands(instr: u16)
    by (bit_vector)
    ensures
        instr >> 12 == instr / 0x1000,
        (instr & 0x0F00) >> 8 == (instr / 0x100) % 16,
        (instr & 0x00F0) >> 4 == (instr / 0x10) % 16,
        instr & 0x000F == instr % 16,
        instr & 0x00FF == instr % 0x100,
        instr & 0x0FFF == instr % 0x1000,
{
}

/// Shifts and masks of a byte as quotients and remainders.
proof fn lemma_shifts(v: u8)
    by (bit_vector)
    ensures
        v >> 1 == v / 2,
        v & 1 == v % 2,
        v >> 7 == v / 128,
        v & 0xF == v % 16,
        v & 31 == v % 32,
{
}

/// A left shift of a byte doubles it and drops the bit shifted out.
proof fn lemma_shift_left(v: u8)
    by (bit_vector)
    ensures
        v < 128 ==> v << 1 == v * 2,
        v >= 128 ==> v << 1 == v * 2 - 256,
{
}

/// Splits an instruction word into its fields.
pub(crate) fn decode(instr: u16) -> (f: Operands)
    ensures
        f.class == op_class(instr),
        f.x == op_x(instr),
        f.y == op_y(instr),
        f.n == op_n(instr),
        f.kk == op_kk(instr),
        f.nnn == op_nnn(instr),
        f.class < 16,
        f.x < 16,
        f.y < 16,
        f.n < 16,
        f.nnn < 0x1000,
{
    proof {
        lemma_operands(instr);
    }
    Operands {
        class: (instr >> 12) as u8,
        x: ((instr & 0x0F00) >> 8) as usize,
        y: ((instr & 0x00F0) >> 4) as usize,
        n: (instr & 0x000F) as u8,
        kk: (instr & 0x00FF) as u8,
        nnn: instr & 0x0FFF,
    }
}

/// The sum of two bytes modulo 256, and the carry.
fn add_bytes(a: u8, b: u8) -> (r: (u8, u8))
    ensures
        r.0 == low8(a + b),
        r.1 == if a + b > 255 { 1int } else { 0int },
{
    let carry: u8 = if a as u16 + b as u16 > 255 {
        1
    } else {
        0
    };
    (a.wrapping_add(b), carry)
}

/// The difference of two bytes modulo 256, and 1 if there was no borrow.
fn subtract_bytes(a: u8, b: u8) -> (r: (u8, u8))
    ensures
        r.0 == low8(a - b),
        r.1 == if a >= b { 1int } else { 0int },
{
    let no_borrow: u8 = if a >= b {
        1
    } else {
        0
    };
    (a.wrapping_sub(b), no_borrow)
}

/// A byte shifted right by one bit, and the bit shifted out.
fn shift_right(v: u8) -> (r: (u8, u8))
    ensures
        r.0 == v / 2,
        r.1 == v % 2,
{
    proof {
        lemma_shifts(v);
    }
    (v >> 1, v & 1)
}

/// A byte shifted left by one bit, and the bit shifted out.
fn shift_left(v: u8) -> (r: (u8, u8))
    ensures
        r.0 == low8(v * 2),
        r.1 == v / 128,
{
    proof {
        lemma_shifts(v);
        lemma_shift_left(v);
    }
    (v << 1, v >> 7)
}

/// The result of a register-to-register operation and what it writes to
/// the flag register, given what registers `x` and `y` hold.
fn alu(vx: u8, vy: u8, n: u8, super_chip: bool) -> (r: (u8, Option<u8>))
    requires
        n <= 7 || n == 0xE,
    ensures
        r.0 == alu_value(vx, vy, n as int, super_chip),
        r.1 == alu_flag(vx, vy, n as int, super_chip),
{
    let logic_flag: Option<u8> = if super_chip {
        None
    } else {
        Some(0)
    };
    let operand: u8 = if super_chip {
        vx
    } else {
        vy
    };
    if n == 0 {
        (vy, None)
    } else if n == 1 {
        (vx | vy, logic_flag)
    } else if n == 2 {
        (vx & vy, logic_flag)
    } else if n == 3 {
        (vx ^ vy, logic_flag)
    } else if n == 4 {
        let (value, carry) = add_bytes(vx, vy);
        (value, Some(carry))
    } else if n == 5 {
        let (value, no_borrow) = subtract_bytes(vx, vy);
        (value, Some(no_borrow))
    } else if n == 6 {
        let (value, out) = shift_right(operand);
        (value, Some(out))
    } else if n == 7 {
        let (value, no_borrow) = subtract_bytes(vy, vx);
        (value, Some(no_borrow))
    } else {
        let (value, out) = shift_left(operand);
        (value, Some(out))
    }
}

/// Forgets every release that is still latched.
fn settle_keys(keys: &mut [KeyState; NUM_KEYS])
    ensures
        final(keys)@ == settled(old(keys)@),
{
    let ghost before = keys@;
    let mut k: usize = 0;
    while k < NUM_KEYS
        invariant
            k <= NUM_KEYS,
            before.len() == NUM_KEYS,
            forall|i: int|
                0 <= i < NUM_KEYS ==> keys@[i] == if i < k {
                    settled(before)[i]
                } else {
                    before[i]
                },
        decreases NUM_KEYS - k,
    {
        if keys[k] == KeyState::JustReleased {
            keys[k] = KeyState::Released;
        }
        k += 1;
    }
    assert(keys@ =~= settled(before));
}

/// The first key that was just released, if there is one.
fn released_key(keys: &[KeyState; NUM_KEYS]) -> (key: Option<u8>)
    ensures
        match key {
            Some(k) => first_released(keys@, 0) == k,
            None => first_released(keys@, 0) < 0,
        },
{
    let mut k: usize = 0;
    while k < NUM_KEYS
        invariant
            k <= NUM_KEYS,
            first_released(keys@, 0) == first_released(keys@, k as int),
        decreases NUM_KEYS - k,
    {
        if keys[k] == KeyState::JustReleased {
            return Some(k as u8);
        }
        k += 1;
    }
    None
}

/// Copies registers 0 to `x` to the memory at `base`.
fn store_registers(
    ram: &mut [u8; RAM_SIZE],
    regs: &[u8; REGISTER_COUNT],
    base: usize,
    x: usize,
)
    requires
        x < REGISTER_COUNT,
        base + x < RAM_SIZE,
    ensures
        forall|a: int|
            0 <= a < RAM_SIZE ==> final(ram)@[a] == if base <= a <= base + x {
                regs@[a - base]
            } else {
                old(ram)@[a]
            },
{
    let ghost before = ram@;
    let mut j: usize = 0;
    while j <= x
        invariant
            j <= x + 1,
            x < REGISTER_COUNT,
            base + x < RAM_SIZE,
            forall|a: int|
                0 <= a < RAM_SIZE ==> ram@[a] == if base <= a < base + j {
                    regs@[a - base]
                } else {
                    before[a]
                },
        decreases x + 1 - j,
    {
        ram[base + j] = regs[j];
        j += 1;
    }
}

/// Copies the memory at `base` to registers 0 to `x`.
fn load_registers(
    regs: &mut [u8; REGISTER_COUNT],
    ram: &[u8; RAM_SIZE],
    base: usize,
    x: usize,
)
    requires
        x < REGISTER_COUNT,
        base + x < RAM_SIZE,
    ensures
        forall|j: int|
            0 <= j < REGISTER_COUNT ==> final(regs)@[j] == if j <= x {
                ram@[base + j]
            } else {
                old(regs)@[j]
            },
{
    let ghost before = regs@;
    let mut j: usize = 0;
    while j <= x
        invariant
            j <= x + 1,
            x < REGISTER_COUNT,
            base + x < RAM_SIZE,
            forall|i: int|
                0 <= i < REGISTER_COUNT ==> regs@[i] == if i < j {
                    ram@[base + i]
                } else {
                    before[i]
                },
        decreases x + 1 - j,
    {
        regs[j] = ram[base + j];
        j += 1;
    }
}

impl Chip8 {
    /// Reads the instruction at the program counter and moves the program
    /// counter past it.
    pub fn fetch(&mut self) -> (instr: u16)
        requires
            old(self).wf(),
            can_fetch(old(self)@),
        ensures
            final(self).wf(),
            final(self)@ == fetched(old(self)@),
            instr == next_word(old(self)@),
    {
        let fst: u16 = self.ram[self.pc as usize] as u16;
        self.pc += 1;
        let snd: u16 = self.ram[self.pc as usize] as u16;
        self.pc += 1;
        assert((fst << 8) | snd == fst * 256 + snd) by (bit_vector)
            requires
                fst < 256,
                snd < 256,
        ;
        (fst << 8) | snd
    }

    /// Class 0: clears the screen, or returns from a subroutine.
    fn op_system(&mut self, instr: u16, kk: u8)
        requires
            old(self).wf(),
            kk == op_kk(instr),
            kk == 0xE0 || old(self)@.sp > 0,
        ensures
            final(self).wf(),
            final(self)@ == exec_system(old(self)@, instr),
    {
        if kk == 0xE0 {
            self.framebuffer = [DisplayPixel(0); NUM_PIXELS];
            assert(self@.screen =~= blank_screen());
        } else {
            self.stack_ptr -= 1;
            self.pc = self.stack[self.stack_ptr];
            self.stack[self.stack_ptr] = 0;
        }
    }

    /// Class 2: calls the subroutine at `nnn`.
    fn op_call(&mut self, instr: u16, nnn: u16)
        requires
            old(self).wf(),
            nnn == op_nnn(instr),
            old(self)@.sp < STACK_SIZE,
        ensures
            final(self).wf(),
            final(self)@ == exec_call(old(self)@, instr),
    {
        self.stack[self.stack_ptr] = self.pc;
        self.stack_ptr += 1;
        self.pc = nnn;
    }

    /// Skips the next instruction if `cond` holds.
    fn op_skip(&mut self, cond: bool)
        requires
            old(self).wf(),
            old(self)@.pc <= RAM_SIZE,
        ensures
            final(self).wf(),
            final(self)@ == old(self)@.skip_if(cond),
    {
        if cond {
            self.pc += 2;
        }
    }

    /// Writes register `x`.
    fn set_reg(&mut self, x: usize, v: u8)
        requires
            old(self).wf(),
            x < REGISTER_COUNT,
        ensures
            final(self).wf(),
            final(self)@ == old(self)@.with_reg(x as int, v),
    {
        self.registers[x] = v;
    }

    /// Class 8: register-to-register operations.
    fn op_alu(&mut self, x: usize, y: usize, n: u8)
        requires
            old(self).wf(),
            x < REGISTER_COUNT,
            y < REGISTER_COUNT,
            n <= 7 || n == 0xE,
        ensures
            final(self).wf(),
            final(self)@ == exec_alu(old(self)@, x as int, y as int, n as int),
    {
        let (value, flag) = alu(self.registers[x], self.registers[y], n, self.super_chip);
        self.set_reg(x, value);
        match flag {
            Some(flag) => {
                self.set_reg(0xF, flag);
            },
            None => {},
        }
    }

    /// `FX33`: stores the decimal digits of `v` at the index register.
    fn op_bcd(&mut self, x: usize)
        requires
            old(self).wf(),
            x < REGISTER_COUNT,
            old(self)@.index + bcd_len(old(self)@.reg(x as int)) <= RAM_SIZE,
        ensures
            final(self).wf(),
            final(self)@ == exec_bcd(old(self)@, x as int),
    {
        let v: u8 = self.registers[x];
        let i: usize = self.index_register as usize;
        if v < 10 {
            self.ram[i] = v;
        } else if v < 100 {
            self.ram[i + 1] = v % 10;
            self.ram[i] = v / 10;
        } else {
            self.ram[i + 2] = v % 10;
            self.ram[i + 1] = (v / 10) % 10;
            self.ram[i] = v / 100;
        }
    }

    /// `FX55` and `FX65`: moves registers 0 to `x` to or from the memory at
    /// the index register.
    fn op_transfer(&mut self, x: usize, store: bool)
        requires
            old(self).wf(),
            x < REGISTER_COUNT,
            old(self)@.index + x + 1 <= RAM_SIZE,
        ensures
            final(self).wf(),
            final(self)@ == if store {
                exec_store(old(self)@, x as int)
            } else {
                exec_load(old(self)@, x as int)
            },
    {
        let base: usize = self.index_register as usize;
        if store {
            store_registers(&mut self.ram, &self.registers, base, x);
        } else {
            load_registers(&mut self.registers, &self.ram, base, x);
        }
        if !self.super_chip {
            self.index_register = (base + x + 1) as u16;
        }
        proof {
            if store {
                assert(self@.ram =~= exec_store(old(self)@, x as int).ram);
            } else {
                assert(self@.regs =~= exec_load(old(self)@, x as int).regs);
            }
        }
    }

    /// Class F: timers, index register, keys, digits and register transfers.
    fn op_misc(&mut self, x: usize, kk: u8)
        requires
            old(self).wf(),
            x < REGISTER_COUNT,
            2 <= old(self)@.pc,
            kk == 0x07 || kk == 0x0A || kk == 0x15 || kk == 0x18 || kk == 0x1E || kk == 0x29
                || kk == 0x33 || kk == 0x55 || kk == 0x65,
            kk == 0x1E ==> old(self)@.index + old(self)@.reg(x as int) <= u16::MAX,
            kk == 0x33 ==> old(self)@.index + bcd_len(old(self)@.reg(x as int)) <= RAM_SIZE,
            kk == 0x55 || kk == 0x65 ==> old(self)@.index + x + 1 <= RAM_SIZE,
        ensures
            final(self).wf(),
            final(self)@ == exec_misc(old(self)@, x as int, kk),
    {
        let vx: u8 = self.registers[x];
        if kk == 0x07 {
            self.set_reg(x, self.delay_timer);
        } else if kk == 0x15 {
            self.delay_timer = vx;
        } else if kk == 0x18 {
            self.sound_timer = vx;
        } else if kk == 0x1E {
            let sum: u32 = self.index_register as u32 + vx as u32;
            self.index_register = sum as u16;
            if sum >= 4096 {
                self.registers[0xF] = 1;
            }
        } else if kk == 0x0A {
            match released_key(&self.input) {
                Some(k) => {
                    self.set_reg(x, k);
                },
                None => {
                    self.pc -= 2;
                },
            }
        } else if kk == 0x29 {
            proof {
                lemma_shifts(vx);
            }
            self.index_register = (FONT_START + GLYPH_SIZE * ((vx & 0xF) as usize)) as u16;
        } else if kk == 0x33 {
            self.op_bcd(x);
        } else {
            self.op_transfer(x, kk == 0x55);
        }
    }

    /// The instructions that steer the program: clear and return, jumps,
    /// calls and skips.
    fn run_flow(&mut self, f: &Operands, instr: u16, random: u8)
        requires
            old(self).wf(),
            executable(old(self)@, instr),
            f.class == op_class(instr),
            f.x == op_x(instr),
            f.y == op_y(instr),
            f.kk == op_kk(instr),
            f.nnn == op_nnn(instr),
            f.nnn < 0x1000,
            f.class <= 5 || f.class == 9 || f.class == 0xB || f.class == 0xE,
        ensures
            final(self).wf(),
            final(self)@ == dispatch(old(self)@, instr, random),
    {
        if f.class == 0 {
            self.op_system(instr, f.kk);
        } else if f.class == 1 {
            self.pc = f.nnn;
        } else if f.class == 2 {
            self.op_call(instr, f.nnn);
        } else if f.class == 3 {
            self.op_skip(self.registers[f.x] == f.kk);
        } else if f.class == 4 {
            self.op_skip(self.registers[f.x] != f.kk);
        } else if f.class == 5 {
            self.op_skip(self.registers[f.x] == self.registers[f.y]);
        } else if f.class == 9 {
            self.op_skip(self.registers[f.x] != self.registers[f.y]);
        } else if f.class == 0xB {
            let base: u8 = if self.super_chip {
                self.registers[f.x]
            } else {
                self.registers[0]
            };
            self.pc = base as u16 + f.nnn;
        } else {
            let pressed: bool = self.input[self.registers[f.x] as usize] == KeyState::Pressed;
            self.op_skip(pressed == (f.kk == 0x9E));
        }
    }

    /// The instructions that compute and move data: loads, arithmetic, the
    /// index register, random numbers, drawing, timers and transfers.
    fn run_data(&mut self, f: &Operands, instr: u16, random: u8) -> (repaint: bool)
        requires
            old(self).wf(),
            executable(old(self)@, instr),
            f.class == op_class(instr),
            f.x == op_x(instr),
            f.y == op_y(instr),
            f.n == op_n(instr),
            f.kk == op_kk(instr),
            f.nnn == op_nnn(instr),
            f.class < 16,
            !(f.class <= 5 || f.class == 9 || f.class == 0xB || f.class == 0xE),
        ensures
            final(self).wf(),
            final(self)@ == dispatch(old(self)@, instr, random),
            repaint == repaints(old(self)@, instr),
    {
        let mut repaint = false;
        if f.class == 6 {
            self.set_reg(f.x, f.kk);
        } else if f.class == 7 {
            self.set_reg(f.x, add_bytes(self.registers[f.x], f.kk).0);
        } else if f.class == 8 {
            self.op_alu(f.x, f.y, f.n);
        } else if f.class == 0xA {
            self.index_register = f.nnn;
        } else if f.class == 0xC {
            self.set_reg(f.x, random & f.kk);
        } else if f.class == 0xD {
            repaint = self.display(f.x as u16, f.y as u16, f.n as u16);
        } else {
            self.op_misc(f.x, f.kk);
        }
        repaint
    }

    /// Executes `instr` with `random` as the byte the random instruction
    /// draws, and returns whether the host should repaint.
    pub fn execute_with(&mut self, instr: u16, random: u8) -> (repaint: bool)
        requires
            old(self).wf(),
            executable(old(self)@, instr),
        ensures
            final(self).wf(),
            final(self)@ == execute(old(self)@, instr, random),
            repaint == repaints(old(self)@, instr),
    {
        let f = decode(instr);
        let mut repaint = false;
        if f.class <= 5 || f.class == 9 || f.class == 0xB || f.class == 0xE {
            self.run_flow(&f, instr, random);
        } else {
            repaint = self.run_data(&f, instr, random);
        }
        settle_keys(&mut self.input);
        repaint
    }

    /// Executes `instr` and returns whether the host should repaint. The
    /// random instruction draws its byte from the thread's generator.
    pub fn execute(&mut self, instr: u16) -> (repaint: bool)
        requires
            old(self).wf(),
            executable(old(self)@, instr),
        ensures
            final(self).wf(),
            exists|random: u8| final(self)@ == #[trigger] execute(old(self)@, instr, random),
            repaint == repaints(old(self)@, instr),
    {
        let random: u8 = if instr >> 12 == 0xC {
            random_byte()
        } else {
            0
        };
        self.execute_with(instr, random)
    }

    /// Whether a recognised instruction would reach outside the memory or
    /// push the index register past 16 bits.
    fn reaches_out(&self, f: &Operands, instr: u16) -> (out: bool)
        requires
            self.wf(),
            f.class == op_class(instr),
            f.x == op_x(instr),
            f.y == op_y(instr),
            f.n == op_n(instr),
            f.kk == op_kk(instr),
        ensures
            out == out_of_memory(self@, instr),
    {
        let index: usize = self.index_register as usize;
        if f.class == 0xD {
            let vy: u8 = self.registers[f.y];
            proof {
                lemma_shifts(vy);
            }
            let y0: usize = (vy & 31) as usize;
            let n: usize = f.n as usize;
            let rows: usize = if y0 + n <= 32 {
                n
            } else {
                32 - y0
            };
            rows > 0 && index + rows > RAM_SIZE
        } else if f.class == 0xF {
            let vx: u8 = self.registers[f.x];
            if f.kk == 0x1E {
                index + vx as usize > 0xFFFF
            } else if f.kk == 0x33 {
                let digits: usize = if vx < 10 {
                    1
                } else if vx < 100 {
                    2
                } else {
                    3
                };
                index + digits > RAM_SIZE
            } else if f.kk == 0x55 || f.kk == 0x65 {
                index + f.x + 1 > RAM_SIZE
            } else {
                false
            }
        } else {
            false
        }
    }

    /// Why `instr`, fetched from `pc`, cannot be executed, if it cannot.
    pub fn check(&self, instr: u16, pc: u16) -> (fault: Option<Fault>)
        requires
            self.wf(),
        ensures
            fault == fault_of(self@, instr, pc),
    {
        let f = decode(instr);
        let kk: u8 = f.kk;
        let known: bool = if f.class == 0 {
            kk == 0xE0 || f.nnn == 0x0EE
        } else if f.class == 5 || f.class == 9 {
            f.n == 0
        } else if f.class == 8 {
            f.n <= 7 || f.n == 0xE
        } else if f.class == 0xE {
            kk == 0x9E || kk == 0xA1
        } else if f.class == 0xF {
            kk == 0x07 || kk == 0x0A || kk == 0x15 || kk == 0x18 || kk == 0x1E || kk == 0x29
                || kk == 0x33 || kk == 0x55 || kk == 0x65
        } else {
            true
        };
        if !known {
            Some(Fault::Decode { instr, pc })
        } else if f.class == 0 && kk != 0xE0 && self.stack_ptr == 0 {
            Some(Fault::StackUnderflow { instr, pc })
        } else if f.class == 2 && self.stack_ptr >= STACK_SIZE {
            Some(Fault::StackOverflow { instr, pc })
        } else if f.class == 0xE && self.registers[f.x] as usize >= NUM_KEYS {
            Some(Fault::Key { instr, pc })
        } else if self.reaches_out(&f, instr) {
            Some(Fault::Address { instr, pc })
        } else {
            None
        }
    }

    /// The instruction word at the program counter, if the program counter
    /// leaves room for one.
    pub fn next_instruction(&self) -> (word: Option<u16>)
        requires
            self.wf(),
        ensures
            word == if can_fetch(self@) {
                Some(next_word(self@))
            } else {
                None
            },
    {
        let pc: usize = self.pc as usize;
        if pc + 1 >= RAM_SIZE {
            return None;
        }
        let fst: u16 = self.ram[pc] as u16;
        let snd: u16 = self.ram[pc + 1] as u16;
        assert((fst << 8) | snd == fst * 256 + snd) by (bit_vector)
            requires
                fst < 256,
                snd < 256,
        ;
        Some((fst << 8) | snd)
    }

    /// Why the machine cannot fetch and execute its next instruction, if it
    /// cannot.
    pub fn fault(&self) -> (fault: Option<Fault>)
        requires
            self.wf(),
        ensures
            fault == next_fault(self@),
    {
        match self.next_instruction() {
            None => Some(Fault::Fetch { pc: self.pc }),
            Some(instr) => {
                proof {
                    lemma_fault_ignores_pc(self@, instr, self.pc, fetched(self@).pc);
                }
                self.check(instr, self.pc)
            },
        }
    }
}

} // verus!
