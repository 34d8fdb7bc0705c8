//! The interpreter: machine state and the fetch-decode-execute cycle,
//! proved to follow the model in `semantics` step for step.
use vstd::prelude::*;

use crate::display::Display;
use crate::instruction::{decode_instruction, spec_decode, Instruction};
use crate::keyboard::Keyboard;
use crate::semantics::{
    draw_row, draw_sprite, load_regs, reg_val, spec_draw, spec_exec, spec_run, spec_step,
    store_regs, with_reg, write_byte, CpuError, CpuView, StepOut,
};
use crate::types::{reg_idx, Address, RegData, Register};
use crate::INSTRUCTIONS_PER_CYCLE;

verus! {

/// The glyph bitmap built into low memory: sixteen glyphs of five bytes
/// each, digit 0 through F.
pub open spec fn font_table() -> Seq<u8> {
    seq![
        0xF0u8, 0x90, 0x90, 0x90, 0xF0,
        0x20, 0x60, 0x20, 0x20, 0x70,
        0xF0, 0x10, 0xF0, 0x80, 0xF0,
        0xF0, 0x10, 0xF0, 0x10, 0xF0,
        0x90, 0x90, 0xF0, 0x10, 0x10,
        0xF0, 0x80, 0xF0, 0x10, 0xF0,
        0xF0, 0x80, 0xF0, 0x90, 0xF0,
        0xF0, 0x10, 0x20, 0x40, 0x40,
        0xF0, 0x90, 0xF0, 0x90, 0xF0,
        0xF0, 0x90, 0xF0, 0x10, 0xF0,
        0xF0, 0x90, 0xF0, 0x90, 0x90,
        0xE0, 0x90, 0xE0, 0x90, 0xE0,
        0xF0, 0x80, 0x80, 0x80, 0xF0,
        0xE0, 0x90, 0x90, 0x90, 0xE0,
        0xF0, 0x80, 0xF0, 0x80, 0xF0,
        0xF0, 0x80, 0xF0, 0x80, 0x80,
    ]
}

/// The byte at `addr` of freshly initialized memory: the font table over
/// 0x050..0x0A0, zero everywhere else.
pub open spec fn font_byte(addr: int) -> u8 {
    if 0x50 <= addr < 0xA0 {
        font_table()[addr - 0x50]
    } else {
        0
    }
}

/// Freshly initialized memory: 4096 bytes, font table in place.
pub open spec fn spec_initial_memory() -> Seq<u8> {
    Seq::new(4096, |addr: int| font_byte(addr))
}

/// The machine as constructed: cleared registers, stack, display and
/// keys, fresh memory, the instruction pointer at the code section.
pub open spec fn initial_cpu() -> CpuView {
    CpuView {
        memory: spec_initial_memory(),
        regs: Seq::new(16, |j: int| 0u8),
        stack: Seq::new(16, |j: int| 0u16),
        sp: 0,
        delay_timer: 0,
        sound_timer: 0,
        display: Seq::new(2048, |j: int| false),
        ip: 0x200,
        i: 0,
        keys: Seq::new(16, |j: int| false),
        registered: None,
        rng: 0xACE1,
    }
}

/// Memory after a program image is loaded: the bytes of `prog` from
/// 0x200 on, fresh font-initialized memory everywhere else.
pub open spec fn loaded_memory(prog: Seq<u8>) -> Seq<u8> {
    Seq::new(
        4096,
        |addr: int|
            if 0x200 <= addr < 0x200 + prog.len() {
                prog[addr - 0x200]
            } else {
                font_byte(addr)
            },
    )
}

/// `mem` with one big-endian instruction word written at `addr`.
pub open spec fn write_word(mem: Seq<u8>, addr: int, w: u16) -> Seq<u8> {
    write_byte(write_byte(mem, addr, (w / 256) as u8), addr + 1, (w % 256) as u8)
}

/// `mem` with the first `count` words of `ws` written at consecutive
/// even offsets from `base`.
pub open spec fn write_words(mem: Seq<u8>, base: int, ws: Seq<u16>, count: nat) -> Seq<u8>
    decreases count,
{
    if count == 0 {
        mem
    } else {
        write_word(write_words(mem, base, ws, (count - 1) as nat), base + 2 * (count - 1), ws[
            count - 1
        ])
    }
}

/// The built-in demonstration program: clear the screen, then draw the
/// glyphs for 0 and 1 side by side.
pub open spec fn demo_program() -> Seq<u16> {
    seq![0x00E0u16, 0xA050, 0x6000, 0x6100, 0xD015, 0x7006, 0xA055, 0xD015]
}

/// The interpreter. It owns all machine state; a host drives it by
/// loading a program, calling `tick` once per frame, decrementing the
/// timers at a fixed rate, and feeding key events in.
pub struct Cpu {
    memory: Vec<u8>,
    registers: Vec<u8>,
    stack: Vec<u16>,
    clock: u128,
    delay_timer: u8,
    sound_timer: u8,
    display: Display,
    ip: usize,
    sp: usize,
    i: Address,
    keyboard: Keyboard,
    rng: u16,
}

impl View for Cpu {
    type V = CpuView;

    closed spec fn view(&self) -> CpuView {
        CpuView {
            memory: self.memory@,
            regs: self.registers@,
            stack: self.stack@,
            sp: self.sp as nat,
            delay_timer: self.delay_timer,
            sound_timer: self.sound_timer,
            display: self.display@,
            ip: self.ip as nat,
            i: self.i,
            keys: self.keyboard@.pressed,
            registered: self.keyboard@.registered,
            rng: self.rng,
        }
    }
}

/// The font byte belonging at `addr` of fresh memory.
fn font_byte_at(addr: usize) -> (b: u8)
    requires
        addr < 4096,
    ensures
        b == font_byte(addr as int),
{
    if 0x50 <= addr && addr < 0xA0 {
        let table: [u8; 80] = [
            0xF0u8, 0x90, 0x90, 0x90, 0xF0,
            0x20, 0x60, 0x20, 0x20, 0x70,
            0xF0, 0x10, 0xF0, 0x80, 0xF0,
            0xF0, 0x10, 0xF0, 0x10, 0xF0,
            0x90, 0x90, 0xF0, 0x10, 0x10,
            0xF0, 0x80, 0xF0, 0x10, 0xF0,
            0xF0, 0x80, 0xF0, 0x90, 0xF0,
            0xF0, 0x10, 0x20, 0x40, 0x40,
            0xF0, 0x90, 0xF0, 0x90, 0xF0,
            0xF0, 0x90, 0xF0, 0x10, 0xF0,
            0xF0, 0x90, 0xF0, 0x90, 0x90,
            0xE0, 0x90, 0xE0, 0x90, 0xE0,
            0xF0, 0x80, 0x80, 0x80, 0xF0,
            0xE0, 0x90, 0x90, 0x90, 0xE0,
            0xF0, 0x80, 0xF0, 0x80, 0xF0,
            0xF0, 0x80, 0xF0, 0x80, 0x80,
        ];
        proof {
            assert(table@ =~= font_table());
        }
        table[addr - 0x50]
    } else {
        0
    }
}

impl Cpu {
    /// Fresh memory: zeroed but for the font table at 0x050..0x0A0.
    fn initialize_memory() -> (m: Vec<u8>)
        ensures
            m@ == spec_initial_memory(),
    {
        let mut m: Vec<u8> = Vec::new();
        let mut addr: usize = 0;
        while addr < 4096
            invariant
                addr <= 4096,
                m@.len() == addr,
                forall|j: int| 0 <= j < addr ==> m@[j] == font_byte(j),
            decreases 4096 - addr,
        {
            m.push(font_byte_at(addr));
            addr += 1;
        }
        proof {
            assert(m@ =~= spec_initial_memory());
        }
        m
    }

    /// A machine in its starting state.
    pub fn new() -> (c: Cpu)
        ensures
            c@ == initial_cpu(),
            c@.wf(),
    {
        let mut registers: Vec<u8> = Vec::new();
        let mut n: usize = 0;
        while n < 16
            invariant
                n <= 16,
                registers@.len() == n,
                forall|j: int| 0 <= j < n ==> registers@[j] == 0u8,
            decreases 16 - n,
        {
            registers.push(0);
            n += 1;
        }
        let mut stack: Vec<u16> = Vec::new();
        let mut n2: usize = 0;
        while n2 < 16
            invariant
                n2 <= 16,
                stack@.len() == n2,
                forall|j: int| 0 <= j < n2 ==> stack@[j] == 0u16,
            decreases 16 - n2,
        {
            stack.push(0);
            n2 += 1;
        }
        let c = Cpu {
            memory: Cpu::initialize_memory(),
            registers,
            stack,
            sp: 0,
            delay_timer: 0,
            sound_timer: 0,
            i: 0,
            clock: 0,
            display: Display::new(),
            ip: 0x200,
            keyboard: Keyboard::new(),
            rng: 0xACE1,
        };
        proof {
            assert(c@.regs =~= initial_cpu().regs);
            assert(c@.stack =~= initial_cpu().stack);
            assert(c@.display =~= initial_cpu().display);
            assert(c@.keys =~= initial_cpu().keys);
            assert(c@ =~= initial_cpu());
        }
        c
    }

    /// Display width in pixels.
    pub fn width(&self) -> (w: usize)
        ensures
            w == 64,
    {
        crate::display::DISPLAY_WIDTH
    }

    /// Display height in pixels.
    pub fn height(&self) -> (h: usize)
        ensures
            h == 32,
    {
        crate::display::DISPLAY_HEIGHT
    }

    /// Read-only copy of the display bits, row-major.
    pub fn display(&self) -> (bits: Vec<bool>)
        requires
            self@.wf(),
        ensures
            bits@ == self@.display,
    {
        let mut bits: Vec<bool> = Vec::new();
        let mut idx: usize = 0;
        while idx < 2048
            invariant
                self@.wf(),
                idx <= 2048,
                bits@.len() == idx,
                forall|j: int| 0 <= j < idx ==> bits@[j] == self@.display[j],
            decreases 2048 - idx,
        {
            bits.push(self.display.get(idx));
            idx += 1;
        }
        proof {
            assert(bits@ =~= self@.display);
        }
        bits
    }

    /// The linear display index of (row, col).
    fn get_index(&self, row: usize, col: usize) -> (idx: usize)
        requires
            row < 32,
            col < 64,
        ensures
            idx == row * 64 + col,
            idx < 2048,
    {
        row * 64 + col
    }

    /// The byte at a memory address, or nothing when the address is out
    /// of range.
    pub fn read_memory(&self, addr: usize) -> (b: Option<u8>)
        requires
            self@.wf(),
        ensures
            b == if addr < 4096 {
                Some(self@.memory[addr as int])
            } else {
                None::<u8>
            },
    {
        if addr < 4096 {
            Some(self.memory[addr])
        } else {
            None
        }
    }

    /// The value held by a data register.
    pub fn get_from_register(&self, reg: Register) -> (data: RegData)
        requires
            self@.wf(),
        ensures
            data == reg_val(self@, reg),
    {
        let idx = reg.index();
        self.registers[idx]
    }

    /// Write a data register.
    fn store_at_register(&mut self, reg: Register, data: RegData)
        requires
            old(self)@.wf(),
        ensures
            final(self)@ == with_reg(old(self)@, reg, data),
            final(self)@.wf(),
    {
        let idx = reg.index();
        self.registers.set(idx, data);
    }

    /// The instruction pointer.
    pub fn instruction_pointer(&self) -> (ip: usize)
        ensures
            ip == self@.ip,
    {
        self.ip
    }

    /// How many return addresses the call stack holds.
    pub fn stack_depth(&self) -> (sp: usize)
        ensures
            sp == self@.sp,
    {
        self.sp
    }

    /// The delay timer's current value.
    pub fn delay_timer(&self) -> (t: u8)
        ensures
            t == self@.delay_timer,
    {
        self.delay_timer
    }

    /// The sound timer's current value.
    pub fn sound_timer(&self) -> (t: u8)
        ensures
            t == self@.sound_timer,
    {
        self.sound_timer
    }

    /// Host clock driver: one saturating step down of the delay timer.
    pub fn decrement_delay_timer(&mut self)
        requires
            old(self)@.wf(),
        ensures
            final(self)@ == (CpuView {
                delay_timer: if old(self)@.delay_timer > 0 {
                    (old(self)@.delay_timer - 1) as u8
                } else {
                    0
                },
                ..old(self)@
            }),
            final(self)@.wf(),
    {
        if self.delay_timer > 0 {
            self.delay_timer = self.delay_timer - 1;
        }
    }

    /// Host clock driver: one saturating step down of the sound timer.
    pub fn decrement_sound_timer(&mut self)
        requires
            old(self)@.wf(),
        ensures
            final(self)@ == (CpuView {
                sound_timer: if old(self)@.sound_timer > 0 {
                    (old(self)@.sound_timer - 1) as u8
                } else {
                    0
                },
                ..old(self)@
            }),
            final(self)@.wf(),
    {
        if self.sound_timer > 0 {
            self.sound_timer = self.sound_timer - 1;
        }
    }

    /// Host input delivery: the key named `key` went down.
    pub fn press_key(&mut self, key: usize)
        requires
            old(self)@.wf(),
            key < 16,
        ensures
            final(self)@ == (CpuView {
                keys: old(self)@.keys.update(key as int, true),
                registered: None::<u8>,
                ..old(self)@
            }),
            final(self)@.wf(),
    {
        self.keyboard.press(key);
    }

    /// Host input delivery: the key named `key` came back up.
    pub fn release_key(&mut self, key: usize)
        requires
            old(self)@.wf(),
            key < 16,
        ensures
            final(self)@ == (CpuView {
                keys: old(self)@.keys.update(key as int, false),
                registered: Some(key as u8),
                ..old(self)@
            }),
            final(self)@.wf(),
    {
        self.keyboard.release(key);
    }

    /// Reseed the deterministic random sequence, for hosts that want the
    /// masked-random instruction to vary between runs.
    pub fn reseed(&mut self, seed: u16)
        requires
            old(self)@.wf(),
        ensures
            final(self)@ == (CpuView { rng: seed, ..old(self)@ }),
            final(self)@.wf(),
    {
        self.rng = seed;
    }

    /// Write the built-in demonstration program into memory at the code
    /// section, leaving the rest of memory as it is.
    #[verifier::loop_isolation(false)]
    pub fn load_instructions(&mut self)
        requires
            old(self)@.wf(),
        ensures
            final(self)@ == (CpuView {
                memory: write_words(old(self)@.memory, 0x200, demo_program(), 8),
                ..old(self)@
            }),
            final(self)@.wf(),
    {
        let words: [u16; 8] = [0x00E0, 0xA050, 0x6000, 0x6100, 0xD015, 0x7006, 0xA055, 0xD015];
        proof {
            assert(words@ =~= demo_program());
        }
        let ghost s0 = self@;
        let mut k: usize = 0;
        while k < 8
            invariant
                k <= 8,
                self@.memory.len() == 4096,
                self@ == (CpuView {
                    memory: write_words(s0.memory, 0x200, demo_program(), k as nat),
                    ..s0
                }),
            decreases 8 - k,
        {
            let w: u16 = words[k];
            self.memory.set(0x200 + 2 * k, (w / 256) as u8);
            self.memory.set(0x200 + 2 * k + 1, (w % 256) as u8);
            k += 1;
        }
    }

    /// Replace memory with fresh font-initialized memory holding the
    /// given program image from 0x200 on. All other state is untouched.
    pub fn load(&mut self, bytes: &Vec<u8>)
        requires
            old(self)@.wf(),
            bytes@.len() <= 4096 - 0x200,
        ensures
            final(self)@ == (CpuView { memory: loaded_memory(bytes@), ..old(self)@ }),
            final(self)@.wf(),
    {
        let mut new_memory = Cpu::initialize_memory();
        let mut j: usize = 0;
        while j < bytes.len()
            invariant
                bytes@.len() <= 4096 - 0x200,
                j <= bytes@.len(),
                new_memory@.len() == 4096,
                forall|a: int|
                    0x200 <= a < 0x200 + j ==> new_memory@[a] == bytes@[a - 0x200],
                forall|a: int|
                    0 <= a < 4096 && !(0x200 <= a < 0x200 + j) ==> new_memory@[a] == font_byte(a),
            decreases bytes@.len() - j,
        {
            new_memory.set(0x200 + j, bytes[j]);
            j += 1;
        }
        proof {
            assert(new_memory@ =~= loaded_memory(bytes@));
        }
        self.memory = new_memory;
    }
}

/// What one executed step asks of the tick loop: go on, end the tick
/// quietly, or abort with a fault.
enum Flow {
    Continue,
    Halt,
    Fault(CpuError),
}

/// The weight of sprite bit `bit`, most significant first.
fn bit_weight_at(bit: u8) -> (w: u8)
    requires
        bit < 8,
    ensures
        w as int == crate::semantics::bit_weight(bit as int),
        w > 0,
{
    match bit {
        0 => 128,
        1 => 64,
        2 => 32,
        3 => 16,
        4 => 8,
        5 => 4,
        6 => 2,
        _ => 1,
    }
}

impl Cpu {
    /// Blit `n` sprite rows from I onto the display at column VX, row VY,
    /// then record the collision outcome in VF.
    #[verifier::loop_isolation(false)]
    fn exec_draw(&mut self, x: Register, y: Register, n: u8)
        requires
            old(self)@.wf(),
            n < 16,
        ensures
            final(self)@ == spec_draw(old(self)@, x, y, n),
            final(self)@.wf(),
    {
        let ghost s0 = self@;
        let x0: u8 = self.get_from_register(x) % 64;
        let y0: u8 = self.get_from_register(y) % 32;
        let base: usize = self.i as usize;
        let mut pixel_was_unset = false;
        let mut offset: u8 = 0;
        while offset < n
            invariant
                offset <= n,
                self@ == (CpuView {
                    display: draw_sprite(
                        s0.display,
                        s0.memory,
                        base as int,
                        x0 as int,
                        y0 as int,
                        offset as nat,
                    ).0,
                    ..s0
                }),
                pixel_was_unset == draw_sprite(
                    s0.display,
                    s0.memory,
                    base as int,
                    x0 as int,
                    y0 as int,
                    offset as nat,
                ).1,
                self@.display.len() == 2048,
            decreases n - offset,
        {
            let addr: usize = base + offset as usize;
            let sprite_byte: u8 = if addr < 4096 {
                self.memory[addr]
            } else {
                0
            };
            let row: u8 = (y0 + offset) % 32;
            let ghost d_row0 = self@.display;
            let ghost hit0 = pixel_was_unset;
            let mut bit: u8 = 0;
            while bit < 8
                invariant
                    bit <= 8,
                    self@ == (CpuView {
                        display: draw_row(
                            d_row0,
                            sprite_byte,
                            x0 as int,
                            row as int,
                            bit as nat,
                        ).0,
                        ..s0
                    }),
                    pixel_was_unset == (hit0 || draw_row(
                        d_row0,
                        sprite_byte,
                        x0 as int,
                        row as int,
                        bit as nat,
                    ).1),
                    self@.display.len() == 2048,
                decreases 8 - bit,
            {
                let col: u8 = (x0 + bit) % 64;
                let index: usize = self.get_index(row as usize, col as usize);
                let current_pixel = self.display.get(index);
                let weight = bit_weight_at(bit);
                let sprite_pixel = (sprite_byte / weight) % 2 == 1;
                let new_pixel_value = current_pixel != sprite_pixel;
                if current_pixel && sprite_pixel {
                    pixel_was_unset = true;
                }
                self.display.set(index, new_pixel_value);
                bit += 1;
            }
            offset += 1;
        }
        self.registers.set(
            15,
            if pixel_was_unset {
                1
            } else {
                0
            },
        );
    }

    /// Store V0..=VX into memory at ascending addresses from I,
    /// out-of-range writes ignored.
    #[verifier::loop_isolation(false)]
    fn exec_store_regs(&mut self, x: Register)
        requires
            old(self)@.wf(),
        ensures
            final(self)@ == (CpuView {
                memory: store_regs(
                    old(self)@.memory,
                    old(self)@.regs,
                    old(self)@.i as int,
                    (reg_idx(x) + 1) as nat,
                ),
                ..old(self)@
            }),
            final(self)@.wf(),
    {
        let ghost s0 = self@;
        let count: usize = x.index() + 1;
        let base: usize = self.i as usize;
        let mut k: usize = 0;
        while k < count
            invariant
                k <= count,
                self@.memory.len() == 4096,
                self@ == (CpuView {
                    memory: store_regs(s0.memory, s0.regs, base as int, k as nat),
                    ..s0
                }),
            decreases count - k,
        {
            let addr: usize = base + k;
            let v = self.registers[k];
            if addr < 4096 {
                self.memory.set(addr, v);
            }
            k += 1;
        }
    }

    /// Load V0..=VX from memory at ascending addresses from I,
    /// out-of-range reads yielding zero.
    #[verifier::loop_isolation(false)]
    fn exec_load_regs(&mut self, x: Register)
        requires
            old(self)@.wf(),
        ensures
            final(self)@ == (CpuView {
                regs: load_regs(
                    old(self)@.regs,
                    old(self)@.memory,
                    old(self)@.i as int,
                    (reg_idx(x) + 1) as nat,
                ),
                ..old(self)@
            }),
            final(self)@.wf(),
    {
        let ghost s0 = self@;
        let count: usize = x.index() + 1;
        let base: usize = self.i as usize;
        let mut k: usize = 0;
        while k < count
            invariant
                k <= count,
                self@.regs.len() == 16,
                self@ == (CpuView {
                    regs: load_regs(s0.regs, s0.memory, base as int, k as nat),
                    ..s0
                }),
            decreases count - k,
        {
            let addr: usize = base + k;
            let v: u8 = if addr < 4096 {
                self.memory[addr]
            } else {
                0
            };
            self.registers.set(k, v);
            k += 1;
        }
    }

    /// Execute one decoded instruction; the instruction pointer already
    /// points past its word.
    fn execute(&mut self, instr: Instruction) -> (flow: Flow)
        requires
            old(self)@.wf(),
            crate::instruction::instr_valid(instr),
            old(self)@.ip >= 2,
            old(self)@.ip <= 4096,
        ensures
            final(self)@.wf(),
            !(spec_exec(old(self)@, instr) is Halted),
            spec_exec(old(self)@, instr) matches StepOut::Stepped(v) ==> flow is Continue
                && final(self)@ == v,
            spec_exec(old(self)@, instr) matches StepOut::Faulted(e, v) ==> flow == Flow::Fault(e)
                && final(self)@ == v,
    {
        match instr {
            Instruction::i00E0 | Instruction::i00E1 | Instruction::i00EE | Instruction::i1NNN(_)
            | Instruction::i2NNN(_) => self.exec_system(instr),
            Instruction::i3XNN(..) | Instruction::i4XNN(..) | Instruction::i5XY0(..)
            | Instruction::i9XY0(..) | Instruction::iEX9E(_) | Instruction::iEXA1(_) => self
                .exec_skip(instr),
            Instruction::i6XNN(..) | Instruction::i7XNN(..) | Instruction::i8XY0(..)
            | Instruction::i8XY1(..) | Instruction::i8XY2(..) | Instruction::i8XY3(..)
            | Instruction::i8XY4(..) | Instruction::i8XY5(..) | Instruction::i8XY6(..)
            | Instruction::i8XY7(..) | Instruction::i8XYE(..) => self.exec_alu(instr),
            Instruction::iANNN(_) | Instruction::iBNNN(_) | Instruction::iCXNN(..)
            | Instruction::iFX07(_) | Instruction::iFX0A(_) | Instruction::iFX15(_)
            | Instruction::iFX18(_) | Instruction::iFX1E(_) | Instruction::iFX29(_) => self
                .exec_misc(instr),
            Instruction::iDXYN(..) | Instruction::iFX33(_) | Instruction::iFX55(_)
            | Instruction::iFX65(_) => self.exec_memops(instr),
        }
    }

    /// Display clears, returns, jumps and calls: the instructions that
    /// can fault.
    fn exec_system(&mut self, instr: Instruction) -> (flow: Flow)
        requires
            old(self)@.wf(),
            crate::instruction::instr_valid(instr),
            old(self)@.ip <= 4096,
            instr is i00E0 || instr is i00E1 || instr is i00EE || instr is i1NNN || instr
                is i2NNN,
        ensures
            final(self)@.wf(),
            !(spec_exec(old(self)@, instr) is Halted),
            spec_exec(old(self)@, instr) matches StepOut::Stepped(v) ==> flow is Continue
                && final(self)@ == v,
            spec_exec(old(self)@, instr) matches StepOut::Faulted(e, v) ==> flow == Flow::Fault(e)
                && final(self)@ == v,
    {
        proof {
            reveal(spec_exec);
        }
        match instr {
            Instruction::i00E0 => {
                self.display.clear();
                proof {
                    assert(self@.display =~= Seq::new(2048, |j: int| false));
                }
                Flow::Continue
            },
            Instruction::i00E1 => {
                self.display.set_all();
                proof {
                    assert(self@.display =~= Seq::new(2048, |j: int| true));
                }
                Flow::Continue
            },
            Instruction::i00EE => {
                if self.sp == 0 {
                    return Flow::Fault(CpuError::StackUnderflow);
                }
                self.sp -= 1;
                self.ip = self.stack[self.sp] as usize;
                Flow::Continue
            },
            Instruction::i1NNN(address) => {
                self.ip = address as usize;
                Flow::Continue
            },
            Instruction::i2NNN(address) => {
                if self.sp >= 16 {
                    return Flow::Fault(CpuError::StackOverflow);
                }
                self.stack.set(self.sp, self.ip as u16);
                self.sp += 1;
                self.ip = address as usize;
                Flow::Continue
            },
            _ => {
                proof {
                    assert(false);
                }
                Flow::Continue
            },
        }
    }

    /// The conditional skips: on registers, immediates and keys.
    fn exec_skip(&mut self, instr: Instruction) -> (flow: Flow)
        requires
            old(self)@.wf(),
            old(self)@.ip <= 4096,
            instr is i3XNN || instr is i4XNN || instr is i5XY0 || instr is i9XY0 || instr
                is iEX9E || instr is iEXA1,
        ensures
            final(self)@.wf(),
            !(spec_exec(old(self)@, instr) is Halted),
            spec_exec(old(self)@, instr) matches StepOut::Stepped(v) ==> flow is Continue
                && final(self)@ == v,
            spec_exec(old(self)@, instr) matches StepOut::Faulted(e, v) ==> flow == Flow::Fault(e)
                && final(self)@ == v,
    {
        proof {
            reveal(spec_exec);
        }
        match instr {
            Instruction::i3XNN(reg, data) => {
                if self.get_from_register(reg) == data {
                    self.ip += 2;
                }
                Flow::Continue
            },
            Instruction::i4XNN(reg, data) => {
                if self.get_from_register(reg) != data {
                    self.ip += 2;
                }
                Flow::Continue
            },
            Instruction::i5XY0(reg_x, reg_y) => {
                if self.get_from_register(reg_x) == self.get_from_register(reg_y) {
                    self.ip += 2;
                }
                Flow::Continue
            },
            Instruction::i9XY0(reg1, reg2) => {
                if self.get_from_register(reg1) != self.get_from_register(reg2) {
                    self.ip += 2;
                }
                Flow::Continue
            },
            Instruction::iEX9E(reg) => {
                let reg_val = self.get_from_register(reg);
                if self.keyboard.get_key(reg_val % 16) {
                    self.ip += 2;
                }
                Flow::Continue
            },
            Instruction::iEXA1(reg) => {
                let reg_val = self.get_from_register(reg);
                if !self.keyboard.get_key(reg_val % 16) {
                    self.ip += 2;
                }
                Flow::Continue
            },
            _ => {
                proof {
                    assert(false);
                }
                Flow::Continue
            },
        }
    }

    /// Register loads and the arithmetic-logic group, with their flag
    /// conventions: VF is always written last.
    fn exec_alu(&mut self, instr: Instruction) -> (flow: Flow)
        requires
            old(self)@.wf(),
            instr is i6XNN || instr is i7XNN || instr is i8XY0 || instr is i8XY1 || instr
                is i8XY2 || instr is i8XY3 || instr is i8XY4 || instr is i8XY5 || instr is i8XY6
                || instr is i8XY7 || instr is i8XYE,
        ensures
            final(self)@.wf(),
            !(spec_exec(old(self)@, instr) is Halted),
            spec_exec(old(self)@, instr) matches StepOut::Stepped(v) ==> flow is Continue
                && final(self)@ == v,
            spec_exec(old(self)@, instr) matches StepOut::Faulted(e, v) ==> flow == Flow::Fault(e)
                && final(self)@ == v,
    {
        proof {
            reveal(spec_exec);
        }
        match instr {
            Instruction::i6XNN(reg, data) => {
                self.store_at_register(reg, data);
                Flow::Continue
            },
            Instruction::i7XNN(reg, data) => {
                let sum: u16 = self.get_from_register(reg) as u16 + data as u16;
                self.store_at_register(reg, (sum % 256) as u8);
                Flow::Continue
            },
            Instruction::i8XY0(reg1, reg2) => {
                let y_value = self.get_from_register(reg2);
                self.store_at_register(reg1, y_value);
                Flow::Continue
            },
            Instruction::i8XY1(reg1, reg2) => {
                let x_value = self.get_from_register(reg1);
                let y_value = self.get_from_register(reg2);
                self.store_at_register(reg1, x_value | y_value);
                Flow::Continue
            },
            Instruction::i8XY2(reg1, reg2) => {
                let x_value = self.get_from_register(reg1);
                let y_value = self.get_from_register(reg2);
                self.store_at_register(reg1, x_value & y_value);
                Flow::Continue
            },
            Instruction::i8XY3(reg1, reg2) => {
                let x_value = self.get_from_register(reg1);
                let y_value = self.get_from_register(reg2);
                self.store_at_register(reg1, x_value ^ y_value);
                Flow::Continue
            },
            Instruction::i8XY4(reg1, reg2) => {
                let x_value = self.get_from_register(reg1);
                let y_value = self.get_from_register(reg2);
                let sum: u16 = x_value as u16 + y_value as u16;
                self.store_at_register(reg1, (sum % 256) as u8);
                self.registers.set(
                    15,
                    if sum > 255 {
                        1
                    } else {
                        0
                    },
                );
                Flow::Continue
            },
            Instruction::i8XY5(reg1, reg2) => {
                let x_value = self.get_from_register(reg1);
                let y_value = self.get_from_register(reg2);
                let diff: u16 = x_value as u16 + 256 - y_value as u16;
                self.store_at_register(reg1, (diff % 256) as u8);
                self.registers.set(
                    15,
                    if x_value >= y_value {
                        1
                    } else {
                        0
                    },
                );
                Flow::Continue
            },
            Instruction::i8XY6(reg1, reg2) => {
                let y_value = self.get_from_register(reg2);
                self.store_at_register(reg1, y_value / 2);
                self.registers.set(15, y_value % 2);
                Flow::Continue
            },
            Instruction::i8XY7(reg1, reg2) => {
                let x_value = self.get_from_register(reg1);
                let y_value = self.get_from_register(reg2);
                let diff: u16 = y_value as u16 + 256 - x_value as u16;
                self.store_at_register(reg1, (diff % 256) as u8);
                self.registers.set(
                    15,
                    if y_value >= x_value {
                        1
                    } else {
                        0
                    },
                );
                Flow::Continue
            },
            Instruction::i8XYE(reg1, reg2) => {
                let y_value = self.get_from_register(reg2);
                self.store_at_register(reg1, (y_value % 128) * 2);
                self.registers.set(15, y_value / 128);
                Flow::Continue
            },
            _ => {
                proof {
                    assert(false);
                }
                Flow::Continue
            },
        }
    }

    /// Address-register loads, the masked-random instruction, timers,
    /// waiting for a key, and the glyph lookup.
    fn exec_misc(&mut self, instr: Instruction) -> (flow: Flow)
        requires
            old(self)@.wf(),
            crate::instruction::instr_valid(instr),
            old(self)@.ip >= 2,
            instr is iANNN || instr is iBNNN || instr is iCXNN || instr is iFX07 || instr
                is iFX0A || instr is iFX15 || instr is iFX18 || instr is iFX1E || instr is iFX29,
        ensures
            final(self)@.wf(),
            !(spec_exec(old(self)@, instr) is Halted),
            spec_exec(old(self)@, instr) matches StepOut::Stepped(v) ==> flow is Continue
                && final(self)@ == v,
            spec_exec(old(self)@, instr) matches StepOut::Faulted(e, v) ==> flow == Flow::Fault(e)
                && final(self)@ == v,
    {
        proof {
            reveal(spec_exec);
        }
        match instr {
            Instruction::iANNN(address) => {
                self.i = address;
                Flow::Continue
            },
            Instruction::iBNNN(address) => {
                let reg_v0 = self.registers[0];
                self.ip = (address + reg_v0 as u16) as usize;
                Flow::Continue
            },
            Instruction::iCXNN(reg, mask) => {
                let t: u32 = self.rng as u32 * 25173 + 13849;
                let rand: u16 = (t % 0x10000) as u16;
                self.rng = rand;
                self.store_at_register(reg, ((rand & mask) % 256) as u8);
                Flow::Continue
            },
            Instruction::iFX07(reg) => {
                let t = self.delay_timer;
                self.store_at_register(reg, t);
                Flow::Continue
            },
            Instruction::iFX0A(reg) => {
                match self.keyboard.get_registered_key() {
                    Some(key) => {
                        self.store_at_register(reg, key);
                    },
                    None => {
                        self.ip -= 2;
                    },
                }
                Flow::Continue
            },
            Instruction::iFX15(reg) => {
                self.delay_timer = self.get_from_register(reg);
                Flow::Continue
            },
            Instruction::iFX18(reg) => {
                self.sound_timer = self.get_from_register(reg);
                Flow::Continue
            },
            Instruction::iFX1E(reg) => {
                let reg_x_val = self.get_from_register(reg);
                let t: u32 = self.i as u32 + reg_x_val as u32;
                self.i = (t % 0x10000) as u16;
                Flow::Continue
            },
            Instruction::iFX29(reg) => {
                let ls_nibble = self.get_from_register(reg) % 16;
                self.i = 0x50 + 5 * (ls_nibble as u16);
                Flow::Continue
            },
            _ => {
                proof {
                    assert(false);
                }
                Flow::Continue
            },
        }
    }

    /// The instructions that move blocks between registers, memory and
    /// the display: sprite drawing, the decimal decomposition, and the
    /// register block transfers.
    fn exec_memops(&mut self, instr: Instruction) -> (flow: Flow)
        requires
            old(self)@.wf(),
            crate::instruction::instr_valid(instr),
            instr is iDXYN || instr is iFX33 || instr is iFX55 || instr is iFX65,
        ensures
            final(self)@.wf(),
            !(spec_exec(old(self)@, instr) is Halted),
            spec_exec(old(self)@, instr) matches StepOut::Stepped(v) ==> flow is Continue
                && final(self)@ == v,
            spec_exec(old(self)@, instr) matches StepOut::Faulted(e, v) ==> flow == Flow::Fault(e)
                && final(self)@ == v,
    {
        proof {
            reveal(spec_exec);
        }
        match instr {
            Instruction::iDXYN(reg_x, reg_y, num_rows) => {
                self.exec_draw(reg_x, reg_y, num_rows);
                Flow::Continue
            },
            Instruction::iFX33(reg) => {
                let v = self.get_from_register(reg);
                let digits = crate::util::hex2decimal(v);
                let base: usize = self.i as usize;
                if base < 4096 {
                    self.memory.set(base, digits[0]);
                }
                if base + 1 < 4096 {
                    self.memory.set(base + 1, digits[1]);
                }
                if base + 2 < 4096 {
                    self.memory.set(base + 2, digits[2]);
                }
                Flow::Continue
            },
            Instruction::iFX55(reg) => {
                self.exec_store_regs(reg);
                Flow::Continue
            },
            Instruction::iFX65(reg) => {
                self.exec_load_regs(reg);
                Flow::Continue
            },
            _ => {
                proof {
                    assert(false);
                }
                Flow::Continue
            },
        }
    }

    /// Fetch the instruction word at the instruction pointer and decode
    /// it, advancing the pointer past the word. When either byte lies out
    /// of range the pointer stays put and nothing is fetched.
    fn fetch_instruction(&mut self) -> (instr: Option<Instruction>)
        requires
            old(self)@.wf(),
        ensures
            final(self)@.wf(),
            old(self)@.ip + 1 < 4096 ==> final(self)@ == (CpuView {
                ip: (old(self)@.ip + 2) as nat,
                ..old(self)@
            }) && instr == spec_decode(
                old(self)@.memory[old(self)@.ip as int],
                old(self)@.memory[old(self)@.ip as int + 1],
            ),
            old(self)@.ip + 1 >= 4096 ==> final(self)@ == old(self)@ && instr is None,
    {
        if self.ip + 1 < 4096 {
            let instruction_byte_1 = self.memory[self.ip];
            let instruction_byte_2 = self.memory[self.ip + 1];
            self.ip += 2;
            decode_instruction(instruction_byte_1, instruction_byte_2)
        } else {
            None
        }
    }

    /// One fetch-decode-execute step, reported as the tick loop sees it.
    fn step(&mut self) -> (flow: Flow)
        requires
            old(self)@.wf(),
        ensures
            final(self)@.wf(),
            spec_step(old(self)@) matches StepOut::Halted(v) ==> flow is Halt && final(self)@
                == v,
            spec_step(old(self)@) matches StepOut::Stepped(v) ==> flow is Continue
                && final(self)@ == v,
            spec_step(old(self)@) matches StepOut::Faulted(e, v) ==> flow == Flow::Fault(e)
                && final(self)@ == v,
    {
        let ghost s = self@;
        match self.fetch_instruction() {
            None => Flow::Halt,
            Some(instruction) => {
                proof {
                    crate::instruction::lemma_decode_valid(
                        s.memory[s.ip as int],
                        s.memory[s.ip as int + 1],
                    );
                }
                self.execute(instruction)
            },
        }
    }

    /// The fetch-decode-execute loop of one tick: run instructions until
    /// the per-tick budget is spent, no instruction is at the pointer, or
    /// the program faults.
    #[verifier::loop_isolation(false)]
    #[verifier::rlimit(50)]
    fn interpret(&mut self) -> (r: Result<(), CpuError>)
        requires
            old(self)@.wf(),
        ensures
            final(self)@.wf(),
            final(self)@ == spec_run(old(self)@, INSTRUCTIONS_PER_CYCLE as nat).0,
            spec_run(old(self)@, INSTRUCTIONS_PER_CYCLE as nat).1 is None ==> r is Ok,
            spec_run(old(self)@, INSTRUCTIONS_PER_CYCLE as nat).1 matches Some(e) ==> r
                == Err::<(), CpuError>(e),
    {
        let ghost v0 = self@;
        let mut instruction_count: u32 = 0;
        while instruction_count < INSTRUCTIONS_PER_CYCLE
            invariant
                self@.wf(),
                instruction_count <= INSTRUCTIONS_PER_CYCLE,
                spec_run(v0, INSTRUCTIONS_PER_CYCLE as nat) == spec_run(
                    self@,
                    (INSTRUCTIONS_PER_CYCLE - instruction_count) as nat,
                ),
            decreases INSTRUCTIONS_PER_CYCLE - instruction_count,
        {
            match self.step() {
                Flow::Continue => {
                    instruction_count += 1;
                },
                Flow::Halt => {
                    return Ok(());
                },
                Flow::Fault(e) => {
                    return Err(e);
                },
            }
        }
        Ok(())
    }

    /// The public entry point of one machine cycle: run a bounded burst
    /// of instructions and report a stack fault, if one occurred, to the
    /// host. Halt conditions (no instruction at the pointer) end the
    /// burst quietly.
    pub fn tick(&mut self) -> (r: Result<(), CpuError>)
        requires
            old(self)@.wf(),
        ensures
            final(self)@.wf(),
            final(self)@ == spec_run(old(self)@, INSTRUCTIONS_PER_CYCLE as nat).0,
            spec_run(old(self)@, INSTRUCTIONS_PER_CYCLE as nat).1 is None ==> r is Ok,
            spec_run(old(self)@, INSTRUCTIONS_PER_CYCLE as nat).1 matches Some(e) ==> r
                == Err::<(), CpuError>(e),
    {
        let r = self.interpret();
        if self.clock < u128::MAX {
            self.clock = self.clock + 1;
        }
        r
    }
}

impl Default for Cpu {
    /// A machine in its starting state.
    fn default() -> (c: Self)
        ensures
            c@ == initial_cpu(),
            c@.wf(),
    {
        Cpu::new()
    }
}

} // verus!
