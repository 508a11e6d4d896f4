//! The processor: registers, memory, and the units it drives.

pub mod alu;
pub mod flags;
pub mod instruction;
pub mod table;

use vstd::prelude::*;
use vstd::slice::slice_subrange;
use vstd::string::StringExecFns;
use crate::apu::Apu;
use crate::apu::ApuView;
use crate::apu::Command;
use crate::cpu::flags::CARRY;
use crate::cpu::flags::NEGATIVE;
use crate::cpu::flags::OVERFLOW;
use crate::cpu::flags::ZERO;
use crate::cpu::flags::lemma_set_flag;
use crate::cpu::flags::valid_flags;
use crate::cpu::instruction::Operands;
use crate::cpu::instruction::decode;
use crate::cpu::instruction::execute;
use crate::cpu::instruction::follows;
use crate::cpu::instruction::format_instruction;
use crate::cpu::instruction::spec_decode;
use crate::cpu::instruction::spec_format;
use crate::cpu::table::Action;
use crate::gpu::Gpu;
use crate::gpu::GpuView;
use crate::gpu::PIXELS;
use crate::rom::Rom;
use crate::rom::RomView;
use crate::text::push_hex_byte;
use crate::text::spec_hex_byte;
use crate::util::bitflag;
use crate::util::deserialize;
use crate::util::serialize;
use crate::util::set_bitflag;
use crate::util::spec_bitflag;
use crate::util::spec_set_bitflag;
use crate::util::spec_signed;
use crate::util::spec_unsigned;
use crate::util::spec_word;

verus! {

/// Bytes of memory.
pub const MEMORY_SIZE: usize = 0x1_0000;

/// Where the stack pointer starts.
pub const STACK_START: u16 = 0xFDF0;

/// The address at which the first controller's buttons are latched.
pub const INPUT_ONE: u16 = 0xFFF0;

/// The address at which the second controller's buttons are latched.
pub const INPUT_TWO: u16 = 0xFFF2;

/// The Xorshift generator of the `rand` crate. Nothing is said of what it
/// holds.
#[verifier::external_type_specification]
#[verifier::external_body]
pub struct ExXorShiftRng(rand::XorShiftRng);

/// `rand::weak_rng`: a generator seeded from the thread's own. Nothing is
/// claimed of it.
#[verifier::external_body]
#[allow(deprecated)]
fn weak_rng() -> rand::XorShiftRng {
    rand::weak_rng()
}

/// `rand::Rng::gen_range` from 0: by its documentation, a value in the range
/// from `low` inclusive to `high` exclusive, with a panic unless
/// `low < high`. The contract claims the range and no more.
#[verifier::external_body]
fn gen_range(rng: &mut rand::XorShiftRng, high: u32) -> (n: u32)
    requires
        high > 0,
    ensures
        n < high,
{
    rand::Rng::gen_range(rng, 0, high)
}

/// A condition on which the machine stops.
#[derive(Clone, Copy, Debug, PartialEq, Eq, Structural)]
pub enum Fault {
    /// The byte is no opcode of the instruction set.
    UnknownOpcode(u8),
    /// A division, or the frequency of a tone, was zero.
    DivisionByZero,
    /// What was to be read or written at this address runs past the end of
    /// memory.
    OutOfBounds(u16),
}

impl Fault {
    /// The fault in words.
    pub open spec fn spec_message(self) -> Seq<char> {
        match self {
            Fault::UnknownOpcode(byte) => "Unknown Opcode 0x"@ + spec_hex_byte(byte),
            Fault::DivisionByZero => "Division by zero"@,
            Fault::OutOfBounds(addr) => "Access past the end of memory at 0x"@ + spec_hex_byte(
                (addr / 256) as u8,
            ) + spec_hex_byte((addr % 256) as u8),
        }
    }

    pub fn message(&self) -> (s: String)
        ensures
            s@ == self.spec_message(),
    {
        match *self {
            Fault::UnknownOpcode(byte) => {
                let mut s = String::from_str("Unknown Opcode 0x");
                push_hex_byte(&mut s, byte);
                s
            },
            Fault::DivisionByZero => String::from_str("Division by zero"),
            Fault::OutOfBounds(addr) => {
                let mut s = String::from_str("Access past the end of memory at 0x");
                push_hex_byte(&mut s, (addr / 256) as u8);
                push_hex_byte(&mut s, (addr % 256) as u8);
                s
            },
        }
    }
}

pub struct Cpu {
    /// CPU registers
    regs: Registers,
    /// The `ROM` / `RAM` memory, it has a size of 64 KB
    memory: Vec<u8>,
    /// The GPU
    gpu: Gpu,
    /// The APU
    apu: Apu,
    /// The random number generator
    rng: rand::XorShiftRng,
    /// Flag to signal that the cpu is waiting for `VBLNK`
    wait_vblank: bool,
}

struct Registers {
    /// program counter `PC`
    pc: u16,
    /// stack pointer `SP` (start at 0xFDF0/512 B)
    sp: u16,
    /// general purpose registers (`R0` .. `RF`)
    r: [i16; 16],
    /// flag register `FLAGS` (`carry`, `zero`, `overflow`, `negative`)
    flags: u8,
}

/// The machine's state as mathematical values. The random number generator
/// is no part of it.
pub struct CpuView {
    pub pc: u16,
    pub sp: u16,
    pub r: Seq<i16>,
    pub flags: u8,
    pub memory: Seq<u8>,
    pub gpu: GpuView,
    pub apu: ApuView,
    pub wait_vblank: bool,
}

/// An address moved by `n`, wrapping round the address space once at most.
pub open spec fn spec_offset(addr: u16, n: int) -> u16 {
    if addr + n < 0 {
        (addr + n + 0x1_0000) as u16
    } else if addr + n >= 0x1_0000 {
        (addr + n - 0x1_0000) as u16
    } else {
        (addr + n) as u16
    }
}

/// Move an address by `n`, wrapping round the address space.
pub fn offset(addr: u16, n: i16) -> (r: u16)
    ensures
        r == spec_offset(addr, n as int),
{
    let moved: i32 = addr as i32 + n as i32;
    if moved < 0 {
        (moved + 0x1_0000) as u16
    } else if moved >= 0x1_0000 {
        (moved - 0x1_0000) as u16
    } else {
        moved as u16
    }
}

/// The memory of a machine that has just been given a program: the program
/// from address 0, and zero in every byte behind it.
pub open spec fn spec_image(rom: Seq<u8>) -> Seq<u8> {
    Seq::new(
        MEMORY_SIZE as nat,
        |a: int|
            if a < rom.len() {
                rom[a]
            } else {
                0u8
            },
    )
}

impl CpuView {
    /// Sixteen registers, 64 KB of memory, no stray bit in the flag
    /// register, and both units well formed.
    pub open spec fn wf(self) -> bool {
        &&& self.r.len() == 16
        &&& self.memory.len() == MEMORY_SIZE
        &&& valid_flags(self.flags)
        &&& self.gpu.wf()
        &&& self.apu.wf()
    }

    /// A machine that has just been given a program.
    pub open spec fn boot(gpu: GpuView, apu: ApuView, rom: RomView) -> CpuView {
        CpuView {
            pc: rom.start,
            sp: STACK_START,
            r: Seq::new(16, |i: int| 0i16),
            flags: 0,
            memory: spec_image(rom.rom),
            gpu,
            apu,
            wait_vblank: false,
        }
    }

    pub open spec fn carry(self) -> bool {
        spec_bitflag(self.flags, CARRY)
    }

    pub open spec fn zero(self) -> bool {
        spec_bitflag(self.flags, ZERO)
    }

    pub open spec fn overflow(self) -> bool {
        spec_bitflag(self.flags, OVERFLOW)
    }

    pub open spec fn negative(self) -> bool {
        spec_bitflag(self.flags, NEGATIVE)
    }

    /// The 16-bit value at an address, low byte first.
    pub open spec fn word(self, addr: u16) -> i16 {
        spec_signed(spec_word(self.memory[addr as int], self.memory[addr + 1]))
    }

    /// Memory with a 16-bit value put at an address, low byte first.
    pub open spec fn stored(self, addr: u16, val: i16) -> Seq<u8> {
        self.memory.update(addr as int, (spec_unsigned(val) % 256) as u8).update(
            addr + 1,
            (spec_unsigned(val) / 256) as u8,
        )
    }

    /// The palette entry packed in the three bytes at `at`: red, green, blue.
    pub open spec fn color(self, at: int) -> u32 {
        (0x1_0000 * self.memory[at] + 0x100 * self.memory[at + 1] + self.memory[at + 2]) as u32
    }

    /// The palette of sixteen entries that lies at an address.
    pub open spec fn palette(self, addr: u16) -> Seq<u32> {
        Seq::new(16, |i: int| self.color(addr + 3 * i))
    }

    /// What lies in memory from an address on: the data of a sprite.
    pub open spec fn sprite(self, addr: u16) -> Seq<u8> {
        self.memory.subrange(addr as int, MEMORY_SIZE as int)
    }
}

impl View for Cpu {
    type V = CpuView;

    closed spec fn view(&self) -> CpuView {
        CpuView {
            pc: self.regs.pc,
            sp: self.regs.sp,
            r: self.regs.r@,
            flags: self.regs.flags,
            memory: self.memory@,
            gpu: self.gpu@,
            apu: self.apu@,
            wait_vblank: self.wait_vblank,
        }
    }
}

impl Cpu {
    /// The invariant of a machine: that of its view.
    pub open spec fn wf(&self) -> bool {
        self@.wf()
    }

    pub fn new(gpu: Gpu, apu: Apu, rom: &Rom) -> (cpu: Cpu)
        requires
            gpu.wf(),
            apu.wf(),
            rom.wf(),
            rom@.size <= MEMORY_SIZE,
        ensures
            cpu.wf(),
            cpu@ == CpuView::boot(gpu@, apu@, rom@),
    {
        let regs = Registers { pc: rom.start(), sp: STACK_START, r: [0; 16], flags: 0 };
        let code = rom.rom();
        let mut memory: Vec<u8> = vec![0u8; MEMORY_SIZE];
        let mut i: usize = 0;
        while i < code.len()
            invariant
                i <= code@.len() <= MEMORY_SIZE,
                memory@.len() == MEMORY_SIZE,
                forall|a: int| 0 <= a < i ==> memory@[a] == code@[a],
                forall|a: int| i <= a < MEMORY_SIZE ==> memory@[a] == 0,
            decreases code@.len() - i,
        {
            memory[i] = code[i];
            i += 1;
        }
        let cpu = Cpu { regs, memory, gpu, apu, rng: weak_rng(), wait_vblank: false };
        proof {
            assert(cpu@.memory =~= spec_image(rom@.rom));
            assert(cpu@.r =~= Seq::new(16, |i: int| 0i16));
        }
        cpu
    }

    /// Read the 16-bit value at the specified address
    pub fn read(&self, addr: u16) -> (val: i16)
        requires
            self.wf(),
            addr < 0xFFFF,
        ensures
            val == self@.word(addr),
    {
        deserialize(slice_subrange(self.memory.as_slice(), addr as usize, MEMORY_SIZE))
    }

    /// Read the byte at the specified address
    pub fn read_byte(&self, addr: u16) -> (val: u8)
        requires
            self.wf(),
        ensures
            val == self@.memory[addr as int],
    {
        self.memory[addr as usize]
    }

    /// Write a 16-bit value to the memory at the specified address
    pub fn write(&mut self, addr: u16, val: i16)
        requires
            old(self).wf(),
            addr < 0xFFFF,
        ensures
            final(self).wf(),
            final(self)@ == (CpuView { memory: old(self)@.stored(addr, val), ..old(self)@ }),
    {
        let buf = serialize(&val);
        self.memory[addr as usize] = buf[0];
        self.memory[addr as usize + 1] = buf[1];
    }

    pub fn render(&mut self, buffer: &mut [u32])
        requires
            old(self).wf(),
            old(self)@.gpu.bg < 16,
        ensures
            final(self).wf(),
            final(self)@ == (CpuView {
                gpu: GpuView { vblank: true, ..old(self)@.gpu },
                ..old(self)@
            }),
            final(buffer)@ == old(self)@.gpu.rendered(old(buffer)@),
    {
        self.gpu.render(buffer);
    }

    /// Get the carry flag
    pub fn carry(&self) -> (r: bool)
        ensures
            r == self@.carry(),
    {
        bitflag(self.regs.flags, CARRY)
    }

    /// Set the carry flag
    pub fn set_carry(&mut self, val: bool)
        requires
            old(self).wf(),
        ensures
            final(self).wf(),
            final(self)@ == (CpuView {
                flags: spec_set_bitflag(old(self)@.flags, CARRY, val),
                ..old(self)@
            }),
    {
        proof {
            lemma_set_flag(self.regs.flags, CARRY, val);
        }
        set_bitflag(&mut self.regs.flags, CARRY, val);
    }

    /// Get the zero flag
    pub fn zero(&self) -> (r: bool)
        ensures
            r == self@.zero(),
    {
        bitflag(self.regs.flags, ZERO)
    }

    /// Set the zero flag
    pub fn set_zero(&mut self, val: bool)
        requires
            old(self).wf(),
        ensures
            final(self).wf(),
            final(self)@ == (CpuView {
                flags: spec_set_bitflag(old(self)@.flags, ZERO, val),
                ..old(self)@
            }),
    {
        proof {
            lemma_set_flag(self.regs.flags, ZERO, val);
        }
        set_bitflag(&mut self.regs.flags, ZERO, val);
    }

    /// Get the overflow flag
    pub fn overflow(&self) -> (r: bool)
        ensures
            r == self@.overflow(),
    {
        bitflag(self.regs.flags, OVERFLOW)
    }

    /// Set the overflow flag
    pub fn set_overflow(&mut self, val: bool)
        requires
            old(self).wf(),
        ensures
            final(self).wf(),
            final(self)@ == (CpuView {
                flags: spec_set_bitflag(old(self)@.flags, OVERFLOW, val),
                ..old(self)@
            }),
    {
        proof {
            lemma_set_flag(self.regs.flags, OVERFLOW, val);
        }
        set_bitflag(&mut self.regs.flags, OVERFLOW, val);
    }

    /// Get the negative flag
    pub fn negative(&self) -> (r: bool)
        ensures
            r == self@.negative(),
    {
        bitflag(self.regs.flags, NEGATIVE)
    }

    /// Set the negative flag
    pub fn set_negative(&mut self, val: bool)
        requires
            old(self).wf(),
        ensures
            final(self).wf(),
            final(self)@ == (CpuView {
                flags: spec_set_bitflag(old(self)@.flags, NEGATIVE, val),
                ..old(self)@
            }),
    {
        proof {
            lemma_set_flag(self.regs.flags, NEGATIVE, val);
        }
        set_bitflag(&mut self.regs.flags, NEGATIVE, val);
    }

    /// The flag register
    pub fn flags(&self) -> (r: u8)
        ensures
            r == self@.flags,
    {
        self.regs.flags
    }

    /// Replace the flag register
    pub fn set_flags(&mut self, flags: u8)
        requires
            old(self).wf(),
            valid_flags(flags),
        ensures
            final(self).wf(),
            final(self)@ == (CpuView { flags, ..old(self)@ }),
    {
        self.regs.flags = flags;
    }

    pub fn pc(&self) -> (r: u16)
        ensures
            r == self@.pc,
    {
        self.regs.pc
    }

    /// Continue at another address
    pub fn set_pc(&mut self, pc: u16)
        ensures
            final(self)@ == (CpuView { pc, ..old(self)@ }),
    {
        self.regs.pc = pc;
    }

    pub fn sp(&self) -> (r: u16)
        ensures
            r == self@.sp,
    {
        self.regs.sp
    }

    /// Move the stack pointer
    pub fn set_sp(&mut self, sp: u16)
        ensures
            final(self)@ == (CpuView { sp, ..old(self)@ }),
    {
        self.regs.sp = sp;
    }

    pub fn r(&self, index: u8) -> (val: i16)
        requires
            index < 16,
        ensures
            val == self@.r[index as int],
    {
        self.regs.r[index as usize]
    }

    pub fn set_r(&mut self, index: u8, value: i16)
        requires
            index < 16,
        ensures
            final(self)@ == (CpuView {
                r: old(self)@.r.update(index as int, value),
                ..old(self)@
            }),
    {
        self.regs.r[index as usize] = value;
    }

    /// Latch the buttons of the two controllers
    pub fn set_input(&mut self, input: (u8, u8))
        requires
            old(self).wf(),
        ensures
            final(self).wf(),
            final(self)@ == (CpuView {
                memory: old(self)@.memory.update(INPUT_ONE as int, input.0).update(
                    INPUT_TWO as int,
                    input.1,
                ),
                ..old(self)@
            }),
    {
        self.memory[INPUT_ONE as usize] = input.0;
        self.memory[INPUT_TWO as usize] = input.1;
    }

    pub fn wait_vblank(&self) -> (r: bool)
        ensures
            r == self@.wait_vblank,
    {
        self.wait_vblank
    }

    /// Say whether the program waits for the next frame
    pub fn set_wait_vblank(&mut self, val: bool)
        ensures
            final(self)@ == (CpuView { wait_vblank: val, ..old(self)@ }),
    {
        self.wait_vblank = val;
    }

    /// The compositor
    pub fn gpu(&self) -> (gpu: &Gpu)
        ensures
            gpu@ == self@.gpu,
    {
        &self.gpu
    }

    /// The sound unit
    pub fn apu(&self) -> (apu: &Apu)
        ensures
            apu@ == self@.apu,
    {
        &self.apu
    }

    /// Clear the foreground and the background colour
    pub fn clear_screen(&mut self)
        requires
            old(self).wf(),
        ensures
            final(self).wf(),
            final(self)@ == (CpuView {
                gpu: GpuView {
                    fg: Seq::new(PIXELS as nat, |p: int| 0u8),
                    bg: 0,
                    ..old(self)@.gpu
                },
                ..old(self)@
            }),
    {
        self.gpu.clear();
    }

    /// Whether a frame has been rendered since the last instruction
    pub fn vblank(&self) -> (r: bool)
        ensures
            r == self@.gpu.vblank,
    {
        self.gpu.vblank()
    }

    /// Say whether a frame has been rendered since the last instruction
    pub fn set_vblank(&mut self, val: bool)
        ensures
            final(self)@ == (CpuView {
                gpu: GpuView { vblank: val, ..old(self)@.gpu },
                ..old(self)@
            }),
    {
        self.gpu.set_vblank(val);
    }

    /// Choose the background colour
    pub fn set_bg(&mut self, n: u8)
        ensures
            final(self)@ == (CpuView { gpu: GpuView { bg: n, ..old(self)@.gpu }, ..old(self)@ }),
    {
        self.gpu.set_bg(n);
    }

    /// Choose the size of the sprites to come
    pub fn set_sprite_size(&mut self, w: u8, h: u8)
        ensures
            final(self)@ == (CpuView {
                gpu: GpuView { spritew: w, spriteh: h, ..old(self)@.gpu },
                ..old(self)@
            }),
    {
        self.gpu.set_sprite_size(w, h);
    }

    /// Choose how the sprites to come are flipped
    pub fn set_flip(&mut self, hflip: bool, vflip: bool)
        ensures
            final(self)@ == (CpuView {
                gpu: GpuView { hflip, vflip, ..old(self)@.gpu },
                ..old(self)@
            }),
    {
        self.gpu.set_hflip(hflip);
        self.gpu.set_vflip(vflip);
    }

    /// Whether memory holds, from `addr` on, every byte that a draw at
    /// `(x, y)` reads
    pub fn sprite_fits(&self, x: i16, y: i16, addr: u16) -> (r: bool)
        requires
            self.wf(),
        ensures
            r == self@.gpu.sprite_fits(x as int, y as int, self@.sprite(addr).len() as int),
    {
        self.gpu.sprite_fits(x, y, MEMORY_SIZE - addr as usize)
    }

    /// Draw the sprite whose data lies at `addr`
    pub fn draw(&mut self, x: i16, y: i16, addr: u16) -> (overlap: bool)
        requires
            old(self).wf(),
            old(self)@.gpu.sprite_fits(x as int, y as int, old(self)@.sprite(addr).len() as int),
        ensures
            final(self).wf(),
            final(self)@ == (CpuView {
                gpu: GpuView {
                    fg: old(self)@.gpu.drawn(x as int, y as int, old(self)@.sprite(addr)),
                    ..old(self)@.gpu
                },
                ..old(self)@
            }),
            overlap == old(self)@.gpu.overlaps(x as int, y as int, old(self)@.sprite(addr)),
    {
        let sprite = slice_subrange(self.memory.as_slice(), addr as usize, MEMORY_SIZE);
        self.gpu.draw(x, y, sprite)
    }

    /// Take the palette from the 48 bytes at `addr`
    pub fn load_palette(&mut self, addr: u16)
        requires
            old(self).wf(),
            addr + 48 <= MEMORY_SIZE,
        ensures
            final(self).wf(),
            final(self)@ == (CpuView {
                gpu: GpuView { palette: old(self)@.palette(addr), ..old(self)@.gpu },
                ..old(self)@
            }),
    {
        let mut palette: [u32; 16] = [0; 16];
        let base: usize = addr as usize;
        let mut i: usize = 0;
        while i < 16
            invariant
                i <= 16,
                base == addr,
                base + 48 <= MEMORY_SIZE,
                self.wf(),
                self == old(self),
                forall|j: int| 0 <= j < i ==> palette@[j] == self@.color(addr + 3 * j),
            decreases 16 - i,
        {
            let red: u32 = self.memory[base + 3 * i] as u32;
            let green: u32 = self.memory[base + 3 * i + 1] as u32;
            let blue: u32 = self.memory[base + 3 * i + 2] as u32;
            palette[i] = 0x1_0000 * red + 0x100 * green + blue;
            i += 1;
        }
        assert(palette@ =~= self@.palette(addr));
        self.gpu.set_palette(palette);
    }

    /// Arm a voice
    pub fn play(&mut self, frequency: u16, duration: u16, adsr: bool)
        requires
            old(self).wf(),
            frequency > 0,
        ensures
            final(self).wf(),
            final(self)@ == (CpuView {
                apu: old(self)@.apu.play(frequency, duration, adsr),
                ..old(self)@
            }),
    {
        self.apu.play(frequency, duration, adsr);
    }

    /// Silence the voice
    pub fn stop_sound(&mut self)
        requires
            old(self).wf(),
        ensures
            final(self).wf(),
            final(self)@ == (CpuView { apu: old(self)@.apu.stop(), ..old(self)@ }),
    {
        self.apu.stop();
    }

    /// Give the sound unit its settings
    pub fn sound_settings(
        &mut self,
        attack: u8,
        decay: u8,
        sustain: u8,
        release: u8,
        volume: u8,
        wave: u8,
    )
        requires
            old(self).wf(),
            attack < 16,
            decay < 16,
            release < 16,
        ensures
            final(self).wf(),
            final(self)@ == (CpuView {
                apu: old(self)@.apu.settings(attack, decay, sustain, release, volume, wave),
                ..old(self)@
            }),
    {
        self.apu.settings(attack, decay, sustain, release, volume, wave);
    }

    /// What the host's sound device has to do, if anything has been played
    /// or stopped since this was last asked
    pub fn sound_command(&mut self) -> (r: Option<Command>)
        requires
            old(self).wf(),
        ensures
            final(self).wf(),
            final(self)@ == (CpuView {
                apu: ApuView { pending: false, ..old(self)@.apu },
                ..old(self)@
            }),
            !old(self)@.apu.pending ==> r is None,
            old(self)@.apu.pending && !old(self)@.apu.playing ==> r == Some(Command::Pause),
            old(self)@.apu.pending && old(self)@.apu.playing ==> (r matches Some(Command::Play(g))
                && g@ == old(self)@.apu.voice),
    {
        self.apu.command()
    }

    /// A number from 0 to `max`, both included, from the random number
    /// generator. The machine's state stays as it is.
    pub fn roll(&mut self, max: u16) -> (n: u32)
        ensures
            n <= max,
            final(self)@ == old(self)@,
    {
        gen_range(&mut self.rng, max as u32 + 1)
    }

    /// Execute one CPU cycle. What `RND` draws comes from the machine's
    /// random number generator and is at most the instruction's operand;
    /// for every such number the machine does as its rules say.
    pub fn step(&mut self) -> (r: Result<(), Fault>)
        requires
            old(self).wf(),
        ensures
            final(self).wf(),
            exists|roll: u32|
                roll <= old(self)@.roll_max(old(self)@.pc) && follows(
                    old(self)@,
                    #[trigger] old(self)@.step(roll),
                    r,
                    final(self)@,
                ),
    {
        let pc = self.regs.pc;
        match decode(self, pc) {
            Err(f) => {
                assert(follows(self@, self@.step(0), Err(f), self@));
                Err(f)
            },
            Ok((entry, args)) => {
                let roll: u32 = match entry.action {
                    Action::Rnd => self.roll(args.hhll),
                    _ => 0,
                };
                let r = self.cycle(entry.action, args, roll);
                assert(follows(old(self)@, old(self)@.step(roll), r, self@));
                r
            },
        }
    }

    /// Execute one CPU cycle, with `roll` for the number that `RND` draws.
    pub fn step_with(&mut self, roll: u32) -> (r: Result<(), Fault>)
        requires
            old(self).wf(),
        ensures
            final(self).wf(),
            follows(old(self)@, old(self)@.step(roll), r, final(self)@),
    {
        let pc = self.regs.pc;
        match decode(self, pc) {
            Err(f) => Err(f),
            Ok((entry, args)) => self.cycle(entry.action, args, roll),
        }
    }

    /// Move the program counter on, execute, and take back the signal that
    /// a frame was rendered; on a fault, put everything back.
    fn cycle(&mut self, action: Action, args: Operands, roll: u32) -> (r: Result<(), Fault>)
        requires
            old(self).wf(),
            args.wf(),
        ensures
            final(self).wf(),
            follows(
                old(self)@,
                match (CpuView {
                    wait_vblank: false,
                    pc: spec_offset(old(self)@.pc, 4),
                    ..old(self)@
                }).execute(action, args, roll) {
                    Err(f) => Err(f),
                    Ok(s) => Ok(CpuView { gpu: GpuView { vblank: false, ..s.gpu }, ..s }),
                },
                r,
                final(self)@,
            ),
    {
        let pc = self.regs.pc;
        let waiting = self.wait_vblank;
        self.wait_vblank = false;
        self.regs.pc = offset(pc, 4);
        match execute(self, action, args, roll) {
            Ok(()) => {
                self.gpu.set_vblank(false);
                Ok(())
            },
            Err(f) => {
                self.wait_vblank = waiting;
                self.regs.pc = pc;
                Err(f)
            },
        }
    }

    /// The instruction at an address as text
    pub fn format_instruction(&self, addr: u16) -> (r: Result<String, Fault>)
        requires
            self.wf(),
        ensures
            match spec_decode(self@.memory, addr) {
                Ok((entry, args)) => r matches Ok(s) && s@ == spec_format(entry, args),
                Err(f) => r matches Err(e) && e == f,
            },
    {
        format_instruction(self, addr)
    }
}

} // verus!
