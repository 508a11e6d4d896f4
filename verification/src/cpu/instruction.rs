//! The instruction engine: what each instruction makes of the machine, and
//! how an instruction is written.

use vstd::prelude::*;
use vstd::string::StringExecFns;
use crate::cpu::Cpu;
use crate::cpu::CpuView;
use crate::cpu::Fault;
use crate::cpu::MEMORY_SIZE;
use crate::cpu::alu::AluOp;
use crate::cpu::alu::alu;
use crate::cpu::alu::spec_alu;
use crate::cpu::flags::CARRY;
use crate::cpu::flags::condition;
use crate::cpu::flags::condition_name;
use crate::cpu::flags::lemma_pack;
use crate::cpu::flags::masked;
use crate::cpu::flags::pack;
use crate::cpu::flags::spec_condition_name;
use crate::cpu::flags::spec_masked;
use crate::cpu::flags::spec_pack;
use crate::cpu::flags::spec_test;
use crate::cpu::offset;
use crate::cpu::spec_offset;
use crate::cpu::table::Action;
use crate::cpu::table::Entry;
use crate::cpu::table::Form;
use crate::cpu::table::Shape;
use crate::cpu::table::lookup;
use crate::cpu::table::spec_lookup;
use crate::gpu::GpuView;
use crate::gpu::PIXELS;
use crate::text::digit;
use crate::text::push_decimal;
use crate::text::spec_decimal;
use crate::text::spec_digit;
use crate::util::half_bytes;
use crate::util::signed;
use crate::util::spec_set_bitflag;
use crate::util::spec_signed;
use crate::util::spec_unsigned;
use crate::util::spec_word;
use crate::util::unsigned;
use crate::util::word;

verus! {

/// The fields of an instruction word. Which of them an instruction uses is
/// the instruction's own matter.
#[derive(Clone, Copy, Debug, PartialEq, Eq, Structural)]
pub struct Operands {
    /// Low half of the second byte
    pub rx: u8,
    /// High half of the second byte
    pub ry: u8,
    /// Low half of the third byte
    pub rz: u8,
    /// The third byte
    pub ll: u8,
    /// The fourth byte
    pub hh: u8,
    /// The third and fourth byte as a number, low byte first
    pub hhll: u16,
    /// The second byte whole: a condition, or attack and decay
    pub ad: u8,
}

impl Operands {
    /// The three register numbers are below sixteen.
    pub open spec fn wf(self) -> bool {
        self.rx < 16 && self.ry < 16 && self.rz < 16
    }
}

/// The fields of the instruction word whose bytes after the opcode are
/// `b1`, `b2`, `b3`.
pub open spec fn spec_operands(b1: u8, b2: u8, b3: u8) -> Operands {
    Operands {
        rx: (b1 % 16) as u8,
        ry: (b1 / 16) as u8,
        rz: (b2 % 16) as u8,
        ll: b2,
        hh: b3,
        hhll: spec_word(b2, b3),
        ad: b1,
    }
}

/// Take an instruction word apart.
pub fn operands(b1: u8, b2: u8, b3: u8) -> (args: Operands)
    ensures
        args == spec_operands(b1, b2, b3),
        args.wf(),
{
    let (ry, rx) = half_bytes(b1);
    let (_, rz) = half_bytes(b2);
    Operands { rx, ry, rz, ll: b2, hh: b3, hhll: word(b2, b3), ad: b1 }
}

/// The instruction at an address: its line of the table and its operands.
/// The four bytes of its word must lie in memory, and the first of them must
/// be an opcode.
pub open spec fn spec_decode(memory: Seq<u8>, addr: u16) -> Result<(Entry, Operands), Fault> {
    if addr + 4 > MEMORY_SIZE {
        Err(Fault::OutOfBounds(addr))
    } else {
        match spec_lookup(memory[addr as int]) {
            None => Err(Fault::UnknownOpcode(memory[addr as int])),
            Some(entry) => Ok(
                (entry, spec_operands(memory[addr + 1], memory[addr + 2], memory[addr + 3])),
            ),
        }
    }
}

/// What a result and a state must be, given what the machine's rules make
/// of the state before: on success the state that they give, on a fault the
/// fault and the state before, untouched.
pub open spec fn follows(
    before: CpuView,
    rule: Result<CpuView, Fault>,
    r: Result<(), Fault>,
    after: CpuView,
) -> bool {
    match rule {
        Ok(s) => r is Ok && after == s,
        Err(f) => r == Err::<(), Fault>(f) && after == before,
    }
}

impl CpuView {
    pub open spec fn set_reg(self, index: u8, value: i16) -> CpuView {
        CpuView { r: self.r.update(index as int, value), ..self }
    }

    pub open spec fn jump(self, target: u16) -> CpuView {
        CpuView { pc: target, ..self }
    }

    /// A register loaded from memory.
    pub open spec fn load(self, index: u8, addr: u16) -> Result<CpuView, Fault> {
        if addr == 0xFFFF {
            Err(Fault::OutOfBounds(addr))
        } else {
            Ok(self.set_reg(index, self.word(addr)))
        }
    }

    /// A value stored to memory.
    pub open spec fn store(self, addr: u16, value: i16) -> Result<CpuView, Fault> {
        if addr == 0xFFFF {
            Err(Fault::OutOfBounds(addr))
        } else {
            Ok(CpuView { memory: self.stored(addr, value), ..self })
        }
    }

    /// A value put on the stack, which grows upwards.
    pub open spec fn push(self, value: i16) -> Result<CpuView, Fault> {
        if self.sp == 0xFFFF {
            Err(Fault::OutOfBounds(self.sp))
        } else {
            Ok(
                CpuView {
                    memory: self.stored(self.sp, value),
                    sp: spec_offset(self.sp, 2),
                    ..self
                },
            )
        }
    }

    /// The top of the stack taken off into a register.
    pub open spec fn pop(self, index: u8) -> Result<CpuView, Fault> {
        let sp = spec_offset(self.sp, -2);
        if sp == 0xFFFF {
            Err(Fault::OutOfBounds(sp))
        } else {
            Ok(CpuView { sp, r: self.r.update(index as int, self.word(sp)), ..self })
        }
    }

    /// The address of the next instruction put on the stack, and a jump.
    pub open spec fn call(self, target: u16) -> Result<CpuView, Fault> {
        match self.push(spec_signed(self.pc)) {
            Ok(s) => Ok(s.jump(target)),
            Err(f) => Err(f),
        }
    }

    /// A jump to the address on top of the stack, which is taken off.
    pub open spec fn ret(self) -> Result<CpuView, Fault> {
        let sp = spec_offset(self.sp, -2);
        if sp == 0xFFFF {
            Err(Fault::OutOfBounds(sp))
        } else {
            Ok(CpuView { sp, pc: spec_unsigned(self.word(sp)), ..self })
        }
    }

    /// The address of the `i`-th of sixteen words on the stack from `sp` on.
    pub open spec fn slot(sp: u16, i: int) -> u16 {
        spec_offset(sp, 2 * i)
    }

    /// Whether each of sixteen words from `sp` on lies in memory whole.
    pub open spec fn bank_fits(sp: u16) -> bool {
        forall|i: int| 0 <= i < 16 ==> #[trigger] Self::slot(sp, i) != 0xFFFF
    }

    /// Memory with the sixteen registers stored from `sp` on, in order,
    /// each low byte first.
    pub open spec fn banked(self, sp: u16, count: int) -> Seq<u8> {
        Seq::new(
            MEMORY_SIZE as nat,
            |a: int|
                {
                    let d = if a >= sp {
                        a - sp
                    } else {
                        a - sp + MEMORY_SIZE
                    };
                    if d < 2 * count {
                        if d % 2 == 0 {
                            (spec_unsigned(self.r[d / 2]) % 256) as u8
                        } else {
                            (spec_unsigned(self.r[d / 2]) / 256) as u8
                        }
                    } else {
                        self.memory[a]
                    }
                },
        )
    }

    /// All sixteen registers put on the stack, the first lowest.
    pub open spec fn push_all(self) -> Result<CpuView, Fault> {
        if !Self::bank_fits(self.sp) {
            Err(Fault::OutOfBounds(0xFFFF))
        } else {
            Ok(CpuView { memory: self.banked(self.sp, 16), sp: spec_offset(self.sp, 32), ..self })
        }
    }

    /// The registers after the topmost of sixteen words on the stack have
    /// been taken off into the registers from `from` on.
    pub open spec fn unbanked(self, sp: u16, from: int) -> Seq<i16> {
        Seq::new(
            16,
            |j: int|
                if j >= from {
                    self.word(Self::slot(sp, j))
                } else {
                    self.r[j]
                },
        )
    }

    /// All sixteen registers taken off the stack, the last first: what
    /// `push_all` stored is restored.
    pub open spec fn pop_all(self) -> Result<CpuView, Fault> {
        let sp = spec_offset(self.sp, -32);
        if !Self::bank_fits(sp) {
            Err(Fault::OutOfBounds(0xFFFF))
        } else {
            Ok(CpuView { r: self.unbanked(sp, 0), sp, ..self })
        }
    }

    /// The flag register taken off the stack: the low byte of the word on
    /// top, without the bits that are no flags.
    pub open spec fn pop_flags(self) -> CpuView {
        let sp = spec_offset(self.sp, -2);
        CpuView { sp, flags: spec_masked(self.memory[sp as int]), ..self }
    }

    /// A sprite drawn from the data at an address; the carry flag says
    /// whether it overlapped what was there.
    pub open spec fn draw(self, x: i16, y: i16, addr: u16) -> Result<CpuView, Fault> {
        let data = self.sprite(addr);
        if !self.gpu.sprite_fits(x as int, y as int, data.len() as int) {
            Err(Fault::OutOfBounds(addr))
        } else {
            Ok(
                CpuView {
                    gpu: GpuView { fg: self.gpu.drawn(x as int, y as int, data), ..self.gpu },
                    flags: spec_set_bitflag(
                        self.flags,
                        CARRY,
                        self.gpu.overlaps(x as int, y as int, data),
                    ),
                    ..self
                },
            )
        }
    }

    /// A tone of `hz` hertz.
    pub open spec fn tone(self, hz: u16, ms: u16, adsr: bool) -> Result<CpuView, Fault> {
        if hz == 0 {
            Err(Fault::DivisionByZero)
        } else {
            Ok(CpuView { apu: self.apu.play(hz, ms, adsr), ..self })
        }
    }

    /// A tone of the frequency that lies in memory at an address, shaped by
    /// the envelope.
    pub open spec fn tone_at(self, addr: u16, ms: u16) -> Result<CpuView, Fault> {
        if addr == 0xFFFF {
            Err(Fault::OutOfBounds(addr))
        } else {
            self.tone(spec_unsigned(self.word(addr)), ms, true)
        }
    }

    /// The palette taken from the 48 bytes at an address.
    pub open spec fn load_palette(self, addr: u16) -> Result<CpuView, Fault> {
        if addr + 48 > MEMORY_SIZE {
            Err(Fault::OutOfBounds(addr))
        } else {
            Ok(CpuView { gpu: GpuView { palette: self.palette(addr), ..self.gpu }, ..self })
        }
    }

    /// The second operand of an arithmetic instruction.
    pub open spec fn second(self, form: Form, args: Operands) -> i16 {
        match form {
            Form::Immediate | Form::TestImmediate => spec_signed(args.hhll),
            Form::Pair | Form::Triple | Form::TestPair => self.r[args.ry as int],
            Form::Own => self.r[args.rx as int],
        }
    }

    /// An arithmetic instruction. The flag register is cleared and then
    /// holds: zero, if the result is zero; negative, if it is below zero;
    /// carry and overflow as the operator raises them. The result goes to
    /// the register that the form names, if it names one.
    pub open spec fn math(self, op: AluOp, form: Form, args: Operands) -> Result<CpuView, Fault> {
        match spec_alu(op, self.r[args.rx as int], self.second(form, args)) {
            None => Err(Fault::DivisionByZero),
            Some(o) => {
                let flags = spec_pack(o.carry, o.value == 0, o.overflow, o.value < 0);
                match form {
                    Form::Immediate | Form::Pair | Form::Own => Ok(
                        CpuView { flags, r: self.r.update(args.rx as int, o.value), ..self },
                    ),
                    Form::Triple => Ok(
                        CpuView { flags, r: self.r.update(args.rz as int, o.value), ..self },
                    ),
                    Form::TestImmediate | Form::TestPair => Ok(CpuView { flags, ..self }),
                }
            },
        }
    }

    /// What an instruction makes of the machine. `roll` is the number drawn
    /// for it; only `RND` looks at it.
    pub open spec fn execute(self, action: Action, args: Operands, roll: u32) -> Result<
        CpuView,
        Fault,
    > {
        let rx = self.r[args.rx as int];
        let ry = self.r[args.ry as int];
        let rz = self.r[args.rz as int];
        match action {
            Action::Nop => Ok(self),
            Action::Cls => Ok(
                CpuView {
                    gpu: GpuView { fg: Seq::new(PIXELS as nat, |p: int| 0u8), bg: 0, ..self.gpu },
                    ..self
                },
            ),
            Action::Vblnk => Ok(
                if self.gpu.vblank {
                    self
                } else {
                    CpuView { pc: spec_offset(self.pc, -4), wait_vblank: true, ..self }
                },
            ),
            Action::Bgc => Ok(CpuView { gpu: GpuView { bg: args.ll, ..self.gpu }, ..self }),
            Action::Spr => Ok(
                CpuView {
                    gpu: GpuView { spritew: args.ll, spriteh: args.hh, ..self.gpu },
                    ..self
                },
            ),
            Action::Drw => self.draw(rx, ry, args.hhll),
            Action::DrwR => self.draw(rx, ry, spec_unsigned(rz)),
            Action::Rnd => Ok(self.set_reg(args.rx, spec_signed((roll % 0x1_0000) as u16))),
            Action::Flip => Ok(
                CpuView {
                    gpu: GpuView { hflip: args.hh > 1, vflip: args.hh % 2 == 1, ..self.gpu },
                    ..self
                },
            ),
            Action::Snd0 => Ok(CpuView { apu: self.apu.stop(), ..self }),
            Action::Tone(hz) => self.tone(hz, args.hhll, false),
            Action::Snp => self.tone_at(spec_unsigned(rx), args.hhll),
            Action::Sng => Ok(
                CpuView {
                    apu: self.apu.settings(
                        (args.ad / 16) as u8,
                        (args.ad % 16) as u8,
                        (args.ll / 16) as u8,
                        (args.ll % 16) as u8,
                        (args.hh / 16) as u8,
                        (args.hh % 16) as u8,
                    ),
                    ..self
                },
            ),
            Action::Jmp => Ok(self.jump(args.hhll)),
            Action::Jmc => Ok(
                if spec_test(self.flags, 0x9) {
                    self.jump(args.hhll)
                } else {
                    self
                },
            ),
            Action::Jx => Ok(
                if spec_test(self.flags, args.ad) {
                    self.jump(args.hhll)
                } else {
                    self
                },
            ),
            Action::Jme => Ok(
                if rx == ry {
                    self.jump(args.hhll)
                } else {
                    self
                },
            ),
            Action::Call => self.call(args.hhll),
            Action::Ret => self.ret(),
            Action::JmpR => Ok(self.jump(spec_unsigned(rx))),
            Action::Cx => if spec_test(self.flags, args.ad) {
                self.call(args.hhll)
            } else {
                Ok(self)
            },
            Action::CallR => self.call(spec_unsigned(rx)),
            Action::LdiR => Ok(self.set_reg(args.rx, spec_signed(args.hhll))),
            Action::LdiSp => Ok(CpuView { sp: args.hhll, ..self }),
            Action::Ldm => self.load(args.rx, args.hhll),
            Action::LdmR => self.load(args.rx, spec_unsigned(ry)),
            Action::Mov => Ok(self.set_reg(args.rx, ry)),
            Action::Stm => self.store(args.hhll, rx),
            Action::StmR => self.store(spec_unsigned(ry), rx),
            Action::Math(op, form) => self.math(op, form, args),
            Action::Push => self.push(rx),
            Action::Pop => self.pop(args.rx),
            Action::PushAll => self.push_all(),
            Action::PopAll => self.pop_all(),
            Action::PushF => self.push(self.flags as i16),
            Action::PopF => Ok(self.pop_flags()),
            Action::Pal => self.load_palette(args.hhll),
            Action::PalR => self.load_palette(spec_unsigned(rx)),
        }
    }

    /// What the instruction at an address makes of the machine.
    pub open spec fn run(self, addr: u16, roll: u32) -> Result<CpuView, Fault> {
        match spec_decode(self.memory, addr) {
            Err(f) => Err(f),
            Ok((entry, args)) => self.execute(entry.action, args, roll),
        }
    }

    /// The largest number that may be drawn for the instruction at an
    /// address: its last two bytes, as a number.
    pub open spec fn roll_max(self, addr: u16) -> int {
        spec_word(self.memory[addr + 2], self.memory[addr + 3]) as int
    }

    /// One cycle of the machine: the program counter moves on by four, the
    /// instruction that it pointed at is executed, and the signal that a
    /// frame was rendered is taken back. The machine no longer waits for a
    /// frame unless the instruction makes it wait.
    pub open spec fn step(self, roll: u32) -> Result<CpuView, Fault> {
        match spec_decode(self.memory, self.pc) {
            Err(f) => Err(f),
            Ok((entry, args)) => match (CpuView {
                wait_vblank: false,
                pc: spec_offset(self.pc, 4),
                ..self
            }).execute(entry.action, args, roll) {
                Err(f) => Err(f),
                Ok(s) => Ok(CpuView { gpu: GpuView { vblank: false, ..s.gpu }, ..s }),
            },
        }
    }
}

/// Find the instruction at an address.
pub fn decode(cpu: &Cpu, addr: u16) -> (r: Result<(Entry, Operands), Fault>)
    requires
        cpu.wf(),
    ensures
        r == spec_decode(cpu@.memory, addr),
        r matches Ok((_, args)) ==> args.wf(),
{
    if addr > 0xFFFC {
        return Err(Fault::OutOfBounds(addr));
    }
    let opcode = cpu.read_byte(addr);
    match lookup(opcode) {
        None => Err(Fault::UnknownOpcode(opcode)),
        Some(entry) => Ok(
            (entry, operands(cpu.read_byte(addr + 1), cpu.read_byte(addr + 2), cpu.read_byte(addr + 3))),
        ),
    }
}

/// Perform a given math operation (e.g. `addi`, `add_r2`, `add_r3`), or
/// perform it and discard the result (e.g. `cmpi`, `cmp_r2`)
pub fn math(cpu: &mut Cpu, op: AluOp, form: Form, args: Operands) -> (r: Result<(), Fault>)
    requires
        old(cpu).wf(),
        args.wf(),
    ensures
        final(cpu).wf(),
        follows(old(cpu)@, old(cpu)@.math(op, form, args), r, final(cpu)@),
{
    let a = cpu.r(args.rx);
    let b = match form {
        Form::Immediate | Form::TestImmediate => signed(args.hhll),
        Form::Pair | Form::Triple | Form::TestPair => cpu.r(args.ry),
        Form::Own => cpu.r(args.rx),
    };
    match alu(op, a, b) {
        None => Err(Fault::DivisionByZero),
        Some(o) => {
            cpu.set_flags(pack(o.carry, o.value == 0, o.overflow, o.value < 0));
            match form {
                Form::Immediate | Form::Pair | Form::Own => cpu.set_r(args.rx, o.value),
                Form::Triple => cpu.set_r(args.rz, o.value),
                Form::TestImmediate | Form::TestPair => {},
            }
            Ok(())
        },
    }
}

fn vblnk(cpu: &mut Cpu)
    requires
        old(cpu).wf(),
    ensures
        final(cpu).wf(),
        final(cpu)@ == (if old(cpu)@.gpu.vblank {
            old(cpu)@
        } else {
            CpuView { pc: spec_offset(old(cpu)@.pc, -4), wait_vblank: true, ..old(cpu)@ }
        }),
{
    if !cpu.vblank() {
        let pc = cpu.pc();
        cpu.set_pc(offset(pc, -4));
        cpu.set_wait_vblank(true);
    }
}

fn drw(cpu: &mut Cpu, x: i16, y: i16, addr: u16) -> (r: Result<(), Fault>)
    requires
        old(cpu).wf(),
    ensures
        final(cpu).wf(),
        follows(old(cpu)@, old(cpu)@.draw(x, y, addr), r, final(cpu)@),
{
    if !cpu.sprite_fits(x, y, addr) {
        return Err(Fault::OutOfBounds(addr));
    }
    let overlap = cpu.draw(x, y, addr);
    cpu.set_carry(overlap);
    Ok(())
}

fn tone(cpu: &mut Cpu, hz: u16, ms: u16, adsr: bool) -> (r: Result<(), Fault>)
    requires
        old(cpu).wf(),
    ensures
        final(cpu).wf(),
        follows(old(cpu)@, old(cpu)@.tone(hz, ms, adsr), r, final(cpu)@),
{
    if hz == 0 {
        return Err(Fault::DivisionByZero);
    }
    cpu.play(hz, ms, adsr);
    Ok(())
}

fn snp(cpu: &mut Cpu, addr: u16, ms: u16) -> (r: Result<(), Fault>)
    requires
        old(cpu).wf(),
    ensures
        final(cpu).wf(),
        follows(old(cpu)@, old(cpu)@.tone_at(addr, ms), r, final(cpu)@),
{
    if addr == 0xFFFF {
        return Err(Fault::OutOfBounds(addr));
    }
    let hz = unsigned(cpu.read(addr));
    tone(cpu, hz, ms, true)
}

fn sng(cpu: &mut Cpu, ad: u8, sr: u8, vt: u8)
    requires
        old(cpu).wf(),
    ensures
        final(cpu).wf(),
        final(cpu)@ == (CpuView {
            apu: old(cpu)@.apu.settings(
                (ad / 16) as u8,
                (ad % 16) as u8,
                (sr / 16) as u8,
                (sr % 16) as u8,
                (vt / 16) as u8,
                (vt % 16) as u8,
            ),
            ..old(cpu)@
        }),
{
    let (a, d) = half_bytes(ad);
    let (s, r) = half_bytes(sr);
    let (v, t) = half_bytes(vt);
    cpu.sound_settings(a, d, s, r, v, t);
}

fn call(cpu: &mut Cpu, target: u16) -> (r: Result<(), Fault>)
    requires
        old(cpu).wf(),
    ensures
        final(cpu).wf(),
        follows(old(cpu)@, old(cpu)@.call(target), r, final(cpu)@),
{
    let pc = cpu.pc();
    let sp = cpu.sp();
    if sp == 0xFFFF {
        return Err(Fault::OutOfBounds(sp));
    }
    cpu.write(sp, signed(pc));
    cpu.set_sp(offset(sp, 2));
    cpu.set_pc(target);
    Ok(())
}

fn ret(cpu: &mut Cpu) -> (r: Result<(), Fault>)
    requires
        old(cpu).wf(),
    ensures
        final(cpu).wf(),
        follows(old(cpu)@, old(cpu)@.ret(), r, final(cpu)@),
{
    let sp = offset(cpu.sp(), -2);
    if sp == 0xFFFF {
        return Err(Fault::OutOfBounds(sp));
    }
    let target = unsigned(cpu.read(sp));
    cpu.set_sp(sp);
    cpu.set_pc(target);
    Ok(())
}

fn ldm(cpu: &mut Cpu, rx: u8, addr: u16) -> (r: Result<(), Fault>)
    requires
        old(cpu).wf(),
        rx < 16,
    ensures
        final(cpu).wf(),
        follows(old(cpu)@, old(cpu)@.load(rx, addr), r, final(cpu)@),
{
    if addr == 0xFFFF {
        return Err(Fault::OutOfBounds(addr));
    }
    let val = cpu.read(addr);
    cpu.set_r(rx, val);
    Ok(())
}

fn stm(cpu: &mut Cpu, addr: u16, val: i16) -> (r: Result<(), Fault>)
    requires
        old(cpu).wf(),
    ensures
        final(cpu).wf(),
        follows(old(cpu)@, old(cpu)@.store(addr, val), r, final(cpu)@),
{
    if addr == 0xFFFF {
        return Err(Fault::OutOfBounds(addr));
    }
    cpu.write(addr, val);
    Ok(())
}

fn push(cpu: &mut Cpu, val: i16) -> (r: Result<(), Fault>)
    requires
        old(cpu).wf(),
    ensures
        final(cpu).wf(),
        follows(old(cpu)@, old(cpu)@.push(val), r, final(cpu)@),
{
    let sp = cpu.sp();
    if sp == 0xFFFF {
        return Err(Fault::OutOfBounds(sp));
    }
    cpu.write(sp, val);
    cpu.set_sp(offset(sp, 2));
    Ok(())
}

fn pop(cpu: &mut Cpu, rx: u8) -> (r: Result<(), Fault>)
    requires
        old(cpu).wf(),
        rx < 16,
    ensures
        final(cpu).wf(),
        follows(old(cpu)@, old(cpu)@.pop(rx), r, final(cpu)@),
{
    let sp = offset(cpu.sp(), -2);
    if sp == 0xFFFF {
        return Err(Fault::OutOfBounds(sp));
    }
    let val = cpu.read(sp);
    cpu.set_sp(sp);
    cpu.set_r(rx, val);
    Ok(())
}

/// Whether each of sixteen words from `sp` on lies in memory whole.
fn bank_fits(sp: u16) -> (r: bool)
    ensures
        r == CpuView::bank_fits(sp),
{
    let mut i: i16 = 0;
    while i < 16
        invariant
            0 <= i <= 16,
            forall|j: int| 0 <= j < i ==> #[trigger] CpuView::slot(sp, j) != 0xFFFF,
        decreases 16 - i,
    {
        if offset(sp, 2 * i) == 0xFFFF {
            assert(CpuView::slot(sp, i as int) == 0xFFFF);
            return false;
        }
        i += 1;
    }
    true
}

fn pushall(cpu: &mut Cpu) -> (r: Result<(), Fault>)
    requires
        old(cpu).wf(),
    ensures
        final(cpu).wf(),
        follows(old(cpu)@, old(cpu)@.push_all(), r, final(cpu)@),
{
    let base = cpu.sp();
    if !bank_fits(base) {
        return Err(Fault::OutOfBounds(0xFFFF));
    }
    let ghost before = cpu@;
    assert(cpu@.memory =~= before.banked(base, 0));
    let mut rx: u8 = 0;
    while rx < 16
        invariant
            0 <= rx <= 16,
            cpu.wf(),
            before.wf(),
            base == before.sp,
            CpuView::bank_fits(base),
            cpu@ == (CpuView {
                memory: before.banked(base, rx as int),
                sp: CpuView::slot(base, rx as int),
                ..before
            }),
        decreases 16 - rx,
    {
        let sp = cpu.sp();
        let val = cpu.r(rx);
        assert(CpuView::slot(base, rx as int) != 0xFFFF);
        cpu.write(sp, val);
        cpu.set_sp(offset(sp, 2));
        assert(cpu@.memory =~= before.banked(base, rx + 1));
        rx += 1;
    }
    Ok(())
}

fn popall(cpu: &mut Cpu) -> (r: Result<(), Fault>)
    requires
        old(cpu).wf(),
    ensures
        final(cpu).wf(),
        follows(old(cpu)@, old(cpu)@.pop_all(), r, final(cpu)@),
{
    let top = cpu.sp();
    let base = offset(top, -32);
    if !bank_fits(base) {
        return Err(Fault::OutOfBounds(0xFFFF));
    }
    let ghost before = cpu@;
    assert(cpu@.r =~= before.unbanked(base, 16));
    let mut rx: u8 = 16;
    while rx > 0
        invariant
            0 <= rx <= 16,
            cpu.wf(),
            before.wf(),
            top == before.sp,
            base == spec_offset(top, -32),
            CpuView::bank_fits(base),
            cpu@ == (CpuView {
                r: before.unbanked(base, rx as int),
                sp: CpuView::slot(base, rx as int),
                ..before
            }),
        decreases rx,
    {
        rx -= 1;
        let sp = offset(cpu.sp(), -2);
        assert(sp == CpuView::slot(base, rx as int));
        let val = cpu.read(sp);
        cpu.set_sp(sp);
        cpu.set_r(rx, val);
        assert(cpu@.r =~= before.unbanked(base, rx as int));
    }
    Ok(())
}

fn popf(cpu: &mut Cpu)
    requires
        old(cpu).wf(),
    ensures
        final(cpu).wf(),
        final(cpu)@ == old(cpu)@.pop_flags(),
{
    let sp = offset(cpu.sp(), -2);
    let val = cpu.read_byte(sp);
    cpu.set_sp(sp);
    cpu.set_flags(masked(val));
}

fn pal(cpu: &mut Cpu, addr: u16) -> (r: Result<(), Fault>)
    requires
        old(cpu).wf(),
    ensures
        final(cpu).wf(),
        follows(old(cpu)@, old(cpu)@.load_palette(addr), r, final(cpu)@),
{
    if addr > 0xFFD0 {
        return Err(Fault::OutOfBounds(addr));
    }
    cpu.load_palette(addr);
    Ok(())
}

/// Execute an instruction that has been decoded. `roll` is the number drawn
/// for it, which only `RND` uses.
pub fn execute(cpu: &mut Cpu, action: Action, args: Operands, roll: u32) -> (r: Result<(), Fault>)
    requires
        old(cpu).wf(),
        args.wf(),
    ensures
        final(cpu).wf(),
        follows(old(cpu)@, old(cpu)@.execute(action, args, roll), r, final(cpu)@),
{
    match action {
        Action::Nop => Ok(()),
        Action::Cls => {
            cpu.clear_screen();
            Ok(())
        },
        Action::Vblnk => {
            vblnk(cpu);
            Ok(())
        },
        Action::Bgc => {
            cpu.set_bg(args.ll);
            Ok(())
        },
        Action::Spr => {
            cpu.set_sprite_size(args.ll, args.hh);
            Ok(())
        },
        Action::Drw => {
            let x = cpu.r(args.rx);
            let y = cpu.r(args.ry);
            drw(cpu, x, y, args.hhll)
        },
        Action::DrwR => {
            let x = cpu.r(args.rx);
            let y = cpu.r(args.ry);
            let addr = unsigned(cpu.r(args.rz));
            drw(cpu, x, y, addr)
        },
        Action::Rnd => {
            cpu.set_r(args.rx, signed((roll % 0x1_0000) as u16));
            Ok(())
        },
        Action::Flip => {
            cpu.set_flip(args.hh > 1, args.hh % 2 > 0);
            Ok(())
        },
        Action::Snd0 => {
            cpu.stop_sound();
            Ok(())
        },
        Action::Tone(hz) => tone(cpu, hz, args.hhll, false),
        Action::Snp => {
            let addr = unsigned(cpu.r(args.rx));
            snp(cpu, addr, args.hhll)
        },
        Action::Sng => {
            sng(cpu, args.ad, args.ll, args.hh);
            Ok(())
        },
        Action::Jmp => {
            cpu.set_pc(args.hhll);
            Ok(())
        },
        Action::Jmc => {
            if condition(cpu.flags(), 0x9) {
                cpu.set_pc(args.hhll);
            }
            Ok(())
        },
        Action::Jx => {
            if condition(cpu.flags(), args.ad) {
                cpu.set_pc(args.hhll);
            }
            Ok(())
        },
        Action::Jme => {
            if cpu.r(args.rx) == cpu.r(args.ry) {
                cpu.set_pc(args.hhll);
            }
            Ok(())
        },
        Action::Call => call(cpu, args.hhll),
        Action::Ret => ret(cpu),
        Action::JmpR => {
            let addr = unsigned(cpu.r(args.rx));
            cpu.set_pc(addr);
            Ok(())
        },
        Action::Cx => {
            if condition(cpu.flags(), args.ad) {
                call(cpu, args.hhll)
            } else {
                Ok(())
            }
        },
        Action::CallR => {
            let addr = unsigned(cpu.r(args.rx));
            call(cpu, addr)
        },
        Action::LdiR => {
            cpu.set_r(args.rx, signed(args.hhll));
            Ok(())
        },
        Action::LdiSp => {
            cpu.set_sp(args.hhll);
            Ok(())
        },
        Action::Ldm => ldm(cpu, args.rx, args.hhll),
        Action::LdmR => {
            let addr = unsigned(cpu.r(args.ry));
            ldm(cpu, args.rx, addr)
        },
        Action::Mov => {
            let val = cpu.r(args.ry);
            cpu.set_r(args.rx, val);
            Ok(())
        },
        Action::Stm => {
            let val = cpu.r(args.rx);
            stm(cpu, args.hhll, val)
        },
        Action::StmR => {
            let addr = unsigned(cpu.r(args.ry));
            let val = cpu.r(args.rx);
            stm(cpu, addr, val)
        },
        Action::Math(op, form) => math(cpu, op, form, args),
        Action::Push => {
            let val = cpu.r(args.rx);
            push(cpu, val)
        },
        Action::Pop => pop(cpu, args.rx),
        Action::PushAll => pushall(cpu),
        Action::PopAll => popall(cpu),
        Action::PushF => {
            let val = cpu.flags();
            push(cpu, val as i16)
        },
        Action::PopF => {
            popf(cpu);
            Ok(())
        },
        Action::Pal => pal(cpu, args.hhll),
        Action::PalR => {
            let addr = unsigned(cpu.r(args.rx));
            pal(cpu, addr)
        },
    }
}

/// Execute the instruction at an address, with `roll` for the number that
/// `RND` draws.
pub fn run_instruction_with(cpu: &mut Cpu, addr: u16, roll: u32) -> (r: Result<(), Fault>)
    requires
        old(cpu).wf(),
    ensures
        final(cpu).wf(),
        follows(old(cpu)@, old(cpu)@.run(addr, roll), r, final(cpu)@),
{
    match decode(cpu, addr) {
        Err(f) => Err(f),
        Ok((entry, args)) => execute(cpu, entry.action, args, roll),
    }
}

/// Execute the instruction at an address. What `RND` draws comes from the
/// machine's random number generator and is at most the instruction's
/// operand; for every such number the machine does as its rules say.
pub fn run_instruction(cpu: &mut Cpu, addr: u16) -> (r: Result<(), Fault>)
    requires
        old(cpu).wf(),
    ensures
        final(cpu).wf(),
        exists|roll: u32|
            roll <= old(cpu)@.roll_max(addr) && follows(
                old(cpu)@,
                #[trigger] old(cpu)@.run(addr, roll),
                r,
                final(cpu)@,
            ),
{
    match decode(cpu, addr) {
        Err(f) => {
            assert(follows(cpu@, cpu@.run(addr, 0), Err(f), cpu@));
            Err(f)
        },
        Ok((entry, args)) => {
            let roll: u32 = match entry.action {
                Action::Rnd => cpu.roll(args.hhll),
                _ => 0,
            };
            let r = execute(cpu, entry.action, args, roll);
            assert(follows(old(cpu)@, old(cpu)@.run(addr, roll), r, cpu@));
            r
        },
    }
}

/// A register as it is written: `R` and its number as one hexadecimal digit.
pub open spec fn spec_register(n: u8) -> Seq<char> {
    seq!['R', spec_digit(n as int)]
}

/// An instruction as it is written: the mnemonic, then the operands that the
/// instruction names, each after a space; registers by name, numbers in
/// decimal. A condition is written by its name right behind the mnemonic.
pub open spec fn spec_format(entry: Entry, args: Operands) -> Seq<char> {
    let m = entry.mnemonic@;
    let sp = seq![' '];
    let rx = spec_register(args.rx);
    let ry = spec_register(args.ry);
    let rz = spec_register(args.rz);
    let ll = spec_decimal(args.ll as nat);
    let hh = spec_decimal(args.hh as nat);
    let hhll = spec_decimal(args.hhll as nat);
    match entry.shape {
        Shape::Bare => m,
        Shape::Ll => m + sp + ll,
        Shape::LlHh => m + sp + ll + sp + hh,
        Shape::RxRyHhll => m + sp + rx + sp + ry + sp + hhll,
        Shape::RxRyRz => m + sp + rx + sp + ry + sp + rz,
        Shape::RxHhll => m + sp + rx + sp + hhll,
        Shape::Hh => m + sp + hh,
        Shape::Hhll => m + sp + hhll,
        Shape::AdLlHh => m + sp + spec_decimal(args.ad as nat) + sp + ll + sp + hh,
        Shape::CondHhll => m + spec_condition_name(args.ad)@ + sp + hhll,
        Shape::Rx => m + sp + rx,
        Shape::RxRy => m + sp + rx + sp + ry,
    }
}

/// Append a space and a register's name.
fn push_register(s: &mut String, n: u8)
    requires
        n < 16,
    ensures
        final(s)@ == old(s)@ + seq![' '] + spec_register(n),
{
    let ghost start = s@;
    s.push(' ');
    s.push('R');
    s.push(digit(n));
    assert(s@ =~= start + seq![' '] + spec_register(n));
}

/// Append a space and a number in decimal.
fn push_number(s: &mut String, n: u16)
    ensures
        final(s)@ == old(s)@ + seq![' '] + spec_decimal(n as nat),
{
    s.push(' ');
    push_decimal(s, n);
}

/// Write an instruction that has been decoded.
pub fn format(entry: Entry, args: Operands) -> (s: String)
    requires
        args.wf(),
    ensures
        s@ == spec_format(entry, args),
{
    let mut s = String::from_str(entry.mnemonic);
    match entry.shape {
        Shape::Bare => {},
        Shape::Ll => {
            push_number(&mut s, args.ll as u16);
        },
        Shape::LlHh => {
            push_number(&mut s, args.ll as u16);
            push_number(&mut s, args.hh as u16);
        },
        Shape::RxRyHhll => {
            push_register(&mut s, args.rx);
            push_register(&mut s, args.ry);
            push_number(&mut s, args.hhll);
        },
        Shape::RxRyRz => {
            push_register(&mut s, args.rx);
            push_register(&mut s, args.ry);
            push_register(&mut s, args.rz);
        },
        Shape::RxHhll => {
            push_register(&mut s, args.rx);
            push_number(&mut s, args.hhll);
        },
        Shape::Hh => {
            push_number(&mut s, args.hh as u16);
        },
        Shape::Hhll => {
            push_number(&mut s, args.hhll);
        },
        Shape::AdLlHh => {
            push_number(&mut s, args.ad as u16);
            push_number(&mut s, args.ll as u16);
            push_number(&mut s, args.hh as u16);
        },
        Shape::CondHhll => {
            s.append(condition_name(args.ad));
            push_number(&mut s, args.hhll);
        },
        Shape::Rx => {
            push_register(&mut s, args.rx);
        },
        Shape::RxRy => {
            push_register(&mut s, args.rx);
            push_register(&mut s, args.ry);
        },
    }
    assert(s@ =~= spec_format(entry, args));
    s
}

/// Write the instruction at an address. The machine stays as it is.
pub fn format_instruction(cpu: &Cpu, addr: u16) -> (r: Result<String, Fault>)
    requires
        cpu.wf(),
    ensures
        match spec_decode(cpu@.memory, addr) {
            Ok((entry, args)) => r matches Ok(s) && s@ == spec_format(entry, args),
            Err(f) => r matches Err(e) && e == f,
        },
{
    match decode(cpu, addr) {
        Err(f) => Err(f),
        Ok((entry, args)) => Ok(format(entry, args)),
    }
}

/// After an arithmetic instruction, the four flags say what the operator
/// gave: carry and overflow as it raised them, zero if the value is zero,
/// negative if it is below zero.
pub proof fn lemma_math_flags(s: CpuView, op: AluOp, form: Form, args: Operands)
    requires
        s.math(op, form, args) is Ok,
    ensures
        ({
            let t = s.math(op, form, args)->Ok_0;
            let o = spec_alu(op, s.r[args.rx as int], s.second(form, args))->Some_0;
            &&& t.carry() == o.carry
            &&& t.overflow() == o.overflow
            &&& t.zero() == (o.value == 0)
            &&& t.negative() == (o.value < 0)
        }),
{
    let o = spec_alu(op, s.r[args.rx as int], s.second(form, args))->Some_0;
    lemma_pack(o.carry, o.value == 0, o.overflow, o.value < 0);
}

/// A byte that is no opcode stops the machine, whatever else it holds, and
/// the machine stays as it was.
pub proof fn lemma_unknown_opcode_faults(s: CpuView, roll: u32, r: Result<(), Fault>, after: CpuView)
    requires
        s.pc + 4 <= MEMORY_SIZE,
        spec_lookup(s.memory[s.pc as int]) is None,
        follows(s, s.step(roll), r, after),
    ensures
        r == Err::<(), Fault>(Fault::UnknownOpcode(s.memory[s.pc as int])),
        after == s,
{
}

/// What was pushed is what is popped: a push and then a pop into a register
/// leave the stack pointer where it was and the value in the register.
pub proof fn lemma_push_then_pop(s: CpuView, value: i16, index: u8)
    requires
        s.wf(),
        index < 16,
        s.push(value) is Ok,
    ensures
        s.push(value)->Ok_0.pop(index) is Ok,
        s.push(value)->Ok_0.pop(index)->Ok_0.sp == s.sp,
        s.push(value)->Ok_0.pop(index)->Ok_0.r == s.r.update(index as int, value),
        s.push(value)->Ok_0.pop(index)->Ok_0.memory == s.stored(s.sp, value),
{
    let t = s.push(value)->Ok_0;
    assert(spec_offset(t.sp, -2) == s.sp);
    assert(t.word(s.sp) == value);
}

/// Popping all registers after pushing all of them restores the registers
/// and the stack pointer.
pub proof fn lemma_push_all_then_pop_all(s: CpuView)
    requires
        s.wf(),
        s.push_all() is Ok,
    ensures
        s.push_all()->Ok_0.pop_all() is Ok,
        s.push_all()->Ok_0.pop_all()->Ok_0.r == s.r,
        s.push_all()->Ok_0.pop_all()->Ok_0.sp == s.sp,
        s.push_all()->Ok_0.pop_all()->Ok_0.memory == s.push_all()->Ok_0.memory,
{
    let t = s.push_all()->Ok_0;
    assert(spec_offset(t.sp, -32) == s.sp);
    let u = t.pop_all()->Ok_0;
    assert forall|j: int| 0 <= j < 16 implies u.r[j] == s.r[j] by {
        let addr = CpuView::slot(s.sp, j);
        assert(addr != 0xFFFF);
        assert(t.memory[addr as int] == (spec_unsigned(s.r[j]) % 256) as u8);
        assert(t.memory[addr + 1] == (spec_unsigned(s.r[j]) / 256) as u8);
    }
    assert(u.r =~= s.r);
}

} // verus!
