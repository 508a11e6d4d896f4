//! The debugger's side of a session: breakpoints, and what each command of
//! its prompt does. Reading the commands and printing is the host's part.

use std::collections::HashSet;
use vstd::prelude::*;
use vstd::std_specs::hash::group_hash_axioms;
use crate::cpu::Cpu;
use crate::cpu::CpuView;
use crate::cpu::instruction::spec_decode;
use crate::cpu::instruction::spec_format;
use crate::text::parse_u16;
use crate::text::spec_parse_u16;
use crate::text::spec_uppercase;
use crate::text::spec_word_at;
use crate::text::starts_with;
use crate::text::to_uppercase;
use crate::text::word_at;

verus! {

broadcast use group_hash_axioms;

pub struct Debugger {
    run: bool,
    break_pc: HashSet<u16>,
    break_op: Vec<String>,
}

/// What a debugger holds, as mathematical values.
pub struct DebuggerView {
    /// Whether the prompt is due before the next instruction
    pub run: bool,
    /// The addresses to break at
    pub break_pc: Set<u16>,
    /// The beginnings of instructions to break on, in the order in which
    /// they were given
    pub break_op: Seq<Seq<char>>,
}

/// What the prompt is to do after a command.
#[derive(Debug)]
pub enum Reply {
    /// Go on, and come back before the next instruction
    Step,
    /// Go on
    Continue,
    /// Say that a breakpoint was added at an address, and ask again
    AddedPc(u16),
    /// Say that the breakpoint at an address was removed, and ask again
    RemovedPc(u16),
    /// Say that a breakpoint was added on an instruction, and ask again
    AddedOp(String),
    /// Say that the breakpoint on an instruction was removed, and ask again
    RemovedOp(String),
    /// Say that the argument is invalid, and ask again
    InvalidArgument,
    /// Leave the program
    Quit,
    /// Say that the command is unknown, and ask again
    UnknownCommand,
}

/// A reply as mathematical values.
pub enum ReplyView {
    Step,
    Continue,
    AddedPc(u16),
    RemovedPc(u16),
    AddedOp(Seq<char>),
    RemovedOp(Seq<char>),
    InvalidArgument,
    Quit,
    UnknownCommand,
}

impl View for Reply {
    type V = ReplyView;

    open spec fn view(&self) -> ReplyView {
        match self {
            Reply::Step => ReplyView::Step,
            Reply::Continue => ReplyView::Continue,
            Reply::AddedPc(pc) => ReplyView::AddedPc(*pc),
            Reply::RemovedPc(pc) => ReplyView::RemovedPc(*pc),
            Reply::AddedOp(op) => ReplyView::AddedOp(op@),
            Reply::RemovedOp(op) => ReplyView::RemovedOp(op@),
            Reply::InvalidArgument => ReplyView::InvalidArgument,
            Reply::Quit => ReplyView::Quit,
            Reply::UnknownCommand => ReplyView::UnknownCommand,
        }
    }
}

/// The first word of a line, and the second, where there are such.
pub open spec fn spec_words(line: Seq<char>) -> (Option<Seq<char>>, Option<Seq<char>>) {
    match spec_word_at(line, 0) {
        None => (None, None),
        Some((start, end)) => (
            Some(line.subrange(start, end)),
            match spec_word_at(line, end) {
                None => None,
                Some((from, to)) => Some(line.subrange(from, to)),
            },
        ),
    }
}

impl DebuggerView {
    /// No instruction to break on is there twice, and the addresses are
    /// finitely many.
    pub open spec fn wf(self) -> bool {
        self.break_op.no_duplicates() && self.break_pc.finite()
    }

    /// Whether the prompt is due before the machine's next instruction: it
    /// was asked for, or the instruction's address is one to break at, or
    /// the instruction as it is written begins with one to break on.
    pub open spec fn due(self, cpu: CpuView) -> bool {
        ||| self.run
        ||| self.break_pc.contains(cpu.pc)
        ||| spec_decode(cpu.memory, cpu.pc) matches Ok((entry, args)) && exists|i: int|
            0 <= i < self.break_op.len() && (#[trigger] self.break_op[i]).is_prefix_of(
                spec_format(entry, args),
            )
    }

    /// The addresses to break at after one was given: it is removed if it
    /// was there, and added if it was not.
    pub open spec fn toggled_pc(self, pc: u16) -> DebuggerView {
        if self.break_pc.contains(pc) {
            DebuggerView { break_pc: self.break_pc.remove(pc), ..self }
        } else {
            DebuggerView { break_pc: self.break_pc.insert(pc), ..self }
        }
    }

    /// The instructions to break on after one was given: it is removed if
    /// it was there, and added if it was not.
    pub open spec fn toggled_op(self, op: Seq<char>) -> DebuggerView {
        if self.break_op.contains(op) {
            DebuggerView { break_op: self.break_op.remove(self.break_op.index_of(op)), ..self }
        } else {
            DebuggerView { break_op: self.break_op.push(op), ..self }
        }
    }

    /// What a command does to the debugger, and the reply to it. The
    /// command is the first word of the line, its argument the second.
    /// No word, or `s`: step. `c`: continue. `bc` and an address in
    /// decimal: break at the address, or no longer. `bo` and the beginning
    /// of an instruction, which is put in upper case: break on it, or no
    /// longer. `q`: quit.
    pub open spec fn command(self, line: Seq<char>) -> (DebuggerView, ReplyView) {
        let (name, argument) = spec_words(line);
        if name is None || name == Some("s"@) {
            (DebuggerView { run: true, ..self }, ReplyView::Step)
        } else if name == Some("c"@) {
            (self, ReplyView::Continue)
        } else if name == Some("bc"@) {
            match argument {
                None => (self, ReplyView::InvalidArgument),
                Some(word) => match spec_parse_u16(word) {
                    None => (self, ReplyView::InvalidArgument),
                    Some(pc) => (
                        self.toggled_pc(pc),
                        if self.break_pc.contains(pc) {
                            ReplyView::RemovedPc(pc)
                        } else {
                            ReplyView::AddedPc(pc)
                        },
                    ),
                },
            }
        } else if name == Some("bo"@) {
            match argument {
                None => (self, ReplyView::InvalidArgument),
                Some(word) => {
                    let op = spec_uppercase(word);
                    (
                        self.toggled_op(op),
                        if self.break_op.contains(op) {
                            ReplyView::RemovedOp(op)
                        } else {
                            ReplyView::AddedOp(op)
                        },
                    )
                },
            }
        } else if name == Some("q"@) {
            (self, ReplyView::Quit)
        } else {
            (self, ReplyView::UnknownCommand)
        }
    }
}

impl View for Debugger {
    type V = DebuggerView;

    closed spec fn view(&self) -> DebuggerView {
        DebuggerView {
            run: self.run,
            break_pc: self.break_pc@,
            break_op: Seq::new(self.break_op@.len(), |i: int| self.break_op@[i]@),
        }
    }
}

/// Whether two strings hold the same characters.
fn same(a: &str, b: &str) -> (r: bool)
    ensures
        r == (a@ == b@),
{
    let head = starts_with(a, b);
    let tail = starts_with(b, a);
    proof {
        if head && tail {
            assert(a@ =~= b@);
        }
    }
    head && tail
}

impl Debugger {
    /// The invariant of a debugger: that of its view.
    pub open spec fn wf(&self) -> bool {
        self@.wf()
    }

    pub fn new() -> (debugger: Debugger)
        ensures
            debugger.wf(),
            debugger@ == (DebuggerView {
                run: false,
                break_pc: Set::<u16>::empty(),
                break_op: Seq::<Seq<char>>::empty(),
            }),
    {
        let debugger = Debugger { run: false, break_pc: HashSet::new(), break_op: Vec::new() };
        assert(debugger@.break_op =~= Seq::<Seq<char>>::empty());
        debugger
    }

    /// Set the break flag
    pub fn set_break(&mut self)
        ensures
            final(self)@ == (DebuggerView { run: true, ..old(self)@ }),
    {
        self.run = true;
    }

    /// Break at an address, or no longer if it was one to break at. Says
    /// whether it is one now.
    pub fn break_at(&mut self, pc: u16) -> (added: bool)
        requires
            old(self).wf(),
        ensures
            final(self).wf(),
            final(self)@ == old(self)@.toggled_pc(pc),
            added == !old(self)@.break_pc.contains(pc),
    {
        if self.break_pc.contains(&pc) {
            self.break_pc.remove(&pc);
            false
        } else {
            self.break_pc.insert(pc);
            true
        }
    }

    /// The place of an instruction among those to break on.
    fn find(&self, op: &str) -> (r: Option<usize>)
        ensures
            match r {
                Some(i) => i < self@.break_op.len() && self@.break_op[i as int] == op@,
                None => !self@.break_op.contains(op@),
            },
    {
        let mut i: usize = 0;
        while i < self.break_op.len()
            invariant
                i <= self.break_op@.len(),
                forall|j: int| 0 <= j < i ==> self@.break_op[j] != op@,
            decreases self.break_op@.len() - i,
        {
            if same(self.break_op[i].as_str(), op) {
                return Some(i);
            }
            i += 1;
        }
        None
    }

    /// Break on the instructions that begin with `op`, or no longer if it
    /// was a beginning to break on. Says whether it is one now.
    pub fn break_on(&mut self, op: String) -> (added: bool)
        requires
            old(self).wf(),
        ensures
            final(self).wf(),
            final(self)@ == old(self)@.toggled_op(op@),
            added == !old(self)@.break_op.contains(op@),
    {
        let ghost before = self@;
        match self.find(op.as_str()) {
            Some(i) => {
                self.break_op.remove(i);
                proof {
                    assert(before.break_op.index_of(op@) == i);
                    assert(self@.break_op =~= before.break_op.remove(i as int));
                    assert forall|a: int, b: int|
                        0 <= a < self@.break_op.len() && 0 <= b < self@.break_op.len() && a
                            != b implies self@.break_op[a] != self@.break_op[b] by {
                        let a0 = if a < i { a } else { a + 1 };
                        let b0 = if b < i { b } else { b + 1 };
                        assert(before.break_op[a0] != before.break_op[b0]);
                    }
                }
                false
            },
            None => {
                self.break_op.push(op);
                proof {
                    assert(self@.break_op =~= before.break_op.push(op@));
                    assert forall|a: int, b: int|
                        0 <= a < self@.break_op.len() && 0 <= b < self@.break_op.len() && a
                            != b implies self@.break_op[a] != self@.break_op[b] by {
                        if a < before.break_op.len() && b < before.break_op.len() {
                            assert(before.break_op[a] != before.break_op[b]);
                        } else if a < before.break_op.len() {
                            assert(before.break_op.contains(before.break_op[a]));
                        } else {
                            assert(before.break_op.contains(before.break_op[b]));
                        }
                    }
                }
                true
            },
        }
    }

    /// Say whether the prompt is due before the machine's next instruction.
    /// If it is, it is no longer asked for.
    pub fn step(&mut self, cpu: &Cpu) -> (due: bool)
        requires
            old(self).wf(),
            cpu.wf(),
        ensures
            final(self).wf(),
            due == old(self)@.due(cpu@),
            final(self)@ == (DebuggerView { run: false, ..old(self)@ }),
    {
        let pc = cpu.pc();
        if self.break_pc.contains(&pc) {
            self.run = true;
        }
        if !self.run {
            match cpu.format_instruction(pc) {
                Ok(instr) => {
                    let mut i: usize = 0;
                    while i < self.break_op.len()
                        invariant
                            i <= self.break_op@.len(),
                            self.wf(),
                            self@ == old(self)@,
                            !self.run,
                            spec_decode(cpu@.memory, cpu@.pc) matches Ok((entry, args))
                                && instr@ == spec_format(entry, args),
                            forall|j: int|
                                0 <= j < i ==> !(#[trigger] self@.break_op[j]).is_prefix_of(
                                    instr@,
                                ),
                        decreases self.break_op@.len() - i,
                    {
                        if starts_with(instr.as_str(), self.break_op[i].as_str()) {
                            proof {
                                let decoded = spec_decode(cpu@.memory, cpu@.pc);
                                assert(decoded is Ok);
                                let (entry, args) = decoded->Ok_0;
                                assert(instr@ == spec_format(entry, args));
                                assert(old(self)@.break_op[i as int].is_prefix_of(
                                    spec_format(entry, args),
                                ));
                            }
                            return true;
                        }
                        i += 1;
                    }
                },
                Err(_) => {},
            }
        }
        let due = self.run;
        self.run = false;
        due
    }

    /// Run one command of the prompt.
    pub fn run(&mut self, line: &str) -> (reply: Reply)
        requires
            old(self).wf(),
        ensures
            final(self).wf(),
            (final(self)@, reply@) == old(self)@.command(line@),
    {
        proof {
            reveal_strlit("s");
            reveal_strlit("c");
            reveal_strlit("bc");
            reveal_strlit("bo");
            reveal_strlit("q");
        }
        let (name, next) = match word_at(line, 0) {
            None => {
                self.run = true;
                return Reply::Step;
            },
            Some(found) => found,
        };
        let argument = match word_at(line, next) {
            None => None,
            Some((word, _)) => Some(word),
        };
        if same(name.as_str(), "s") {
            self.run = true;
            Reply::Step
        } else if same(name.as_str(), "c") {
            Reply::Continue
        } else if same(name.as_str(), "bc") {
            match argument {
                None => Reply::InvalidArgument,
                Some(word) => match parse_u16(word.as_str()) {
                    None => Reply::InvalidArgument,
                    Some(pc) => if self.break_at(pc) {
                        Reply::AddedPc(pc)
                    } else {
                        Reply::RemovedPc(pc)
                    },
                },
            }
        } else if same(name.as_str(), "bo") {
            match argument {
                None => Reply::InvalidArgument,
                Some(word) => {
                    let op = to_uppercase(word.as_str());
                    let copy = op.clone();
                    if self.break_on(op) {
                        Reply::AddedOp(copy)
                    } else {
                        Reply::RemovedOp(copy)
                    }
                },
            }
        } else if same(name.as_str(), "q") {
            Reply::Quit
        } else {
            Reply::UnknownCommand
        }
    }
}

} // verus!
