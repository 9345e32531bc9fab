//! The processor: registers, control/status registers, memory and the
//! program counter, with the fetch, decode, execute step loop.
//!
//! A step fetches the 32-bit word at the program counter, decodes it and
//! executes it; any exception from either stage folds into the terminal
//! halted state, never a panic.  [`step_spec`] is the mathematical step
//! function and [`run_n`] its iteration; the step loop is proved against
//! them.
use vstd::prelude::*;

use crate::csr::{ControlStatusRegisters, CSR32};
use crate::instructions::execute::execute_spec;
use crate::instructions::{decode_spec, encode_spec, Instruction};
use crate::memory::{byte_at, grown, store_word_seq, word_from_bytes, Memory};
use crate::registers::Registers;

verus! {

/// The mathematical state of a processor: the 32 register values, the
/// program counter, the 4096 CSR values, and the materialised bytes of
/// memory (every byte beyond them reads as zero).
#[verifier::ext_equal]
pub ghost struct ProcState {
    /// The 32 general-purpose register values.
    pub regs: Seq<i32>,
    /// The program counter.
    pub pc: i32,
    /// The 4096 control/status register values.
    pub csrs: Seq<i32>,
    /// The materialised bytes of memory.
    pub mem: Seq<u8>,
}

impl ProcState {
    /// Well-formedness: 32 registers with register 0 reading zero, and
    /// 4096 CSRs.
    pub open spec fn wf(self) -> bool {
        &&& self.regs.len() == 32
        &&& self.regs[0] == 0
        &&& self.csrs.len() == 4096
    }
}

/// The 32-bit instruction word fetched at address `a` of memory `mem`,
/// little-endian.
pub open spec fn fetched_word(mem: Seq<u8>, a: int) -> u32 {
    word_from_bytes(
        byte_at(mem, a),
        byte_at(mem, a + 1),
        byte_at(mem, a + 2),
        byte_at(mem, a + 3),
    ) as u32
}

/// One step of the processor: fetch the word at the program counter
/// (growing memory to cover the fetch), decode and execute it.  Yields the
/// next state and whether the processor keeps running: any exception from
/// decode or execute halts it.
#[verifier::opaque]
pub open spec fn step_spec(s: ProcState) -> (ProcState, bool) {
    let a = (s.pc as u32) as int;
    let fetched = ProcState { mem: grown(s.mem, a + 4), ..s };
    match decode_spec(fetched_word(s.mem, a)) {
        Ok(i) => {
            let o = execute_spec(i, fetched);
            (o.state, o.fault is None)
        },
        Err(_) => (fetched, false),
    }
}

/// The state after `n` steps from `s`.
pub open spec fn run_n(s: ProcState, n: nat) -> ProcState
    decreases n,
{
    if n == 0 {
        s
    } else {
        step_spec(run_n(s, (n - 1) as nat)).0
    }
}

/// A complete halting run: from `s0` the processor steps `n` times, each
/// step continuing, and the step after them halts it, leaving `s1`.
pub open spec fn runs_to(s0: ProcState, s1: ProcState, n: nat) -> bool {
    &&& forall|k: nat| k < n ==> (#[trigger] step_spec(run_n(s0, k))).1
    &&& !step_spec(run_n(s0, n)).1
    &&& s1 == step_spec(run_n(s0, n)).0
}

/// The byte sequence `mem` after the words of `instrs`, each encoded, have
/// been stored at consecutive word addresses from `loc`.
pub open spec fn store_prog(mem: Seq<u8>, loc: int, instrs: Seq<Instruction>) -> Seq<u8>
    decreases instrs.len(),
{
    if instrs.len() == 0 {
        mem
    } else {
        store_prog(
            store_word_seq(mem, loc, encode_spec(instrs[0]) as i32),
            loc + 4,
            instrs.drop_first(),
        )
    }
}

/// Storing one more instruction after a stored program stores it at the
/// next word address.
proof fn lemma_store_prog_snoc(mem: Seq<u8>, loc: int, instrs: Seq<Instruction>, i: Instruction)
    ensures
        store_prog(mem, loc, instrs.push(i)) == store_word_seq(
            store_prog(mem, loc, instrs),
            loc + 4 * instrs.len(),
            encode_spec(i) as i32,
        ),
    decreases instrs.len(),
{
    reveal_with_fuel(store_prog, 3);
    if instrs.len() == 0 {
        assert(instrs.push(i).drop_first() =~= instrs);
        assert(instrs.push(i)[0] == i);
    } else {
        assert(instrs.push(i).drop_first() =~= instrs.drop_first().push(i));
        lemma_store_prog_snoc(
            store_word_seq(mem, loc, encode_spec(instrs[0]) as i32),
            loc + 4,
            instrs.drop_first(),
            i,
        );
    }
}

/// The number of steps after which a run is cut off.  The termination
/// discipline of verified code asks every loop for a bound; this one is
/// far beyond what any halting program reaches.
pub const RUN_FUEL: u64 = 0xFFFF_FFFF_FFFF_FFFF;

/// A single-hart RV32I processor.
///
/// Owns one register file, one CSR bank, one memory and the program
/// counter; created zeroed, and mutated only by executing instructions.
#[derive(Debug, PartialEq, Eq)]
pub struct Processor {
    /// The general-purpose registers.
    pub registers: Registers,
    /// The program counter.
    pub pc: i32,
    /// The control and status registers.
    pub csrs: CSR32,
    /// The memory.
    pub memory: Memory,
}

impl View for Processor {
    type V = ProcState;

    open spec fn view(&self) -> ProcState {
        ProcState {
            regs: self.registers@,
            pc: self.pc,
            csrs: self.csrs.contents(),
            mem: self.memory@,
        }
    }
}

impl Processor {
    /// Well-formedness of the concrete processor.
    pub open spec fn wf(self) -> bool {
        &&& self.registers.wf()
        &&& self.csrs.inv()
    }

    /// A fresh processor with all state zeroed and memory empty.
    pub fn new() -> (r: Processor)
        ensures
            r.wf(),
            r@.regs == Seq::new(32, |i: int| 0i32),
            r@.csrs == Seq::new(4096, |i: int| 0i32),
            r@.pc == 0,
            r@.mem == Seq::<u8>::empty(),
    {
        Processor { registers: Registers::new(), pc: 0, csrs: CSR32::new(), memory: Memory::new() }
    }

    /// Fetch the word at the program counter, decode it, and execute it;
    /// any exception from either stage halts the processor.  Realises
    /// [`step_spec`] exactly.
    pub fn step(&mut self) -> (r: ExecutionResult)
        requires
            old(self).wf(),
            usize::MAX >= 0x1_0000_0004,
        ensures
            final(self).wf(),
            final(self)@ == step_spec(old(self)@).0,
            (r == ExecutionResult::Continue) == step_spec(old(self)@).1,
    {
        proof {
            reveal(step_spec);
        }
        let a = #[verifier::truncate] (self.pc as u32);
        let w = self.memory.load_word(a as usize);
        match Instruction::decode(#[verifier::truncate] (w as u32)) {
            Ok(i) => {
                match i.execute(self) {
                    Ok(()) => ExecutionResult::Continue,
                    Err(_) => ExecutionResult::Finished,
                }
            },
            Err(_) => ExecutionResult::Finished,
        }
    }

    /// Step repeatedly until the processor halts: either some step raises
    /// an exception, after which the state of that partial step is left in
    /// place, or the run's step budget — far beyond what any halting
    /// program reaches — runs out with every step so far continuing.
    pub fn run(&mut self)
        requires
            old(self).wf(),
            usize::MAX >= 0x1_0000_0004,
        ensures
            final(self).wf(),
            (exists|n: nat| n < RUN_FUEL && runs_to(old(self)@, final(self)@, n)) || ((forall|
                k: nat,
            |
                k < RUN_FUEL ==> (#[trigger] step_spec(run_n(old(self)@, k))).1) && final(self)@
                == run_n(old(self)@, RUN_FUEL as nat)),
    {
        let ghost s0 = self@;
        let ghost mut n: nat = 0;
        let mut fuel: u64 = RUN_FUEL;
        while fuel > 0
            invariant_except_break
                self.wf(),
                usize::MAX >= 0x1_0000_0004,
                n + fuel == RUN_FUEL,
                self@ == run_n(s0, n),
                forall|k: nat| k < n ==> (#[trigger] step_spec(run_n(s0, k))).1,
            ensures
                self.wf(),
                (exists|m: nat| m < RUN_FUEL && runs_to(s0, self@, m)) || ((forall|k: nat|
                    k < RUN_FUEL ==> (#[trigger] step_spec(run_n(s0, k))).1) && self@ == run_n(
                    s0,
                    RUN_FUEL as nat,
                )),
            decreases fuel,
        {
            let r = self.step();
            proof {
                assert(run_n(s0, n + 1) == step_spec(run_n(s0, n)).0);
            }
            match r {
                ExecutionResult::Continue => {
                    fuel = fuel - 1;
                    proof {
                        n = n + 1;
                    }
                },
                ExecutionResult::Finished => {
                    proof {
                        assert(runs_to(s0, self@, n));
                    }
                    break ;
                },
            }
        }
    }

    /// Set the program counter to `initial_mem_location`, then run until
    /// the processor halts.
    pub fn run_from(&mut self, initial_mem_location: i32)
        requires
            old(self).wf(),
            usize::MAX >= 0x1_0000_0004,
        ensures
            final(self).wf(),
            ({
                let started = ProcState { pc: initial_mem_location, ..old(self)@ };
                (exists|n: nat| n < RUN_FUEL && runs_to(started, final(self)@, n)) || ((forall|
                    k: nat,
                |
                    k < RUN_FUEL ==> (#[trigger] step_spec(run_n(started, k))).1) && final(self)@
                    == run_n(started, RUN_FUEL as nat))
            }),
    {
        self.pc = initial_mem_location;
        self.run()
    }

    /// Encode each instruction to its little-endian 32-bit form and store
    /// the words sequentially from `initial_mem_location`, each instruction
    /// advancing the location by its four-byte size, growing memory one
    /// word past the stored range.
    pub fn store_instructions(&mut self, initial_mem_location: usize, instructions: &Vec<Instruction>)
        requires
            initial_mem_location + 4 * instructions@.len() + 4 <= usize::MAX,
        ensures
            final(self).wf() == old(self).wf(),
            final(self)@ == (ProcState {
                mem: grown(
                    store_prog(old(self)@.mem, initial_mem_location as int, instructions@),
                    initial_mem_location + 4 * instructions@.len() + 4,
                ),
                ..old(self)@
            }),
    {
        let mut location: usize = initial_mem_location;
        let n: usize = instructions.len();
        let mut idx: usize = 0;
        while idx < n
            invariant
                n == instructions@.len(),
                idx <= n,
                location == initial_mem_location + 4 * idx,
                initial_mem_location + 4 * n + 4 <= usize::MAX,
                self.memory@ == store_prog(
                    old(self)@.mem,
                    initial_mem_location as int,
                    instructions@.subrange(0, idx as int),
                ),
                self.registers == old(self).registers,
                self.csrs == old(self).csrs,
                self.pc == old(self).pc,
            decreases n - idx,
        {
            let word: u32 = instructions[idx].encode();
            self.memory.store_word(location, #[verifier::truncate] (word as i32));
            proof {
                lemma_store_prog_snoc(
                    old(self)@.mem,
                    initial_mem_location as int,
                    instructions@.subrange(0, idx as int),
                    instructions@[idx as int],
                );
                assert(instructions@.subrange(0, idx as int).push(instructions@[idx as int])
                    =~= instructions@.subrange(0, idx + 1));
            }
            location = location + 4;
            idx = idx + 1;
        }
        self.memory.grow_to(location + 4);
        proof {
            assert(instructions@.subrange(0, n as int) =~= instructions@);
        }
    }
}

/// Whether a run of the processor continues with another step or has
/// reached the terminal halted state.
#[derive(Debug, PartialEq, Eq, Structural, Clone, Copy)]
pub enum ExecutionResult {
    /// The step completed without an exception; the processor keeps running.
    Continue,
    /// The step raised an exception; the processor is halted.
    Finished,
}

} // verus!
