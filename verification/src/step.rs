//! One fetch-decode-execute step of the processor.

use vstd::prelude::*;
use crate::addr::Addr;
use crate::cpu::{Cpu, Outcome};
use crate::error::Error;
use crate::instructions::Instruction;
use crate::mapper::Mapper;
use crate::memory::{Memory, MemoryModel};
use crate::stack::wrap16;

verus! {

impl Cpu {
    /// The registers after the instruction `inst` has been fetched: the
    /// program counter stands behind it.
    pub open spec fn spec_fetched(self, inst: Instruction) -> Cpu {
        Cpu { pc: wrap16(self.pc, inst.len() as int), ..self }
    }

    /// The machine after one step, with the cycles that the step cost.
    ///
    /// The instruction at the program counter is decoded, the program counter
    /// moves behind it, and the instruction is executed. A step that ends
    /// where it began marks the processor as stalling. A failed decode leaves
    /// the machine as it was; a failed execution leaves it as the instruction
    /// left it.
    pub open spec fn spec_step<M: Mapper>(self, mem: MemoryModel<M>) -> Outcome<M, u16> {
        match Instruction::spec_decode(mem, self.pc) {
            Err(e) => Outcome { cpu: self, mem, result: Err(e) },
            Ok(inst) => {
                let done = inst.spec_execute(self.spec_fetched(inst), mem);
                match done.result {
                    Err(e) => Outcome { cpu: done.cpu, mem: done.mem, result: Err(e) },
                    Ok(_) => Outcome {
                        cpu: if done.cpu.pc == self.pc {
                            Cpu { is_stalling: true, ..done.cpu }
                        } else {
                            done.cpu
                        },
                        mem: done.mem,
                        result: Ok(inst.cycles()),
                    },
                }
            },
        }
    }

    /// Runs one instruction and returns the machine cycles it cost.
    pub fn step<M: Mapper>(&mut self, mem: &mut Memory<M>) -> (r: Result<u16, Error>)
        ensures
            old(self).spec_step(old(mem)@) == (Outcome { cpu: *final(self), mem: final(mem)@, result: r }),
    {
        let last_pc = self.pc;
        let inst = match Instruction::decode(mem, Addr(last_pc)) {
            Ok(inst) => inst,
            Err(e) => {
                return Err(e);
            },
        };
        self.pc = self.pc.wrapping_add(inst.len());
        let cycles = inst.cycles();
        match inst.execute(self, mem) {
            Ok(()) => {},
            Err(e) => {
                return Err(e);
            },
        }
        if self.pc == last_pc {
            self.is_stalling = true;
        }
        Ok(cycles)
    }
}

} // verus!
