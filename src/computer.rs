//! A processor wired to its RAM: one call runs one instruction cycle.
use vstd::prelude::*;
use std::ops::Range;
use crate::cpu::CPU;
use crate::laws::lemma_with_gpr_wf;
use crate::memory::{be_read, be_write, valid_size, Memory};
use crate::state::{initial_state, tick, CpuState, Fault, MemoryBuffer};

verus! {

/// The `j 0` instruction placed at the start of the program segment, so that
/// an empty machine spins in place.
pub const LOOP_INSTRUCTION: u32 = 0x0800_0000;

/// Three disjoint address ranges: the program, the video RAM and the data.
pub struct MemoryLayout {
    pub program: Range<u32>,
    pub video_ram: Range<u32>,
    pub data: Range<u32>,
}

/// Why an instruction cycle stopped.
#[derive(Clone, Copy, Debug, PartialEq, Eq, Structural)]
pub enum StepFault {
    /// The processor faulted.
    Cpu(Fault),
    /// The processor asked for a transaction outside RAM.
    Bus(MemoryBuffer),
}

/// The transaction `b` served against `ram`: the new contents and the word to
/// hand back to the processor.
pub open spec fn serve(ram: Seq<u8>, b: MemoryBuffer) -> Result<(Seq<u8>, u32), StepFault> {
    if b.data_size == 0 {
        Ok((ram, 0))
    } else if !valid_size(b.data_size as int) || b.address + b.data_size > ram.len() {
        Err(StepFault::Bus(b))
    } else if b.store {
        Ok((be_write(ram, b.address as int, b.data, b.data_size as int), 0))
    } else {
        Ok((ram, be_read(ram, b.address as int, b.data_size as int)))
    }
}

/// `n` ticks, each handed the word that serving the previous one produced.
pub open spec fn run_ticks(cpu: CpuState, ram: Seq<u8>, value: u32, requests: u8, n: nat) -> Result<
    (CpuState, Seq<u8>),
    StepFault,
>
    decreases n,
{
    if n == 0 {
        Ok((cpu, ram))
    } else {
        match tick(cpu, value, requests) {
            Err(f) => Err(StepFault::Cpu(f)),
            Ok(t) => match serve(ram, t.buffer) {
                Err(e) => Err(e),
                Ok((ram2, v)) => run_ticks(t, ram2, v, requests, (n - 1) as nat),
            },
        }
    }
}

/// The processor and its RAM.
pub struct Computer {
    cpu: CPU,
    ram: Memory,
}

impl View for Computer {
    type V = (CpuState, Seq<u8>);

    closed spec fn view(&self) -> (CpuState, Seq<u8>) {
        (self.cpu@, self.ram@)
    }
}

impl Computer {
    pub closed spec fn wf(self) -> bool {
        self.cpu@.wf()
    }

    /// A machine with `memory_size` bytes of zeroed RAM, the spin instruction
    /// at the start of the program segment, and the processor after reset.
    pub fn new(memory_size: usize, memory_layout: MemoryLayout) -> (r: Computer)
        requires
            memory_layout.program.start + 4 <= memory_size,
        ensures
            r.wf(),
            r@.0 == initial_state(),
            r@.1 == be_write(
                Seq::new(memory_size as nat, |i: int| 0u8),
                memory_layout.program.start as int,
                LOOP_INSTRUCTION,
                4,
            ),
    {
        let mut ram = Memory::new(memory_size);
        ram.write_data(memory_layout.program.start, LOOP_INSTRUCTION, 4);
        Computer { cpu: CPU::new(), ram }
    }

    pub fn cpu(&self) -> (r: &CPU)
        ensures
            r@ == self@.0,
    {
        &self.cpu
    }

    pub fn ram(&self) -> (r: &Memory)
        ensures
            r@ == self@.1,
    {
        &self.ram
    }

    /// Stores into RAM, as a program loader would.
    pub fn write_memory(&mut self, address: u32, data: u32, size: u8)
        requires
            valid_size(size as int),
            address + size <= old(self)@.1.len(),
        ensures
            final(self)@.0 == old(self)@.0,
            final(self)@.1 == be_write(old(self)@.1, address as int, data, size as int),
            final(self).wf() == old(self).wf(),
    {
        self.ram.write_data(address, data, size);
    }

    /// Writes an integer register, as a loader or debugger would.
    pub fn set_gpr(&mut self, r: u8, v: u32)
        requires
            old(self).wf(),
            r < 32,
        ensures
            final(self)@.0 == old(self)@.0.with_gpr(r as u32, v),
            final(self)@.1 == old(self)@.1,
            final(self).wf(),
    {
        proof {
            lemma_with_gpr_wf(self@.0, r as u32, v);
        }
        self.cpu.set_gpr(r, v);
    }

    /// Hands the host's result for the pending floating-point computation to the processor.
    pub fn complete_float_op(&mut self, result: u64)
        requires
            old(self).wf(),
        ensures
            final(self)@.0 == crate::state::complete_float(old(self)@.0, result),
            final(self)@.1 == old(self)@.1,
            final(self).wf(),
    {
        self.cpu.complete_float_op(result);
    }

    /// Serves one transaction against RAM.
    fn serve(&mut self, b: MemoryBuffer) -> (r: Result<u32, StepFault>)
        ensures
            match serve(old(self)@.1, b) {
                Ok((ram, v)) => r == Ok::<u32, StepFault>(v) && final(self)@ == (old(self)@.0, ram),
                Err(e) => r == Err::<u32, StepFault>(e) && final(self)@ == old(self)@,
            },
    {
        if b.data_size == 0 {
            Ok(0)
        } else if !(b.data_size == 1 || b.data_size == 2 || b.data_size == 4) || b.address as usize
            > self.ram.len() || b.data_size as usize > self.ram.len() - b.address as usize {
            Err(StepFault::Bus(b))
        } else if b.store {
            self.ram.write_data(b.address, b.data, b.data_size);
            Ok(0)
        } else {
            Ok(self.ram.read_data(b.address, b.data_size))
        }
    }

    /// One instruction cycle: four ticks, each transaction served against RAM
    /// and its result handed to the next tick.
    pub fn cpu_step(&mut self, interrupt_requests: u8) -> (r: Result<(), StepFault>)
        requires
            old(self).wf(),
        ensures
            final(self).wf(),
            match run_ticks(old(self)@.0, old(self)@.1, 0, interrupt_requests, 4) {
                Ok(after) => r == Ok::<(), StepFault>(()) && final(self)@ == after,
                Err(e) => r == Err::<(), StepFault>(e),
            },
    {
        let mut value: u32 = 0;
        let mut i: usize = 0;
        while i < 4
            invariant
                i <= 4,
                self.wf(),
                run_ticks(old(self)@.0, old(self)@.1, 0, interrupt_requests, 4) == run_ticks(
                    self@.0,
                    self@.1,
                    value,
                    interrupt_requests,
                    (4 - i) as nat,
                ),
            decreases 4 - i,
        {
            let b = match self.cpu.tick(value, interrupt_requests) {
                Ok(b) => b,
                Err(f) => return Err(StepFault::Cpu(f)),
            };
            value = match self.serve(b) {
                Ok(v) => v,
                Err(e) => return Err(e),
            };
            i = i + 1;
        }
        Ok(())
    }
}

} // verus!
