//! The registers of the hart that the kernel writes, as plain values.
//!
//! The kernel's decisions are stated over this model. On the machine each
//! [`Write`] is performed on the real register; in a simulation it is
//! performed on a [`Hart`].

use vstd::prelude::*;

verus! {

/// Supervisor interrupt enable, in the status register.
pub const SSTATUS_SIE: usize = 0x2;

/// Supervisor timer interrupt enable, in the interrupt-enable register.
pub const SIE_STIE: usize = 0x20;

/// Supervisor software interrupt pending, in the interrupt-pending register.
pub const SIP_SSIP: usize = 0x2;

/// Supervisor timer interrupt pending, in the interrupt-pending register.
pub const SIP_STIP: usize = 0x20;

/// Supervisor external interrupt pending, in the interrupt-pending register.
pub const SIP_SEIP: usize = 0x200;

/// One write to one register.
#[derive(Clone, Copy, Debug, PartialEq, Eq, Structural)]
pub enum Write {
    /// Store a value in the trap-vector register.
    TrapVector(usize),
    /// Set the supervisor interrupt enable bit of the status register.
    EnableInterrupts,
    /// Set the timer bit of the interrupt-enable register.
    EnableTimerInterrupt,
    /// Clear the software bit of the interrupt-pending register.
    ClearSoftwarePending,
    /// Store a deadline in the timer's compare register.
    Compare(u64),
}

/// The state that the kernel can change.
#[derive(Clone, Copy, Debug, PartialEq, Eq, Structural)]
pub struct Hart {
    /// The trap-vector register.
    pub stvec: usize,
    /// The status register.
    pub sstatus: usize,
    /// The interrupt-enable register.
    pub sie: usize,
    /// The interrupt-pending register.
    pub sip: usize,
    /// The timer's compare register of this hart.
    pub mtimecmp: u64,
    /// Whether the hart has entered its terminal loop.
    pub halted: bool,
}

impl Hart {
    /// The hart after one write.
    pub open spec fn after_write(self, write: Write) -> Hart {
        match write {
            Write::TrapVector(bits) => Hart { stvec: bits, ..self },
            Write::EnableInterrupts => Hart { sstatus: self.sstatus | SSTATUS_SIE, ..self },
            Write::EnableTimerInterrupt => Hart { sie: self.sie | SIE_STIE, ..self },
            Write::ClearSoftwarePending => Hart { sip: self.sip & !SIP_SSIP, ..self },
            Write::Compare(deadline) => Hart { mtimecmp: deadline, ..self },
        }
    }

    /// The hart after a sequence of writes, the first of them made first.
    pub open spec fn after_writes(self, writes: Seq<Write>) -> Hart
        decreases writes.len(),
    {
        if writes.len() == 0 {
            self
        } else {
            self.after_writes(writes.drop_last()).after_write(writes.last())
        }
    }

    /// The hart once it has entered its terminal loop: every register is as
    /// it was.
    pub open spec fn after_halt(self) -> Hart {
        Hart { halted: true, ..self }
    }

    /// Performs one write.
    pub fn write(&mut self, write: Write)
        ensures
            *final(self) == old(self).after_write(write),
    {
        match write {
            Write::TrapVector(bits) => {
                self.stvec = bits;
            },
            Write::EnableInterrupts => {
                self.sstatus = self.sstatus | SSTATUS_SIE;
            },
            Write::EnableTimerInterrupt => {
                self.sie = self.sie | SIE_STIE;
            },
            Write::ClearSoftwarePending => {
                self.sip = self.sip & !SIP_SSIP;
            },
            Write::Compare(deadline) => {
                self.mtimecmp = deadline;
            },
        }
    }

    /// Enters the terminal loop. Nothing is written, and nothing the kernel
    /// does afterwards changes the hart.
    pub fn halt(&mut self)
        ensures
            *final(self) == old(self).after_halt(),
    {
        self.halted = true;
    }
}

/// Clearing the software-pending bit clears that bit and no other: whatever
/// else was pending, the timer and external bits among it, stays pending.
pub proof fn lemma_clear_software_pending(hart: Hart)
    ensures
        hart.after_write(Write::ClearSoftwarePending).sip & SIP_SSIP == 0,
        hart.after_write(Write::ClearSoftwarePending).sip | SIP_SSIP == hart.sip | SIP_SSIP,
        hart.after_write(Write::ClearSoftwarePending).sip & SIP_STIP == hart.sip & SIP_STIP,
        hart.after_write(Write::ClearSoftwarePending).sip & SIP_SEIP == hart.sip & SIP_SEIP,
{
    let sip = hart.sip;
    assert((sip & !0x2usize) & 0x2 == 0) by (bit_vector);
    assert((sip & !0x2usize) | 0x2 == sip | 0x2) by (bit_vector);
    assert((sip & !0x2usize) & 0x20 == sip & 0x20) by (bit_vector);
    assert((sip & !0x2usize) & 0x200 == sip & 0x200) by (bit_vector);
}

/// Halting twice is halting once, and halting touches no register.
pub proof fn lemma_halt_idempotent(hart: Hart)
    ensures
        hart.after_halt().after_halt() == hart.after_halt(),
        hart.after_halt().halted,
        hart.after_halt().stvec == hart.stvec,
        hart.after_halt().sstatus == hart.sstatus,
        hart.after_halt().sie == hart.sie,
        hart.after_halt().sip == hart.sip,
        hart.after_halt().mtimecmp == hart.mtimecmp,
{
}

} // verus!
