//! What the kernel does once, on entry: it installs its trap handler and
//! enables the timer interrupt. After that the hart only waits for interrupts.

use crate::hart::{Hart, Write, SIE_STIE, SSTATUS_SIE};
use crate::vector::lemma_vector_read_back;
use crate::vector::{address_of, aligned, direct_vector, mode_of, vector_bits, TrapMode};
use vstd::prelude::*;

verus! {

/// What the boot firmware hands to the kernel. Nothing, so far.
pub struct Args {
    reserved: (),
}

impl Args {
    /// The one value of the type.
    pub closed spec fn empty() -> Args {
        Args { reserved: () }
    }

    /// The arguments of a kernel that takes none.
    pub fn new() -> (args: Args)
        ensures
            args == Args::empty(),
    {
        Args { reserved: () }
    }
}

/// The writes of the boot sequence for a handler at `handler`, in their
/// order: the trap vector, in direct mode, before any interrupt is enabled;
/// then interrupts as a whole; then the timer interrupt.
pub open spec fn planned(handler: usize) -> Seq<Write> {
    seq![
        Write::TrapVector(vector_bits(handler, TrapMode::Direct)),
        Write::EnableInterrupts,
        Write::EnableTimerInterrupt,
    ]
}

/// Computes the writes of the boot sequence, to be made in the order given.
///
/// A handler's address is a multiple of four; the trap-vector register cannot
/// hold another.
pub fn plan(_args: &Args, handler: usize) -> (writes: [Write; 3])
    requires
        aligned(handler),
    ensures
        writes@ == planned(handler),
{
    let writes = [
        Write::TrapVector(direct_vector(handler)),
        Write::EnableInterrupts,
        Write::EnableTimerInterrupt,
    ];
    assert(writes@ =~= planned(handler));
    writes
}

impl Hart {
    /// The hart after the boot sequence. A halted hart stays as it is.
    pub open spec fn after_boot(self, handler: usize) -> Hart {
        if self.halted {
            self
        } else {
            self.after_writes(planned(handler))
        }
    }

    /// Runs the boot sequence for a handler at `handler`.
    ///
    /// Afterwards the trap-vector register holds `handler` itself, which
    /// reads back as that address in direct mode; interrupts and the timer
    /// interrupt are enabled; and nothing else has changed: no other
    /// interrupt source is enabled, nothing pending is touched and the timer
    /// is not armed.
    pub fn boot(&mut self, args: &Args, handler: usize)
        requires
            aligned(handler),
        ensures
            *final(self) == old(self).after_boot(handler),
            !old(self).halted ==> {
                &&& final(self).stvec == handler
                &&& address_of(final(self).stvec) == handler
                &&& mode_of(final(self).stvec) == Some(TrapMode::Direct)
                &&& final(self).sstatus == old(self).sstatus | SSTATUS_SIE
                &&& final(self).sie == old(self).sie | SIE_STIE
                &&& final(self).sip == old(self).sip
                &&& final(self).mtimecmp == old(self).mtimecmp
                &&& !final(self).halted
            },
    {
        if self.halted {
            return ;
        }
        let writes = plan(args, handler);
        proof {
            lemma_boot(*self, handler);
        }
        self.write(writes[0]);
        self.write(writes[1]);
        self.write(writes[2]);
    }
}

/// The boot sequence written out: what each of its three writes leaves
/// behind, and that the trap vector reads back as the handler's address in
/// direct mode.
pub proof fn lemma_boot(hart: Hart, handler: usize)
    requires
        aligned(handler),
        !hart.halted,
    ensures
        hart.after_boot(handler) == hart.after_write(planned(handler)[0]).after_write(
            planned(handler)[1],
        ).after_write(planned(handler)[2]),
        hart.after_boot(handler) == (Hart {
            stvec: vector_bits(handler, TrapMode::Direct),
            sstatus: hart.sstatus | SSTATUS_SIE,
            sie: hart.sie | SIE_STIE,
            ..hart
        }),
        hart.after_boot(handler).stvec == handler,
        address_of(hart.after_boot(handler).stvec) == handler,
        mode_of(hart.after_boot(handler).stvec) == Some(TrapMode::Direct),
{
    assert(handler | 0 == handler) by (bit_vector);
    let writes = planned(handler);
    let two = writes.drop_last();
    let one = two.drop_last();
    assert(one.drop_last() =~= Seq::<Write>::empty());
    assert(hart.after_writes(one.drop_last()) == hart);
    assert(hart.after_writes(one) == hart.after_write(writes[0]));
    assert(hart.after_writes(two) == hart.after_write(writes[0]).after_write(writes[1]));
    lemma_vector_read_back(handler, TrapMode::Direct);
}

} // verus!
