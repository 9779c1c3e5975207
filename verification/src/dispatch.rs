//! The trap dispatcher: from the cause of a trap to what is done about it.
//!
//! Two causes are handled. A supervisor software interrupt is acknowledged by
//! clearing its pending bit; a supervisor timer interrupt moves the timer's
//! deadline one period on. Both return to what was interrupted. Every other
//! cause, reserved or not, is fatal: the hart halts.

use crate::cause::{decode, decoded, DecodeError, Interrupt, Trap};
use crate::hart::lemma_clear_software_pending;
use crate::hart::{Hart, Write, SIP_SEIP, SIP_SSIP, SIP_STIP};
use crate::timer::{can_rearm, deadline_after, next_deadline, PERIOD};
use vstd::prelude::*;

verus! {

/// What the handler of a trap does before it returns.
#[derive(Clone, Copy, Debug, PartialEq, Eq, Structural)]
pub enum Action {
    /// Perform this write.
    Write(Write),
    /// Read the timer's counter and perform the write that [`rearm`] gives
    /// for it.
    Rearm,
}

/// Why a trap was not handled. The hart does not return from such a trap.
#[derive(Clone, Copy, Debug, PartialEq, Eq, Structural)]
pub enum Fatal {
    /// The cause register held a reserved code.
    Undecodable(DecodeError),
    /// The cause is one that the kernel has no handler for.
    Unimplemented(Trap),
    /// The hart had halted before.
    Halted,
}

/// The route of a decoded trap.
pub open spec fn dispatched(trap: Trap) -> Result<Action, Fatal> {
    match trap {
        Trap::Interrupt(Interrupt::SupervisorSoft) => Ok(Action::Write(Write::ClearSoftwarePending)),
        Trap::Interrupt(Interrupt::SupervisorTimer) => Ok(Action::Rearm),
        _ => Err(Fatal::Unimplemented(trap)),
    }
}

/// The route of a trap, from the value of the cause register.
pub open spec fn serviced(scause: usize) -> Result<Action, Fatal> {
    match decoded(scause) {
        Ok(trap) => dispatched(trap),
        Err(error) => Err(Fatal::Undecodable(error)),
    }
}

/// The write that rearms the timer at counter value `now`.
pub open spec fn rearmed(now: u64) -> Write {
    Write::Compare(deadline_after(now) as u64)
}

/// Routes a decoded trap.
///
/// The software and the timer interrupt are handled, and nothing else is:
/// whatever the trap, it is either acted on or reported as fatal.
pub fn dispatch(trap: Trap) -> (r: Result<Action, Fatal>)
    ensures
        r == dispatched(trap),
        r is Ok <==> trap == Trap::Interrupt(Interrupt::SupervisorSoft) || trap == Trap::Interrupt(
            Interrupt::SupervisorTimer,
        ),
{
    match trap {
        Trap::Interrupt(Interrupt::SupervisorSoft) => Ok(Action::Write(Write::ClearSoftwarePending)),
        Trap::Interrupt(Interrupt::SupervisorTimer) => Ok(Action::Rearm),
        _ => Err(Fatal::Unimplemented(trap)),
    }
}

/// Decodes the cause register and routes the trap.
pub fn service(scause: usize) -> (r: Result<Action, Fatal>)
    ensures
        r == serviced(scause),
{
    match decode(scause) {
        Ok(trap) => dispatch(trap),
        Err(error) => Err(Fatal::Undecodable(error)),
    }
}

/// The one write that a timer interrupt asks for: the compare register is
/// set one period past `now`, the counter value read in this interrupt.
pub fn rearm(now: u64) -> (write: Write)
    requires
        can_rearm(now),
    ensures
        write == rearmed(now),
        write == Write::Compare((now + PERIOD) as u64),
{
    Write::Compare(next_deadline(now))
}

impl Hart {
    /// What a trap with cause `scause` leads to, when a read of the timer's
    /// counter gives `now`: the one write that is made, or why the hart halts.
    pub open spec fn reply(self, scause: usize, now: u64) -> Result<Write, Fatal> {
        if self.halted {
            Err(Fatal::Halted)
        } else {
            match serviced(scause) {
                Ok(Action::Write(write)) => Ok(write),
                Ok(Action::Rearm) => Ok(rearmed(now)),
                Err(fatal) => Err(fatal),
            }
        }
    }

    /// The hart after such a trap.
    pub open spec fn after_trap(self, scause: usize, now: u64) -> Hart {
        match self.reply(scause, now) {
            Ok(write) => self.after_write(write),
            Err(_) => self.after_halt(),
        }
    }

    /// The hart after one trap with cause `scause` for each of `reads`, in
    /// order, the counter reading `reads[k]` in the `k`-th.
    pub open spec fn after_traps(self, scause: usize, reads: Seq<u64>) -> Hart
        decreases reads.len(),
    {
        if reads.len() == 0 {
            self
        } else {
            self.after_traps(scause, reads.drop_last()).after_trap(scause, reads.last())
        }
    }

    /// Whether each of the timer interrupts of `after_traps` is serviced at
    /// the very tick of its deadline: the counter reads what the compare
    /// register holds.
    pub open spec fn on_time(self, scause: usize, reads: Seq<u64>) -> bool {
        forall|k: int|
            0 <= k < reads.len() ==> reads[k] == (#[trigger] self.after_traps(
                scause,
                reads.take(k),
            )).mtimecmp
    }

    /// Takes a trap with cause `scause`; `now` is what the timer's counter
    /// reads during it.
    ///
    /// A handled trap makes exactly one write, which is returned, and leaves
    /// the hart running. A fatal one makes none and halts the hart. The trap
    /// vector and the interrupt enables are never touched, and the enables
    /// are not asked either: a software interrupt is acknowledged whether or
    /// not its source was enabled.
    pub fn trap(&mut self, scause: usize, now: u64) -> (r: Result<Write, Fatal>)
        requires
            !old(self).halted && serviced(scause) == Ok::<Action, Fatal>(Action::Rearm)
                ==> can_rearm(now),
        ensures
            r == old(self).reply(scause, now),
            *final(self) == old(self).after_trap(scause, now),
            final(self).halted <==> r is Err,
            final(self).stvec == old(self).stvec,
            final(self).sstatus == old(self).sstatus,
            final(self).sie == old(self).sie,
    {
        if self.halted {
            return Err(Fatal::Halted);
        }
        match service(scause) {
            Ok(action) => {
                let write = match action {
                    Action::Write(write) => write,
                    Action::Rearm => rearm(now),
                };
                self.write(write);
                Ok(write)
            },
            Err(fatal) => {
                self.halt();
                Err(fatal)
            },
        }
    }
}

/// A software interrupt clears the software-pending bit and nothing else:
/// the other pending bits, the timer and external ones among them, the
/// compare register and all the rest stay as they were.
pub proof fn lemma_software_interrupt(hart: Hart, scause: usize, now: u64)
    requires
        !hart.halted,
        decoded(scause) == Ok::<Trap, DecodeError>(Trap::Interrupt(Interrupt::SupervisorSoft)),
    ensures
        hart.reply(scause, now) == Ok::<Write, Fatal>(Write::ClearSoftwarePending),
        hart.after_trap(scause, now) == (Hart { sip: hart.after_trap(scause, now).sip, ..hart }),
        hart.after_trap(scause, now).sip & SIP_SSIP == 0,
        hart.after_trap(scause, now).sip | SIP_SSIP == hart.sip | SIP_SSIP,
        hart.after_trap(scause, now).sip & SIP_STIP == hart.sip & SIP_STIP,
        hart.after_trap(scause, now).sip & SIP_SEIP == hart.sip & SIP_SEIP,
{
    lemma_clear_software_pending(hart);
}

/// A timer interrupt writes the compare register and nothing else: no
/// pending bit is cleared, the software one no more than the others. The
/// new deadline is one period past the counter, and so still ahead of it.
pub proof fn lemma_timer_interrupt(hart: Hart, scause: usize, now: u64)
    requires
        !hart.halted,
        decoded(scause) == Ok::<Trap, DecodeError>(Trap::Interrupt(Interrupt::SupervisorTimer)),
    ensures
        hart.reply(scause, now) == Ok::<Write, Fatal>(rearmed(now)),
        hart.after_trap(scause, now) == (Hart {
            mtimecmp: hart.after_trap(scause, now).mtimecmp,
            ..hart
        }),
        hart.after_trap(scause, now).sip == hart.sip,
        can_rearm(now) ==> hart.after_trap(scause, now).mtimecmp == now + PERIOD,
        can_rearm(now) ==> hart.after_trap(scause, now).mtimecmp > now,
{
}

/// The dispatcher does not ask whether an interrupt was enabled: with other
/// enables the answer is the same, and so is what becomes of every register.
/// A software interrupt is acknowledged though only the timer was enabled.
pub proof fn lemma_enables_are_not_asked(
    hart: Hart,
    sstatus: usize,
    sie: usize,
    scause: usize,
    now: u64,
)
    ensures
        (Hart { sstatus, sie, ..hart }).reply(scause, now) == hart.reply(scause, now),
        (Hart { sstatus, sie, ..hart }).after_trap(scause, now) == (Hart {
            sstatus,
            sie,
            ..hart.after_trap(scause, now)
        }),
{
}

/// Every cause but the software and the timer interrupt is fatal, and the
/// same cause is so every time: the hart halts, with the reason given, and
/// no register is written.
pub proof fn lemma_other_causes_are_fatal(hart: Hart, scause: usize, now: u64)
    requires
        !hart.halted,
    ensures
        hart.reply(scause, now) is Err <==> !(decoded(scause) == Ok::<Trap, DecodeError>(
            Trap::Interrupt(Interrupt::SupervisorSoft),
        ) || decoded(scause) == Ok::<Trap, DecodeError>(
            Trap::Interrupt(Interrupt::SupervisorTimer),
        )),
        hart.after_trap(scause, now).halted <==> hart.reply(scause, now) is Err,
        hart.reply(scause, now) is Err ==> hart.after_trap(scause, now) == hart.after_halt(),
        hart.reply(scause, now) is Err ==> hart.reply(scause, now) == Err::<Write, Fatal>(
            match decoded(scause) {
                Ok(trap) => Fatal::Unimplemented(trap),
                Err(error) => Fatal::Undecodable(error),
            },
        ),
{
}

/// The terminal state is the same whatever led to it: two fatal traps, of
/// whatever causes, leave the hart exactly as a plain halt does.
pub proof fn lemma_one_terminal_state(
    hart: Hart,
    scause: usize,
    now: u64,
    other_scause: usize,
    other_now: u64,
)
    requires
        hart.reply(scause, now) is Err,
        hart.reply(other_scause, other_now) is Err,
    ensures
        hart.after_trap(scause, now) == hart.after_halt(),
        hart.after_trap(other_scause, other_now) == hart.after_trap(scause, now),
{
}

/// A halted hart stays as it is: no trap, no boot sequence and no further
/// halt changes anything, and every trap is answered with `Fatal::Halted`.
pub proof fn lemma_halted_is_terminal(hart: Hart, scause: usize, now: u64, handler: usize)
    requires
        hart.halted,
    ensures
        hart.reply(scause, now) == Err::<Write, Fatal>(Fatal::Halted),
        hart.after_trap(scause, now) == hart,
        hart.after_boot(handler) == hart,
        hart.after_halt() == hart,
{
}

/// Timer interrupts do not halt a running hart, however many there are.
pub proof fn lemma_timer_interrupts_keep_running(hart: Hart, scause: usize, reads: Seq<u64>)
    requires
        !hart.halted,
        decoded(scause) == Ok::<Trap, DecodeError>(Trap::Interrupt(Interrupt::SupervisorTimer)),
    ensures
        !hart.after_traps(scause, reads).halted,
    decreases reads.len(),
{
    if reads.len() > 0 {
        lemma_timer_interrupts_keep_running(hart, scause, reads.drop_last());
    }
}

/// With no timer interrupt missed, the deadlines are exactly one period
/// apart: the deadline set by the interrupt after `n` others is the one that
/// was in force before it, plus the period.
pub proof fn lemma_cadence(hart: Hart, scause: usize, reads: Seq<u64>, n: int)
    requires
        !hart.halted,
        decoded(scause) == Ok::<Trap, DecodeError>(Trap::Interrupt(Interrupt::SupervisorTimer)),
        hart.on_time(scause, reads),
        forall|k: int| 0 <= k < reads.len() ==> can_rearm(#[trigger] reads[k]),
        0 <= n < reads.len(),
    ensures
        hart.after_traps(scause, reads.take(n + 1)).mtimecmp == hart.after_traps(
            scause,
            reads.take(n),
        ).mtimecmp + PERIOD,
{
    assert(reads.take(n + 1).drop_last() =~= reads.take(n));
    lemma_timer_interrupts_keep_running(hart, scause, reads.take(n));
}

/// With no timer interrupt missed, the deadline after `n` interrupts is the
/// first one plus `n` periods.
pub proof fn lemma_nth_deadline(hart: Hart, scause: usize, reads: Seq<u64>, n: int)
    requires
        !hart.halted,
        decoded(scause) == Ok::<Trap, DecodeError>(Trap::Interrupt(Interrupt::SupervisorTimer)),
        hart.on_time(scause, reads),
        forall|k: int| 0 <= k < reads.len() ==> can_rearm(#[trigger] reads[k]),
        0 <= n <= reads.len(),
    ensures
        hart.after_traps(scause, reads.take(n)).mtimecmp == hart.mtimecmp + n * PERIOD,
    decreases n,
{
    if n == 0 {
        assert(reads.take(0) =~= Seq::<u64>::empty());
    } else {
        lemma_nth_deadline(hart, scause, reads, n - 1);
        lemma_cadence(hart, scause, reads, n - 1);
    }
}

} // verus!
