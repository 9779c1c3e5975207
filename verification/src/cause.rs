//! Decoding of the supervisor cause register.
//!
//! The register holds one flag, its top bit, which tells interrupts from
//! exceptions, and a code in the remaining bits. Only some codes are assigned
//! by the privileged architecture; the others are reserved and are rejected.

use riscv::interrupt::supervisor::Exception as RiscvException;
use riscv::interrupt::supervisor::Interrupt as RiscvInterrupt;
use riscv::interrupt::Trap as RiscvTrap;
use riscv::register::scause::Scause;
use riscv::ExceptionNumber;
use vstd::prelude::*;

verus! {

/// A supervisor-level interrupt source.
#[derive(Clone, Copy, Debug, PartialEq, Eq, Structural)]
pub enum Interrupt {
    SupervisorSoft,
    SupervisorTimer,
    SupervisorExternal,
}

/// A synchronous exception, held by its code.
///
/// The kernel handles no exception, so nothing here tells one from another;
/// the code is kept for whoever reports the failure.
#[derive(Clone, Copy, Debug, PartialEq, Eq, Structural)]
pub struct Exception {
    pub code: usize,
}

/// The cause of a trap, as far as the architecture assigns it a meaning.
#[derive(Clone, Copy, Debug, PartialEq, Eq, Structural)]
pub enum Trap {
    Interrupt(Interrupt),
    Exception(Exception),
}

/// The two fields of the cause register, before their code is given a meaning.
#[derive(Clone, Copy, Debug, PartialEq, Eq, Structural)]
pub enum RawTrap {
    Interrupt(usize),
    Exception(usize),
}

/// A cause register value whose code the architecture leaves reserved.
#[derive(Clone, Copy, Debug, PartialEq, Eq, Structural)]
pub enum DecodeError {
    ReservedInterrupt(usize),
    ReservedException(usize),
}

/// The interrupt flag is the top bit of the register: it is set in the upper
/// half of the register's values, those above `usize::MAX / 2`.
pub open spec fn is_interrupt(scause: usize) -> bool {
    scause > usize::MAX / 2
}

/// The code is the register without its top bit: below the upper half the
/// value itself, in it the value less `usize::MAX / 2 + 1`.
pub open spec fn code(scause: usize) -> usize {
    if is_interrupt(scause) {
        (scause - usize::MAX / 2 - 1) as usize
    } else {
        scause
    }
}

/// The register split into its flag and its code.
pub open spec fn raw_trap(scause: usize) -> RawTrap {
    if is_interrupt(scause) {
        RawTrap::Interrupt(code(scause))
    } else {
        RawTrap::Exception(code(scause))
    }
}

/// The interrupt that a code stands for: 1, 5 and 9 are assigned.
pub open spec fn interrupt_numbered(code: usize) -> Option<Interrupt> {
    if code == 1 {
        Some(Interrupt::SupervisorSoft)
    } else if code == 5 {
        Some(Interrupt::SupervisorTimer)
    } else if code == 9 {
        Some(Interrupt::SupervisorExternal)
    } else {
        None
    }
}

/// The exception codes that are assigned: 0 to 9, 12, 13 and 15.
pub open spec fn is_exception_number(code: usize) -> bool {
    code <= 9 || code == 12 || code == 13 || code == 15
}

impl Exception {
    /// An exception is well formed when its code is an assigned one.
    pub open spec fn wf(self) -> bool {
        is_exception_number(self.code)
    }
}

impl Trap {
    /// A trap is well formed when it holds no exception with a reserved code.
    pub open spec fn wf(self) -> bool {
        self matches Trap::Exception(e) ==> e.wf()
    }
}

/// The meaning of a flag and a code, or the reason why they have none.
pub open spec fn classified(raw: RawTrap) -> Result<Trap, DecodeError> {
    match raw {
        RawTrap::Interrupt(code) => match interrupt_numbered(code) {
            Some(interrupt) => Ok(Trap::Interrupt(interrupt)),
            None => Err(DecodeError::ReservedInterrupt(code)),
        },
        RawTrap::Exception(code) => if is_exception_number(code) {
            Ok(Trap::Exception(Exception { code }))
        } else {
            Err(DecodeError::ReservedException(code))
        },
    }
}

/// The meaning of a cause register value.
pub open spec fn decoded(scause: usize) -> Result<Trap, DecodeError> {
    classified(raw_trap(scause))
}

/// `Scause::cause` of the `riscv` crate, applied to the register value that
/// `Scause::from_bits` makes of `scause`. It reports an interrupt when the top
/// bit of the register is set, an exception otherwise, each with what the
/// remaining bits hold as its code.
#[verifier::external_body]
fn scause_cause(scause: usize) -> (raw: RawTrap)
    ensures
        raw == raw_trap(scause),
{
    match Scause::from_bits(scause).cause() {
        RiscvTrap::Interrupt(code) => RawTrap::Interrupt(code),
        RiscvTrap::Exception(code) => RawTrap::Exception(code),
    }
}

/// `Trap::try_into` of the `riscv` crate, asked for the standard supervisor
/// interrupts and exceptions. It succeeds exactly on the assigned codes and
/// then names the interrupt, or hands the exception's code back.
#[verifier::external_body]
fn try_into_standard(raw: RawTrap) -> (r: Result<Trap, riscv::result::Error>)
    ensures
        r is Ok <==> classified(raw) is Ok,
        r is Ok ==> Ok::<Trap, DecodeError>(r->Ok_0) == classified(raw),
{
    let raw = match raw {
        RawTrap::Interrupt(code) => RiscvTrap::Interrupt(code),
        RawTrap::Exception(code) => RiscvTrap::Exception(code),
    };
    Ok(match raw.try_into::<RiscvInterrupt, RiscvException>()? {
        RiscvTrap::Interrupt(RiscvInterrupt::SupervisorSoft) => Trap::Interrupt(Interrupt::SupervisorSoft),
        RiscvTrap::Interrupt(RiscvInterrupt::SupervisorTimer) => Trap::Interrupt(Interrupt::SupervisorTimer),
        RiscvTrap::Interrupt(RiscvInterrupt::SupervisorExternal) => Trap::Interrupt(Interrupt::SupervisorExternal),
        RiscvTrap::Exception(exception) => Trap::Exception(Exception { code: exception.number() }),
    })
}

/// The outside crate's error type, which `try_into_standard` hands through.
#[verifier::external_type_specification]
#[verifier::external_body]
pub struct ExRiscvError(riscv::result::Error);

/// Decodes a cause register value.
///
/// Every value is either given its meaning or rejected with the reserved code
/// it holds; none is taken on trust.
pub fn decode(scause: usize) -> (r: Result<Trap, DecodeError>)
    ensures
        r == decoded(scause),
        r matches Ok(trap) ==> trap.wf(),
{
    let raw = scause_cause(scause);
    match try_into_standard(raw) {
        Ok(trap) => Ok(trap),
        Err(_) => match raw {
            RawTrap::Interrupt(code) => Err(DecodeError::ReservedInterrupt(code)),
            RawTrap::Exception(code) => Err(DecodeError::ReservedException(code)),
        },
    }
}

} // verus!
