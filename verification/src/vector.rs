//! The value of the supervisor trap-vector register.
//!
//! The register holds the handler's base address in all bits but the lowest
//! two, and the trap mode in those two. A base address is therefore a
//! multiple of four.

use riscv::register::stvec::Stvec;
use riscv::register::stvec::TrapMode as RiscvTrapMode;
use vstd::prelude::*;

verus! {

/// How the hart picks the handler of a trap.
#[derive(Clone, Copy, Debug, PartialEq, Eq, Structural)]
pub enum TrapMode {
    /// Every trap enters at the base address.
    Direct,
    /// An interrupt enters at the base address plus four times its code.
    Vectored,
}

/// The bits that hold the trap mode.
pub const MODE_MASK: usize = 0b11;

/// The number that the register holds for a trap mode.
pub open spec fn mode_number(mode: TrapMode) -> usize {
    match mode {
        TrapMode::Direct => 0,
        TrapMode::Vectored => 1,
    }
}

/// A base address that the register can hold: a multiple of four.
pub open spec fn aligned(address: usize) -> bool {
    address & MODE_MASK == 0
}

/// The register value for a base address and a trap mode.
pub open spec fn vector_bits(address: usize, mode: TrapMode) -> usize {
    address | mode_number(mode)
}

/// The base address that a register value holds.
pub open spec fn address_of(bits: usize) -> usize {
    bits & !MODE_MASK
}

/// The trap mode that a register value holds, if its mode field is assigned.
pub open spec fn mode_of(bits: usize) -> Option<TrapMode> {
    if bits & MODE_MASK == 0 {
        Some(TrapMode::Direct)
    } else if bits & MODE_MASK == 1 {
        Some(TrapMode::Vectored)
    } else {
        None
    }
}

/// `Stvec::new` of the `riscv` crate, followed by `bits`. For an address that
/// is a multiple of four, the value is the address with the mode's number in
/// its lowest two bits. `Stvec::new` panics on any other address, which
/// `requires` leaves out.
#[verifier::external_body]
fn stvec_new(address: usize, mode: TrapMode) -> (bits: usize)
    requires
        aligned(address),
    ensures
        bits == vector_bits(address, mode),
{
    let mode = match mode {
        TrapMode::Direct => RiscvTrapMode::Direct,
        TrapMode::Vectored => RiscvTrapMode::Vectored,
    };
    Stvec::new(address, mode).bits()
}

/// Whether `address` can be a handler's base address.
pub fn is_aligned(address: usize) -> (r: bool)
    ensures
        r == aligned(address),
{
    address & MODE_MASK == 0
}

/// The register value for a handler at `address`, entered in `mode`.
///
/// The value reads back as that address and that mode.
pub fn encode(address: usize, mode: TrapMode) -> (bits: usize)
    requires
        aligned(address),
    ensures
        bits == vector_bits(address, mode),
        address_of(bits) == address,
        mode_of(bits) == Some(mode),
{
    proof {
        lemma_vector_read_back(address, mode);
    }
    stvec_new(address, mode)
}

/// The register value that sends every trap to `handler`.
///
/// In direct mode the value is the handler's address itself.
pub fn direct_vector(handler: usize) -> (bits: usize)
    requires
        aligned(handler),
    ensures
        bits == vector_bits(handler, TrapMode::Direct),
        bits == handler,
{
    assert(handler | 0 == handler) by (bit_vector);
    encode(handler, TrapMode::Direct)
}

/// Reads the base address out of a register value.
pub fn address(bits: usize) -> (address: usize)
    ensures
        address == address_of(bits),
        aligned(address),
{
    assert(aligned(address_of(bits))) by (bit_vector);
    bits & !MODE_MASK
}

/// Reads the trap mode out of a register value; `None` for a reserved mode.
pub fn mode(bits: usize) -> (mode: Option<TrapMode>)
    ensures
        mode == mode_of(bits),
{
    let field = bits & MODE_MASK;
    if field == 0 {
        Some(TrapMode::Direct)
    } else if field == 1 {
        Some(TrapMode::Vectored)
    } else {
        None
    }
}

/// What is installed is what is read back: a register value made from an
/// aligned base address and a trap mode holds that address and that mode.
pub proof fn lemma_vector_read_back(handler: usize, mode: TrapMode)
    requires
        aligned(handler),
    ensures
        address_of(vector_bits(handler, mode)) == handler,
        mode_of(vector_bits(handler, mode)) == Some(mode),
{
    let m = mode_number(mode);
    assert((handler | m) & !0b11usize == handler) by (bit_vector)
        requires
            handler & 0b11 == 0,
            m == 0 || m == 1,
    ;
    assert((handler | m) & 0b11usize == m) by (bit_vector)
        requires
            handler & 0b11 == 0,
            m == 0 || m == 1,
    ;
}

} // verus!
