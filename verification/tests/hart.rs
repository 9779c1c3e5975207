use osv::hart::{Hart, Write, SIE_STIE, SIP_SEIP, SIP_SSIP, SIP_STIP, SSTATUS_SIE};

fn some_hart() -> Hart {
    Hart {
        stvec: 0x8020_0000,
        sstatus: SSTATUS_SIE,
        sie: SIE_STIE,
        sip: SIP_SSIP | SIP_STIP | SIP_SEIP,
        mtimecmp: 1_000_000,
        halted: false,
    }
}

#[test]
fn register_bits_are_where_the_architecture_puts_them() {
    assert_eq!(SSTATUS_SIE, 1 << 1);
    assert_eq!(SIE_STIE, 1 << 5);
    assert_eq!(SIP_SSIP, 1 << 1);
    assert_eq!(SIP_STIP, 1 << 5);
    assert_eq!(SIP_SEIP, 1 << 9);
}

#[test]
fn write_trap_vector_stores_the_value() {
    let mut hart = some_hart();
    hart.write(Write::TrapVector(0x4000_0001));
    assert_eq!(hart, Hart { stvec: 0x4000_0001, ..some_hart() });
}

#[test]
fn write_enable_interrupts_sets_one_bit() {
    let mut hart = Hart { sstatus: 0x100, ..some_hart() };
    hart.write(Write::EnableInterrupts);
    assert_eq!(hart, Hart { sstatus: 0x102, ..some_hart() });
}

#[test]
fn write_enable_timer_interrupt_sets_one_bit() {
    let mut hart = Hart { sie: 0x200, ..some_hart() };
    hart.write(Write::EnableTimerInterrupt);
    assert_eq!(hart, Hart { sie: 0x220, ..some_hart() });
}

#[test]
fn write_clear_software_pending_clears_one_bit() {
    let mut hart = some_hart();
    hart.write(Write::ClearSoftwarePending);
    assert_eq!(hart, Hart { sip: SIP_STIP | SIP_SEIP, ..some_hart() });
}

#[test]
fn write_clear_software_pending_on_every_bit_set() {
    let mut hart = Hart { sip: usize::MAX, ..some_hart() };
    hart.write(Write::ClearSoftwarePending);
    assert_eq!(hart.sip, usize::MAX - 2);
}

#[test]
fn write_clear_software_pending_when_nothing_is_pending() {
    let mut hart = Hart { sip: 0, ..some_hart() };
    hart.write(Write::ClearSoftwarePending);
    assert_eq!(hart, Hart { sip: 0, ..some_hart() });
}

#[test]
fn write_compare_stores_the_deadline() {
    let mut hart = some_hart();
    hart.write(Write::Compare(1_032_818));
    assert_eq!(hart, Hart { mtimecmp: 1_032_818, ..some_hart() });
}

#[test]
fn halt_touches_no_register() {
    let mut hart = some_hart();
    hart.halt();
    assert_eq!(hart, Hart { halted: true, ..some_hart() });
}

#[test]
fn halt_twice_is_halt_once() {
    let mut once = some_hart();
    once.halt();
    let mut twice = some_hart();
    twice.halt();
    twice.halt();
    assert_eq!(once, twice);
}
