use osv::vector::{address, direct_vector, encode, is_aligned, mode, TrapMode, MODE_MASK};

#[test]
fn direct_vector_is_the_handler_address() {
    assert_eq!(direct_vector(0x8020_0000), 0x8020_0000);
    assert_eq!(direct_vector(0), 0);
    assert_eq!(direct_vector(4), 4);
    assert_eq!(direct_vector(usize::MAX & !MODE_MASK), usize::MAX & !MODE_MASK);
}

#[test]
fn direct_vector_reads_back_as_installed() {
    for handler in [0usize, 4, 0x1000, 0x8020_0000, 0xdead_beec, usize::MAX - 3] {
        assert!(is_aligned(handler));
        let bits = direct_vector(handler);
        assert_eq!(address(bits), handler);
        assert_eq!(mode(bits), Some(TrapMode::Direct));
    }
}

#[test]
fn is_aligned_wants_a_multiple_of_four() {
    assert!(is_aligned(0));
    assert!(is_aligned(4));
    assert!(is_aligned(0x8020_0000));
    assert!(!is_aligned(1));
    assert!(!is_aligned(2));
    assert!(!is_aligned(3));
    assert!(!is_aligned(0x8020_0002));
    assert!(!is_aligned(usize::MAX));
}

#[test]
fn address_drops_the_mode_bits() {
    assert_eq!(address(0x8020_0001), 0x8020_0000);
    assert_eq!(address(0x8020_0003), 0x8020_0000);
    assert_eq!(address(3), 0);
    assert_eq!(address(usize::MAX), usize::MAX - 3);
}

#[test]
fn mode_reads_the_lowest_two_bits() {
    assert_eq!(mode(0x8020_0000), Some(TrapMode::Direct));
    assert_eq!(mode(0x8020_0001), Some(TrapMode::Vectored));
    assert_eq!(mode(0x8020_0002), None);
    assert_eq!(mode(0x8020_0003), None);
}

#[test]
fn encode_puts_the_mode_in_the_lowest_bits() {
    assert_eq!(encode(0x8020_0000, TrapMode::Direct), 0x8020_0000);
    assert_eq!(encode(0x8020_0000, TrapMode::Vectored), 0x8020_0001);
    assert_eq!(encode(0, TrapMode::Vectored), 1);
    assert_eq!(encode(usize::MAX - 3, TrapMode::Vectored), usize::MAX - 2);
}

#[test]
fn encode_reads_back_as_installed() {
    for handler in [0usize, 4, 0x1000, 0x8020_0000, usize::MAX - 3] {
        for trap_mode in [TrapMode::Direct, TrapMode::Vectored] {
            let bits = encode(handler, trap_mode);
            assert_eq!(address(bits), handler);
            assert_eq!(mode(bits), Some(trap_mode));
        }
    }
}
