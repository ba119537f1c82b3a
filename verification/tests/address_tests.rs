use tca9554::Address;

#[test]
fn test_standard() {
    let addr: u8 = Address::standard().into();
    assert_eq!(addr, 0x20);
}

#[test]
fn test_alternate() {
    let addr: u8 = Address::alternate().into();
    assert_eq!(addr, 0x38);
}

#[test]
fn test_with_selectable_bits() {
    let addr: u8 = Address::standard().with_selectable_bits((false, true, false)).into();
    assert_eq!(addr, 0x22);
}

#[test]
fn test_standard_with_all_selectable_bit_triples() {
    for a2 in [false, true] {
        for a1 in [false, true] {
            for a0 in [false, true] {
                let bits = ((a2 as u8) << 2) | ((a1 as u8) << 1) | (a0 as u8);
                let addr: u8 = Address::standard().with_selectable_bits((a2, a1, a0)).into();
                assert_eq!(addr, 0x20 | bits);
            }
        }
    }
}

#[test]
fn test_alternate_with_all_selectable_bit_triples() {
    for a2 in [false, true] {
        for a1 in [false, true] {
            for a0 in [false, true] {
                let bits = ((a2 as u8) << 2) | ((a1 as u8) << 1) | (a0 as u8);
                let addr: u8 = Address::alternate().with_selectable_bits((a2, a1, a0)).into();
                assert_eq!(addr, 0x38 | bits);
            }
        }
    }
}

#[test]
fn test_selectable_bits_accumulate_rather_than_replace() {
    // The selector bits are OR-ed in, so a second call adds to, and never
    // clears, bits set by a first one.
    let addr: u8 = Address::standard()
        .with_selectable_bits((false, true, false))
        .with_selectable_bits((true, false, false))
        .into();
    assert_eq!(addr, 0x26);
}
