use bluetooth::address::fmt_addr;

#[test]
fn fmt_addr_uses_upper_case_pairs_and_colons() {
    assert_eq!(fmt_addr([0x2A, 0xCC, 0x00, 0x34, 0xFA, 0x00]), "2A:CC:00:34:FA:00");
    assert_eq!(fmt_addr([0x1f, 0x2a, 0x00, 0xcc, 0x22, 0xf1]), "1F:2A:00:CC:22:F1");
}

#[test]
fn fmt_addr_edge_values() {
    assert_eq!(fmt_addr([0; 6]), "00:00:00:00:00:00");
    assert_eq!(fmt_addr([0xff; 6]), "FF:FF:FF:FF:FF:FF");
    assert_eq!(fmt_addr([0x09, 0x0a, 0x10, 0x9f, 0xa0, 0x01]), "09:0A:10:9F:A0:01");
}

#[test]
fn fmt_addr_agrees_with_the_stack_display() {
    let bytes = [0x2A, 0xCC, 0x00, 0x34, 0xFA, 0x00];
    let addr = btleplug::api::BDAddr::from(bytes);
    assert_eq!(fmt_addr(addr.into_inner()), addr.to_string());
}

#[test]
fn fmt_addr_shape_is_seventeen_chars() {
    let s = fmt_addr([1, 2, 3, 4, 5, 6]);
    assert_eq!(s.len(), 17);
    for k in 0..5 {
        assert_eq!(s.as_bytes()[3 * k + 2], b':');
    }
}

#[test]
fn fmt_addr_distinguishes_addresses() {
    let a = fmt_addr([0, 0, 0, 0, 0, 1]);
    let b = fmt_addr([0, 0, 0, 0, 0, 0x10]);
    assert_ne!(a, b);
}
