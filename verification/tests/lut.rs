use locd::lut::Lut;

#[test]
fn standard_table_counts_a_to_d() {
    let lut = Lut::new();
    assert_eq!(lut.get(b'A'), 1);
    assert_eq!(lut.get(b'B'), 2);
    assert_eq!(lut.get(b'C'), 3);
    assert_eq!(lut.get(b'D'), 4);
    for byte in 0u8..=255 {
        if !(b'A'..=b'D').contains(&byte) {
            assert_eq!(lut.get(byte), 0);
        }
    }
}

#[test]
fn with_changes_one_entry() {
    let lut = Lut::new().with(b'E', 5).with(0, 9);
    assert_eq!(lut.get(b'E'), 5);
    assert_eq!(lut.get(0), 9);
    assert_eq!(lut.get(b'A'), 1);
    assert_eq!(lut.get(255), 0);
}
