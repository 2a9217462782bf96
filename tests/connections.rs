use scroll_text::connections::ConnectionTable;

#[test]
fn fresh_table_has_no_active_ids() {
    let table = ConnectionTable::new(3);
    assert_eq!(table.capacity(), 3);
    assert_eq!(table.active_ids(), Vec::<u16>::new());
}

#[test]
fn connected_three_and_seven_are_active() {
    let mut table = ConnectionTable::new(3);
    table.record_connected(3);
    table.record_connected(7);
    assert_eq!(table.active_ids(), vec![3, 7]);
}

#[test]
fn ids_share_a_slot_modulo_capacity() {
    let mut table = ConnectionTable::new(4);
    table.record_connected(3);
    table.record_connected(7);
    assert_eq!(table.active_ids(), vec![7]);
}

#[test]
fn recording_the_sentinel_empties_its_slot() {
    let mut table = ConnectionTable::new(2);
    table.record_connected(2);
    table.record_connected(1);
    table.record_connected(0);
    assert_eq!(table.active_ids(), vec![1]);
}
