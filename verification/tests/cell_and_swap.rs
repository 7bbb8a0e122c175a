use gba2k::gba_cell::GbaCell;
use gba2k::swp;

#[test]
fn cell_write_then_read_returns_value_u8() {
    let mut cell: GbaCell<u8> = GbaCell::new(0);
    cell.write(0xAB);
    assert_eq!(cell.read(), 0xAB);
}

#[test]
fn cell_write_then_read_returns_value_u16() {
    let mut cell: GbaCell<u16> = GbaCell::new(7);
    cell.write(0xBEEF);
    assert_eq!(cell.read(), 0xBEEF);
}

#[test]
fn cell_write_then_read_returns_value_u32() {
    let mut cell: GbaCell<u32> = GbaCell::new(0);
    cell.write(0xDEAD_BEEF);
    assert_eq!(cell.read(), 0xDEAD_BEEF);
}

#[test]
fn cell_write_then_read_returns_value_i32() {
    let mut cell: GbaCell<i32> = GbaCell::new(0);
    cell.write(-12345);
    assert_eq!(cell.read(), -12345);
}

#[test]
fn cell_new_holds_initial_value() {
    let cell: GbaCell<u32> = GbaCell::new(42);
    assert_eq!(cell.read(), 42);
}

#[test]
fn cell_swap_returns_prior_and_stores_new() {
    let mut cell: GbaCell<u32> = GbaCell::new(11);
    let prior = cell.swap(22);
    assert_eq!(prior, 11);
    assert_eq!(cell.read(), 22);
    let prior2 = cell.swap(33);
    assert_eq!(prior2, 22);
    assert_eq!(cell.read(), 33);
}

#[test]
fn swp_exchanges_word_with_location() {
    let mut word: u32 = 5;
    let prior = swp(7, &mut word);
    assert_eq!(prior, 5);
    assert_eq!(word, 7);
}
