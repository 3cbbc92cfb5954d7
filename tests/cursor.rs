use ce_screen::CursorPosition;

#[test]
fn native_cursor_outputs_assemble_a_position() {
    let p = CursorPosition::from_native(3, 5);
    assert_eq!(p, CursorPosition { row: 3, column: 5 });
}

#[test]
fn native_cursor_outputs_keep_their_low_byte() {
    let p = CursorPosition::from_native(256 + 3, 512 + 5);
    assert_eq!(p.row, 3);
    assert_eq!(p.column, 5);
    let q = CursorPosition::from_native(255, 0);
    assert_eq!(q, CursorPosition { row: 255, column: 0 });
}

#[test]
fn text_origin_puts_column_first() {
    let p = CursorPosition { row: 9, column: 200 };
    assert_eq!(p.text_origin(), (200u16, 9u8));
}

#[test]
fn position_is_a_copied_value() {
    let p = CursorPosition { row: 1, column: 2 };
    let q = p;
    assert_eq!(p, q);
    assert_eq!(p.clone(), CursorPosition { row: 1, column: 2 });
}
