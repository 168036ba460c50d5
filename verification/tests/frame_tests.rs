use bubble_level::frame::FrameBuffer;
use bubble_level::mapper::Pixel;

#[test]
fn new_frame_buffer_is_dark() {
    let fb = FrameBuffer::new();
    assert_eq!(fb.rows, [[0u8; 5]; 5]);
    assert!(fb.is_blank());
}

#[test]
fn light_sets_one_cell_by_row_then_column() {
    let mut fb = FrameBuffer::new();
    fb.light(Pixel { column: 3, row: 1 });
    let mut expected = [[0u8; 5]; 5];
    expected[1][3] = 1;
    assert_eq!(fb.rows, expected);
    assert!(fb.is_lit(Pixel { column: 3, row: 1 }));
    assert!(!fb.is_lit(Pixel { column: 1, row: 3 }));
    assert!(!fb.is_blank());
}

#[test]
fn clear_puts_one_cell_out() {
    let mut fb = FrameBuffer::new();
    fb.light(Pixel { column: 0, row: 0 });
    fb.light(Pixel { column: 4, row: 4 });
    fb.clear(Pixel { column: 0, row: 0 });
    assert!(!fb.is_lit(Pixel { column: 0, row: 0 }));
    assert!(fb.is_lit(Pixel { column: 4, row: 4 }));
    assert!(!fb.is_blank());
    fb.clear(Pixel { column: 4, row: 4 });
    assert!(fb.is_blank());
    assert_eq!(fb.rows, [[0u8; 5]; 5]);
}

#[test]
fn any_nonzero_value_counts_as_lit() {
    let mut fb = FrameBuffer::new();
    fb.rows[4][0] = 9;
    assert!(fb.is_lit(Pixel { column: 0, row: 4 }));
    assert!(!fb.is_blank());
}

#[test]
fn is_blank_sees_every_cell() {
    for row in 0..5 {
        for column in 0..5 {
            let mut fb = FrameBuffer::new();
            fb.light(Pixel { column, row });
            assert!(!fb.is_blank());
            fb.clear(Pixel { column, row });
            assert!(fb.is_blank());
        }
    }
}
