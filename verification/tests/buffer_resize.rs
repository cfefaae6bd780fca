use term_render::project::{handle_resize, window_grid_size};
use term_render::render::chars_of;
use term_render::{TermBuffer, TermSize, TermText};

#[test]
fn write_keeps_the_deepest_and_ties_go_to_the_later_write() {
    let mut buffer = TermBuffer::new(4, 3);
    buffer.write(1, 2, 'a', 5);
    buffer.write(1, 2, 'b', 4);
    let frame = buffer.flush();
    assert_eq!(frame[2][1], 'a');

    buffer.write(1, 2, 'a', 5);
    buffer.write(1, 2, 'b', 5);
    let frame = buffer.flush();
    assert_eq!(frame[2][1], 'b');
}

#[test]
fn flush_reports_every_cell_and_clears() {
    let mut buffer = TermBuffer::new(3, 2);
    buffer.write(0, 0, 'x', 0);
    buffer.write(2, 1, 'y', 0);
    let frame = buffer.flush();
    assert_eq!(frame, vec![vec!['x', ' ', ' '], vec![' ', ' ', 'y']]);
    let frame = buffer.flush();
    assert_eq!(frame, vec![vec![' ', ' ', ' '], vec![' ', ' ', ' ']]);
}

#[test]
fn wide_mode_reserves_two_margin_columns() {
    assert_eq!(window_grid_size(80, 24, true), TermSize(78, 24));
    assert_eq!(window_grid_size(80, 24, false), TermSize(80, 24));
}

#[test]
fn resize_reallocates_and_a_later_flush_covers_the_new_size() {
    let mut buffer = TermBuffer::new(10, 5);
    buffer.write(0, 0, 'x', 0);
    handle_resize(&mut buffer, window_grid_size(80, 24, true));
    assert_eq!(buffer.size(), (78, 24));
    let frame = buffer.flush();
    assert_eq!(frame.len(), 24);
    for row in &frame {
        assert_eq!(row.len(), 78);
        assert!(row.iter().all(|c| *c == ' '));
    }
}

#[test]
fn repeated_resize_to_one_size_is_idempotent() {
    let mut buffer = TermBuffer::new(10, 5);
    let size = TermSize(7, 3);
    handle_resize(&mut buffer, size);
    handle_resize(&mut buffer, size);
    assert_eq!(buffer.size(), (7, 3));
    let frame = buffer.flush();
    assert_eq!(frame.len(), 3);
    for row in &frame {
        assert_eq!(row.len(), 7);
        assert!(row.iter().all(|c| *c == ' '));
    }
}

#[test]
fn nonsense_negative_sizes_clamp_to_an_empty_grid() {
    let mut buffer = TermBuffer::new(10, 5);
    handle_resize(&mut buffer, TermSize(-3, 4));
    assert_eq!(buffer.size(), (0, 4));
}

#[test]
fn text_characters_count_one_cell_each() {
    let text = TermText::from_str("héllo");
    assert_eq!(text.0, "héllo");
    assert_eq!(chars_of(text.0.as_str()), vec!['h', 'é', 'l', 'l', 'o']);
}
