use term_render::render::render_frame;
use term_render::{CameraRecord, SpriteRecord, TermBuffer, TermChar, TermText, TermTextAlign, TextRecord};

fn sprite(x: i64, y: i64, depth: i64, glyph: char) -> SpriteRecord {
    SpriteRecord { x, y, depth, glyph: TermChar(glyph) }
}

fn text(x: i64, y: i64, depth: i64, s: &str, align: TermTextAlign) -> TextRecord {
    TextRecord { x, y, depth, text: TermText::from_str(s), align }
}

fn render_once(
    cols: usize,
    rows: usize,
    sprites: Vec<SpriteRecord>,
    texts: Vec<TextRecord>,
    cameras: Vec<CameraRecord>,
    wide: bool,
    minz: i64,
) -> Vec<Vec<char>> {
    let mut buffer = TermBuffer::new(cols, rows);
    render_frame(&mut buffer, &sprites, &texts, &cameras, wide, minz);
    buffer.flush()
}

fn count_non_blank(frame: &Vec<Vec<char>>) -> usize {
    frame.iter().map(|row| row.iter().filter(|c| **c != ' ').count()).sum()
}

#[test]
fn no_camera_centers_origin() {
    let frame = render_once(10, 5, vec![sprite(0, 0, 0, 'A')], vec![], vec![], false, i64::MIN);
    assert_eq!(frame[2][5], 'A');
    assert_eq!(count_non_blank(&frame), 1);
}

#[test]
fn wide_mode_doubles_sprite_column() {
    let frame = render_once(10, 5, vec![sprite(1, 0, 0, 'B')], vec![], vec![], true, i64::MIN);
    assert_eq!(frame[2][7], 'B');
    assert_eq!(count_non_blank(&frame), 1);
}

#[test]
fn centered_text_shifts_by_half_length() {
    let frame = render_once(
        10,
        5,
        vec![],
        vec![text(0, 0, 0, "Hi", TermTextAlign::CENTER)],
        vec![],
        false,
        i64::MIN,
    );
    assert_eq!(frame[2][4], 'H');
    assert_eq!(frame[2][5], 'i');
    assert_eq!(count_non_blank(&frame), 2);
}

#[test]
fn left_and_right_alignment() {
    let frame = render_once(
        10,
        5,
        vec![],
        vec![text(0, 0, 0, "abc", TermTextAlign::LEFT)],
        vec![],
        false,
        i64::MIN,
    );
    assert_eq!((frame[2][5], frame[2][6], frame[2][7]), ('a', 'b', 'c'));

    let frame = render_once(
        10,
        5,
        vec![],
        vec![text(0, 0, 0, "abc", TermTextAlign::RIGHT)],
        vec![],
        false,
        i64::MIN,
    );
    assert_eq!((frame[2][2], frame[2][3], frame[2][4]), ('a', 'b', 'c'));
}

#[test]
fn deeper_sprite_wins_in_any_order() {
    let frame = render_once(
        10,
        5,
        vec![sprite(0, 0, 1, 'a'), sprite(0, 0, 2, 'b')],
        vec![],
        vec![],
        false,
        i64::MIN,
    );
    assert_eq!(frame[2][5], 'b');

    let frame = render_once(
        10,
        5,
        vec![sprite(0, 0, 2, 'b'), sprite(0, 0, 1, 'a')],
        vec![],
        vec![],
        false,
        i64::MIN,
    );
    assert_eq!(frame[2][5], 'b');
}

#[test]
fn equal_depth_later_record_wins() {
    let frame = render_once(
        10,
        5,
        vec![sprite(0, 0, 3, 'x'), sprite(0, 0, 3, 'y')],
        vec![],
        vec![],
        false,
        i64::MIN,
    );
    assert_eq!(frame[2][5], 'y');
}

#[test]
fn text_is_composed_after_sprites_so_a_tie_goes_to_text() {
    let frame = render_once(
        10,
        5,
        vec![sprite(0, 0, 3, 'S')],
        vec![text(0, 0, 3, "T", TermTextAlign::LEFT)],
        vec![],
        false,
        i64::MIN,
    );
    assert_eq!(frame[2][5], 'T');
}

#[test]
fn offscreen_positions_write_nothing() {
    let frame = render_once(
        10,
        5,
        vec![sprite(100, 0, 0, 'a'), sprite(-100, 0, 0, 'b'), sprite(0, 100, 0, 'c')],
        vec![text(100, 0, 0, "far", TermTextAlign::LEFT)],
        vec![],
        false,
        i64::MIN,
    );
    assert_eq!(count_non_blank(&frame), 0);
}

#[test]
fn text_clipped_at_left_edge_keeps_inbound_characters() {
    // With no camera the x offset is 5, so a LEFT run anchored at world -6
    // starts at screen column -1: 'a' misses, 'b' and 'c' land.
    let frame = render_once(
        10,
        5,
        vec![],
        vec![text(-6, 0, 0, "abc", TermTextAlign::LEFT)],
        vec![],
        false,
        i64::MIN,
    );
    assert_eq!((frame[2][0], frame[2][1]), ('b', 'c'));
    assert_eq!(count_non_blank(&frame), 2);
}

#[test]
fn text_on_bottom_edge_row_is_not_drawn() {
    // World y = -3 lands on screen row 5 of a 5-row grid: the span survives
    // the whole-run cull but every character misses the grid.
    let frame = render_once(
        10,
        5,
        vec![],
        vec![text(0, -3, 0, "edge", TermTextAlign::LEFT)],
        vec![],
        false,
        i64::MIN,
    );
    assert_eq!(count_non_blank(&frame), 0);
}

#[test]
fn empty_frame_flushes_all_blanks() {
    let frame = render_once(10, 5, vec![], vec![], vec![], false, i64::MIN);
    assert_eq!(frame.len(), 5);
    for row in &frame {
        assert_eq!(row.len(), 10);
        assert!(row.iter().all(|c| *c == ' '));
    }
}

#[test]
fn no_stale_glyphs_survive_a_flush() {
    let mut buffer = TermBuffer::new(10, 5);
    let sprites = vec![sprite(0, 0, 0, 'A')];
    render_frame(&mut buffer, &sprites, &vec![], &vec![], false, i64::MIN);
    let first = buffer.flush();
    assert_eq!(first[2][5], 'A');
    render_frame(&mut buffer, &vec![], &vec![], &vec![], false, i64::MIN);
    let second = buffer.flush();
    assert_eq!(count_non_blank(&second), 0);
}

#[test]
fn threshold_depth_is_not_drawn_but_above_it_is() {
    let frame = render_once(10, 5, vec![sprite(0, 0, 5, 'a')], vec![], vec![], false, 5);
    assert_eq!(count_non_blank(&frame), 0);

    let frame = render_once(10, 5, vec![sprite(0, 0, 6, 'a')], vec![], vec![], false, 5);
    assert_eq!(frame[2][5], 'a');
}

#[test]
fn single_camera_shifts_the_viewport() {
    // Camera at (4, 0) on a 10x5 grid gives offsets (3, 2).
    let frame = render_once(
        10,
        5,
        vec![sprite(0, 0, 0, 'A')],
        vec![],
        vec![CameraRecord { x: 4, y: 0 }],
        false,
        i64::MIN,
    );
    assert_eq!(frame[2][3], 'A');
}

#[test]
fn camera_offset_rounds_toward_minus_infinity() {
    // Camera at (15, 0) on a 10x5 grid: the x offset is the floor of -5/2,
    // which is -3, so a sprite at world x = 4 lands in column 1.
    let frame = render_once(
        10,
        5,
        vec![sprite(4, 0, 0, 'A')],
        vec![],
        vec![CameraRecord { x: 15, y: 0 }],
        false,
        i64::MIN,
    );
    assert_eq!(frame[2][1], 'A');
}

#[test]
fn ambiguous_cameras_fall_back_to_origin() {
    let frame = render_once(
        10,
        5,
        vec![sprite(0, 0, 0, 'A')],
        vec![],
        vec![CameraRecord { x: 4, y: 0 }, CameraRecord { x: 1, y: 1 }],
        false,
        i64::MIN,
    );
    assert_eq!(frame[2][5], 'A');
}

#[test]
fn zero_sized_buffer_accepts_a_frame() {
    let frame = render_once(0, 0, vec![sprite(0, 0, 0, 'A')], vec![], vec![], false, i64::MIN);
    assert_eq!(frame.len(), 0);
}
