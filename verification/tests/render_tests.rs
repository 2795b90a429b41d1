use lane_hopper::engine::GameState;
use lane_hopper::row::Row;
use lane_hopper::{BOARD_DEPTH, LANE_WIDTH};

fn board_with_glyphs(obstacle: char, empty: char) -> Vec<Row> {
    let mut board = Vec::new();
    for _ in 0..BOARD_DEPTH {
        let mut cells = vec![false; LANE_WIDTH];
        cells[2] = true;
        board.push(Row::new(cells, obstacle, empty));
    }
    board
}

#[test]
fn frame_shows_player_glyph_over_the_lane() {
    let game = GameState::from_parts(board_with_glyphs('#', '.'), 7, 0, 0);
    let lines = game.render();
    assert_eq!(lines.len(), BOARD_DEPTH);
    // Lines run farthest row first, so the player's row 0 is the last line.
    let bottom = &lines[BOARD_DEPTH - 1];
    assert_eq!(bottom[7], '🐸');
    assert_eq!(bottom[2], '#');
    assert_eq!(bottom[0], '.');
    // Every other line shows only lane glyphs.
    for line in lines.iter().take(BOARD_DEPTH - 1) {
        for (c, &ch) in line.iter().enumerate() {
            assert_eq!(ch, if c == 2 { '#' } else { '.' });
        }
    }
}

#[test]
fn frame_shows_player_on_its_own_row_only() {
    let game = GameState::from_parts(board_with_glyphs('#', '.'), 0, 3, 0);
    let lines = game.render();
    // Row 3 is rendered at line index BOARD_DEPTH - 1 - 3.
    assert_eq!(lines[BOARD_DEPTH - 1 - 3][0], '🐸');
    assert_eq!(lines[BOARD_DEPTH - 1][0], '.');
}

#[test]
fn score_line_spells_score_zero() {
    let game = GameState::from_parts(board_with_glyphs('#', '.'), 7, 0, 0);
    let line: String = game.score_line().into_iter().collect();
    assert_eq!(line, "Score: 0");
}

#[test]
fn score_line_spells_multi_digit_scores() {
    let game = GameState::from_parts(board_with_glyphs('#', '.'), 7, 0, 407);
    let line: String = game.score_line().into_iter().collect();
    assert_eq!(line, "Score: 407");
    let game = GameState::from_parts(board_with_glyphs('#', '.'), 7, 0, u32::MAX);
    let line: String = game.score_line().into_iter().collect();
    assert_eq!(line, "Score: 4294967295");
}

#[test]
fn random_row_is_full_width_with_the_given_glyphs() {
    let row = Row::new_random_row('T', 'g');
    assert_eq!(row.width(), LANE_WIDTH);
    for c in 0..LANE_WIDTH {
        let expected = if row.occupied_at(c) { 'T' } else { 'g' };
        assert_eq!(row.glyph(row.occupied_at(c)), expected);
    }
}
