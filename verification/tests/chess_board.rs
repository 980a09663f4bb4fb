use taintoooor::chess::{
    bit_to_position, find_set_bit, find_set_bit_inefficient, index_to_position, split_on, Color,
    Game, Piece, PieceType, PiecePositionErrors, Square,
};

#[test]
fn initialize_sets_up_the_standard_board() {
    let game = Game::initialize();
    assert_eq!(game.pieces.len(), 32);
    assert_eq!(game.squares.len(), 64);
    assert_eq!(game.active_color, Color::White);
    assert_eq!(game.castling_rights.bits, 0xF);
    assert_eq!(game.en_passant, None);
    assert_eq!(game.halfmove_clock, 1);
    assert_eq!(game.fullmove_number, 0);
    assert_eq!(
        game.pieces[0],
        Piece { position: 1, color: Color::White, piece_type: PieceType::Rook }
    );
    assert_eq!(
        game.pieces[3],
        Piece { position: 1 << 3, color: Color::White, piece_type: PieceType::Queen }
    );
    assert_eq!(
        game.pieces[8],
        Piece { position: 1 << 8, color: Color::White, piece_type: PieceType::Pawn }
    );
    assert_eq!(
        game.pieces[28],
        Piece { position: 1 << 60, color: Color::Black, piece_type: PieceType::King }
    );
    assert_eq!(game.squares[0], Square::Occupied(0));
    assert_eq!(game.squares[15], Square::Occupied(15));
    assert_eq!(game.squares[16], Square::Empty);
    assert_eq!(game.squares[47], Square::Empty);
    assert_eq!(game.squares[48], Square::Occupied(16));
    assert_eq!(game.squares[63], Square::Occupied(31));
}

#[test]
fn board_renders_top_row_first() {
    let game = Game::initialize();
    let board = game.to_string();
    let lines: Vec<&str> = board.lines().collect();
    assert_eq!(lines.len(), 8);
    assert_eq!(lines[0], "r n b q k b n r ");
    assert_eq!(lines[1], "p p p p p p p p ");
    assert_eq!(lines[6], "P P P P P P P P ");
    assert_eq!(lines[7], "R N B Q K B N R ");
    // An empty rank prints its positions.
    assert_eq!(lines[2], "a6 b6 c6 d6 e6 f6 g6 h6 ");
}

#[test]
fn piece_letters_follow_color() {
    let white_knight =
        Piece { position: 2, color: Color::White, piece_type: PieceType::Knight };
    assert_eq!(white_knight.to_string(), "N ");
    let black_queen =
        Piece { position: 4, color: Color::Black, piece_type: PieceType::Queen };
    assert_eq!(black_queen.to_string(), "q ");
}

#[test]
fn index_to_position_names_squares() {
    assert_eq!(index_to_position(0), "a1 ");
    assert_eq!(index_to_position(7), "h1 ");
    assert_eq!(index_to_position(8), "a2 ");
    assert_eq!(index_to_position(63), "h8 ");
}

#[test]
fn set_bits_are_found_by_both_strategies() {
    for i in 0..64u64 {
        let word = 1u64 << i;
        assert_eq!(find_set_bit(word), i as usize);
        assert_eq!(find_set_bit_inefficient(word), i as usize);
    }
}

#[test]
fn bit_to_position_reads_a_single_bit() {
    assert_eq!(bit_to_position(0), Err(PiecePositionErrors::EmptyBitString));
    assert_eq!(bit_to_position(1), Ok("a1 ".to_string()));
    assert_eq!(bit_to_position(1 << 63), Ok("h8 ".to_string()));
}

#[test]
fn split_on_drops_the_separator() {
    assert_eq!(split_on("ABCDEF", 'C'), ("AB", "DEF"));
    assert_eq!(split_on("no separator", '/'), ("no separator", ""));
    assert_eq!(split_on("/leading", '/'), ("", "leading"));
}

#[test]
fn read_fen_rebuilds_the_start_position() {
    let fen = "rnbqkbnr/pppppppp/8/8/8/8/PPPPPPPP/RNBQKBNR w KQkq - 0 1";
    let game = Game::read_FEN(fen);
    assert_eq!(game.pieces.len(), 32);
    assert_eq!(game.squares.len(), 64);
    // The first FEN row is the black back rank, standing on squares 56..64.
    assert_eq!(
        game.pieces[0],
        Piece { position: 1 << 56, color: Color::Black, piece_type: PieceType::Rook }
    );
    assert_eq!(
        game.pieces[4],
        Piece { position: 1 << 60, color: Color::Black, piece_type: PieceType::King }
    );
    // The last parsed row is the white back rank.
    assert_eq!(
        game.pieces[24],
        Piece { position: 1, color: Color::White, piece_type: PieceType::Rook }
    );
    // The square directory has the rows the reader pushed in front last,
    // each row numbering its occupied squares from zero.
    assert_eq!(game.squares[0], Square::Occupied(0));
    assert_eq!(game.squares[16], Square::Empty);
    assert_eq!(game.squares[63], Square::Occupied(7));
}

#[test]
fn an_empty_fen_reads_as_an_empty_board() {
    let game = Game::read_FEN("");
    assert_eq!(game.pieces.len(), 0);
    assert_eq!(game.squares.len(), 0);
}

#[test]
fn fen_rows_shorter_than_a_rank_still_parse() {
    let game = Game::read_FEN("k7/8 w - - 0 1");
    assert_eq!(game.pieces.len(), 1);
    assert_eq!(
        game.pieces[0],
        Piece { position: 1 << 56, color: Color::Black, piece_type: PieceType::King }
    );
    assert_eq!(game.squares.len(), 16);
}
