//! A chess board held as piece bitmasks plus a square-by-square directory.
//!
//! Each piece position is one set bit of a 64-bit word, square 0 being the
//! lower-left corner. The board can be set up in the standard starting
//! position, and a set bit can be mapped back to its square through a
//! mod-67 lookup, which is proved right for every single-bit word.

use vstd::prelude::*;
use vstd::arithmetic::power2::{lemma2_to64, lemma2_to64_rest, pow2};
use vstd::bits::lemma_u64_shl_is_mul;
use vstd::string::{StrSliceExecFns, StringExecFns};
use std::collections::VecDeque;

verus! {

broadcast use vstd::seq_lib::group_seq_lib_default;

/// Which side a piece belongs to.
#[derive(Debug, Clone, Copy, PartialEq, Eq, Structural)]
pub enum Color {
    White,
    Black,
}

/// The six kinds of chess piece.
#[derive(Debug, Clone, Copy, PartialEq, Eq, Structural)]
pub enum PieceType {
    Pawn,
    Rook,
    Knight,
    Bishop,
    Queen,
    King,
}

/// One piece: its board square as a single set bit, its side, its kind.
#[derive(Debug, Clone, Copy, PartialEq, Eq, Structural)]
pub struct Piece {
    pub position: u64,
    pub color: Color,
    pub piece_type: PieceType,
}

/// What a board square holds: nothing, or the index of a piece.
#[derive(Debug, Clone, Copy, PartialEq, Eq, Structural)]
pub enum Square {
    Empty,
    Occupied(usize),
}

/// Which castling moves are still available, one bit each: white kingside,
/// white queenside, black kingside, black queenside.
#[derive(Debug, Clone, Copy, PartialEq, Eq, Structural)]
pub struct CastlingRights {
    pub bits: u8,
}

impl CastlingRights {
    /// No castling available.
    pub fn none() -> (r: Self)
        ensures
            r.bits == 0,
    {
        CastlingRights { bits: 0 }
    }

    /// All four castling moves available.
    pub fn all() -> (r: Self)
        ensures
            r.bits == 0xF,
    {
        CastlingRights { bits: 0xF }
    }
}

/// What can go wrong when reading a position bit string.
#[derive(Debug, Clone, Copy, PartialEq, Eq, Structural)]
pub enum PiecePositionErrors {
    EmptyBitString,
}

/// A game: the pieces, the square directory, and the bookkeeping a FEN
/// record carries.
#[derive(Debug)]
pub struct Game {
    pub pieces: Vec<Piece>,
    pub squares: Vec<Square>,
    pub active_color: Color,
    pub castling_rights: CastlingRights,
    pub en_passant: Option<u64>,
    pub halfmove_clock: usize,
    pub fullmove_number: usize,
}

impl Game {
    /// Appends a piece on the given square and records it as occupying the
    /// next square slot.
    pub fn push_piece_and_square(
        &mut self,
        position: usize,
        color: Color,
        piece_type: PieceType,
        index: &mut usize,
    )
        requires
            position < 64,
            *old(index) < usize::MAX,
        ensures
            final(self).pieces@ == old(self).pieces@.push(
                Piece { position: 1u64 << (position as u64), color, piece_type },
            ),
            final(self).squares@ == old(self).squares@.push(Square::Occupied(*old(index))),
            *final(index) == *old(index) + 1,
            final(self).active_color == old(self).active_color,
            final(self).castling_rights == old(self).castling_rights,
            final(self).en_passant == old(self).en_passant,
            final(self).halfmove_clock == old(self).halfmove_clock,
            final(self).fullmove_number == old(self).fullmove_number,
    {
        self.pieces.push(
            Piece { position: 1u64 << (position as u64), color: color, piece_type: piece_type },
        );
        self.squares.push(Square::Occupied(*index));
        *index += 1;
    }

    /// Appends an empty square.
    pub fn push_empty_square(&mut self)
        ensures
            final(self).squares@ == old(self).squares@.push(Square::Empty),
            final(self).pieces@ == old(self).pieces@,
            final(self).active_color == old(self).active_color,
            final(self).castling_rights == old(self).castling_rights,
            final(self).en_passant == old(self).en_passant,
            final(self).halfmove_clock == old(self).halfmove_clock,
            final(self).fullmove_number == old(self).fullmove_number,
    {
        self.squares.push(Square::Empty);
    }
}

/// The piece kind on a back-rank file in the starting position.
pub open spec fn back_rank_type(file: int) -> PieceType {
    if file == 0 || file == 7 {
        PieceType::Rook
    } else if file == 1 || file == 6 {
        PieceType::Knight
    } else if file == 2 || file == 5 {
        PieceType::Bishop
    } else if file == 3 {
        PieceType::Queen
    } else {
        PieceType::King
    }
}

/// The kind of the `i`-th piece pushed while setting up the start position:
/// the white back rank, white pawns, black pawns, the black back rank.
pub open spec fn initial_piece_type(i: int) -> PieceType {
    if i < 8 {
        back_rank_type(i)
    } else if i < 24 {
        PieceType::Pawn
    } else {
        back_rank_type(i - 24)
    }
}

/// The board square of the `i`-th piece in the starting position.
pub open spec fn initial_board_square(i: int) -> int {
    if i < 16 {
        i
    } else {
        i + 32
    }
}

/// The `i`-th piece of the starting position.
pub open spec fn initial_piece(i: int) -> Piece {
    Piece {
        position: 1u64 << (initial_board_square(i) as u64),
        color: if i < 16 {
            Color::White
        } else {
            Color::Black
        },
        piece_type: initial_piece_type(i),
    }
}

/// What board square `i` holds in the starting position.
pub open spec fn initial_square(i: int) -> Square {
    if i < 16 {
        Square::Occupied(i as usize)
    } else if i < 48 {
        Square::Empty
    } else {
        Square::Occupied((i - 32) as usize)
    }
}

impl Game {
    /// The standard starting position: thirty-two pieces on sixty-four
    /// squares, white to move, full castling rights.
    pub fn initialize() -> (game: Game)
        ensures
            game.pieces@.len() == 32,
            forall|i: int| 0 <= i < 32 ==> game.pieces@[i] == initial_piece(i),
            game.squares@.len() == 64,
            forall|i: int| 0 <= i < 64 ==> game.squares@[i] == initial_square(i),
            game.active_color == Color::White,
            game.castling_rights.bits == 0xF,
            game.en_passant matches Option::<u64>::None,
            game.halfmove_clock == 1,
            game.fullmove_number == 0,
    {
        let mut game = Game {
            pieces: Vec::new(),
            squares: Vec::new(),
            active_color: Color::White,
            castling_rights: CastlingRights::all(),
            en_passant: None,
            halfmove_clock: 1,
            fullmove_number: 0,
        };
        let mut piece_index: usize = 0;
        let mut color = Color::White;
        game.push_piece_and_square(0, color, PieceType::Rook, &mut piece_index);
        game.push_piece_and_square(1, color, PieceType::Knight, &mut piece_index);
        game.push_piece_and_square(2, color, PieceType::Bishop, &mut piece_index);
        game.push_piece_and_square(3, color, PieceType::Queen, &mut piece_index);
        game.push_piece_and_square(4, color, PieceType::King, &mut piece_index);
        game.push_piece_and_square(5, color, PieceType::Bishop, &mut piece_index);
        game.push_piece_and_square(6, color, PieceType::Knight, &mut piece_index);
        game.push_piece_and_square(7, color, PieceType::Rook, &mut piece_index);
        let mut i: usize = 8;
        while i < 16
            invariant
                8 <= i <= 16,
                piece_index == i,
                game.pieces@.len() == i,
                game.squares@.len() == i,
                forall|t: int| 0 <= t < i ==> game.pieces@[t] == initial_piece(t),
                forall|t: int| 0 <= t < i ==> game.squares@[t] == initial_square(t),
                color == Color::White,
                game.active_color == Color::White,
                game.castling_rights.bits == 0xF,
                game.en_passant matches Option::<u64>::None,
                game.halfmove_clock == 1,
                game.fullmove_number == 0,
            decreases 16 - i,
        {
            game.push_piece_and_square(i, color, PieceType::Pawn, &mut piece_index);
            i += 1;
        }
        let mut i: usize = 16;
        while i < 48
            invariant
                16 <= i <= 48,
                piece_index == 16,
                game.pieces@.len() == 16,
                game.squares@.len() == i,
                forall|t: int| 0 <= t < 16 ==> game.pieces@[t] == initial_piece(t),
                forall|t: int| 0 <= t < i ==> game.squares@[t] == initial_square(t),
                game.active_color == Color::White,
                game.castling_rights.bits == 0xF,
                game.en_passant matches Option::<u64>::None,
                game.halfmove_clock == 1,
                game.fullmove_number == 0,
            decreases 48 - i,
        {
            game.push_empty_square();
            i += 1;
        }
        color = Color::Black;
        let mut i: usize = 48;
        while i < 56
            invariant
                48 <= i <= 56,
                piece_index == i - 32,
                game.pieces@.len() == i - 32,
                game.squares@.len() == i,
                forall|t: int| 0 <= t < i - 32 ==> game.pieces@[t] == initial_piece(t),
                forall|t: int| 0 <= t < i ==> game.squares@[t] == initial_square(t),
                color == Color::Black,
                game.active_color == Color::White,
                game.castling_rights.bits == 0xF,
                game.en_passant matches Option::<u64>::None,
                game.halfmove_clock == 1,
                game.fullmove_number == 0,
            decreases 56 - i,
        {
            game.push_piece_and_square(i, color, PieceType::Pawn, &mut piece_index);
            i += 1;
        }
        let offset: usize = 56;
        game.push_piece_and_square(0 + offset, color, PieceType::Rook, &mut piece_index);
        game.push_piece_and_square(1 + offset, color, PieceType::Knight, &mut piece_index);
        game.push_piece_and_square(2 + offset, color, PieceType::Bishop, &mut piece_index);
        game.push_piece_and_square(3 + offset, color, PieceType::Queen, &mut piece_index);
        game.push_piece_and_square(4 + offset, color, PieceType::King, &mut piece_index);
        game.push_piece_and_square(5 + offset, color, PieceType::Bishop, &mut piece_index);
        game.push_piece_and_square(6 + offset, color, PieceType::Knight, &mut piece_index);
        game.push_piece_and_square(7 + offset, color, PieceType::Rook, &mut piece_index);
        game
    }
}

/// The square index the mod-67 lookup table stores for each remainder; 64
/// marks remainders no single-bit word produces.
pub open spec fn mod67_position_spec(r: int) -> int {
    if r == 0 {
        64
    } else
    if r == 1 {
        0
    } else
    if r == 2 {
        1
    } else
    if r == 3 {
        39
    } else
    if r == 4 {
        2
    } else
    if r == 5 {
        15
    } else
    if r == 6 {
        40
    } else
    if r == 7 {
        23
    } else
    if r == 8 {
        3
    } else
    if r == 9 {
        12
    } else
    if r == 10 {
        16
    } else
    if r == 11 {
        59
    } else
    if r == 12 {
        41
    } else
    if r == 13 {
        19
    } else
    if r == 14 {
        24
    } else
    if r == 15 {
        54
    } else
    if r == 16 {
        4
    } else
    if r == 17 {
        64
    } else
    if r == 18 {
        13
    } else
    if r == 19 {
        10
    } else
    if r == 20 {
        17
    } else
    if r == 21 {
        62
    } else
    if r == 22 {
        60
    } else
    if r == 23 {
        28
    } else
    if r == 24 {
        42
    } else
    if r == 25 {
        30
    } else
    if r == 26 {
        20
    } else
    if r == 27 {
        51
    } else
    if r == 28 {
        25
    } else
    if r == 29 {
        44
    } else
    if r == 30 {
        55
    } else
    if r == 31 {
        47
    } else
    if r == 32 {
        5
    } else
    if r == 33 {
        32
    } else
    if r == 34 {
        64
    } else
    if r == 35 {
        38
    } else
    if r == 36 {
        14
    } else
    if r == 37 {
        22
    } else
    if r == 38 {
        11
    } else
    if r == 39 {
        58
    } else
    if r == 40 {
        18
    } else
    if r == 41 {
        53
    } else
    if r == 42 {
        63
    } else
    if r == 43 {
        9
    } else
    if r == 44 {
        61
    } else
    if r == 45 {
        27
    } else
    if r == 46 {
        29
    } else
    if r == 47 {
        50
    } else
    if r == 48 {
        43
    } else
    if r == 49 {
        46
    } else
    if r == 50 {
        31
    } else
    if r == 51 {
        37
    } else
    if r == 52 {
        21
    } else
    if r == 53 {
        57
    } else
    if r == 54 {
        52
    } else
    if r == 55 {
        8
    } else
    if r == 56 {
        26
    } else
    if r == 57 {
        49
    } else
    if r == 58 {
        45
    } else
    if r == 59 {
        36
    } else
    if r == 60 {
        56
    } else
    if r == 61 {
        7
    } else
    if r == 62 {
        48
    } else
    if r == 63 {
        35
    } else
    if r == 64 {
        6
    } else
    if r == 65 {
        34
    } else {
        33
    }
}

/// The lookup table behind `find_set_bit`, one remainder at a time.
fn mod67_position(rem: usize) -> (r: usize)
    requires
        rem < 67,
    ensures
        r == mod67_position_spec(rem as int),
{
    match rem {
        0 => 64,
        1 => 0,
        2 => 1,
        3 => 39,
        4 => 2,
        5 => 15,
        6 => 40,
        7 => 23,
        8 => 3,
        9 => 12,
        10 => 16,
        11 => 59,
        12 => 41,
        13 => 19,
        14 => 24,
        15 => 54,
        16 => 4,
        17 => 64,
        18 => 13,
        19 => 10,
        20 => 17,
        21 => 62,
        22 => 60,
        23 => 28,
        24 => 42,
        25 => 30,
        26 => 20,
        27 => 51,
        28 => 25,
        29 => 44,
        30 => 55,
        31 => 47,
        32 => 5,
        33 => 32,
        34 => 64,
        35 => 38,
        36 => 14,
        37 => 22,
        38 => 11,
        39 => 58,
        40 => 18,
        41 => 53,
        42 => 63,
        43 => 9,
        44 => 61,
        45 => 27,
        46 => 29,
        47 => 50,
        48 => 43,
        49 => 46,
        50 => 31,
        51 => 37,
        52 => 21,
        53 => 57,
        54 => 52,
        55 => 8,
        56 => 26,
        57 => 49,
        58 => 45,
        59 => 36,
        60 => 56,
        61 => 7,
        62 => 48,
        63 => 35,
        64 => 6,
        65 => 34,
        66 => 33,
        _ => 0,
    }
}

/// Each single-bit 64-bit word leaves a distinct remainder modulo 67, and
/// the lookup table maps that remainder back to the bit's index.
proof fn lemma_mod67_roundtrip(j: u64)
    requires
        j < 64,
    ensures
        mod67_position_spec(((1u64 << j) % 67) as int) == j,
{
    lemma2_to64();
    lemma2_to64_rest();
    vstd::bits::lemma_u64_pow2_no_overflow(j as nat);
    lemma_u64_shl_is_mul(1u64, j);
    assert(1u64 << j == pow2(j as nat));
    if j == 0 {
        assert(mod67_position_spec(((1u64 << j) % 67) as int) == j);
    } else if j == 1 {
        assert(mod67_position_spec(((1u64 << j) % 67) as int) == j);
    } else if j == 2 {
        assert(mod67_position_spec(((1u64 << j) % 67) as int) == j);
    } else if j == 3 {
        assert(mod67_position_spec(((1u64 << j) % 67) as int) == j);
    } else if j == 4 {
        assert(mod67_position_spec(((1u64 << j) % 67) as int) == j);
    } else if j == 5 {
        assert(mod67_position_spec(((1u64 << j) % 67) as int) == j);
    } else if j == 6 {
        assert(mod67_position_spec(((1u64 << j) % 67) as int) == j);
    } else if j == 7 {
        assert(mod67_position_spec(((1u64 << j) % 67) as int) == j);
    } else if j == 8 {
        assert(mod67_position_spec(((1u64 << j) % 67) as int) == j);
    } else if j == 9 {
        assert(mod67_position_spec(((1u64 << j) % 67) as int) == j);
    } else if j == 10 {
        assert(mod67_position_spec(((1u64 << j) % 67) as int) == j);
    } else if j == 11 {
        assert(mod67_position_spec(((1u64 << j) % 67) as int) == j);
    } else if j == 12 {
        assert(mod67_position_spec(((1u64 << j) % 67) as int) == j);
    } else if j == 13 {
        assert(mod67_position_spec(((1u64 << j) % 67) as int) == j);
    } else if j == 14 {
        assert(mod67_position_spec(((1u64 << j) % 67) as int) == j);
    } else if j == 15 {
        assert(mod67_position_spec(((1u64 << j) % 67) as int) == j);
    } else if j == 16 {
        assert(mod67_position_spec(((1u64 << j) % 67) as int) == j);
    } else if j == 17 {
        assert(mod67_position_spec(((1u64 << j) % 67) as int) == j);
    } else if j == 18 {
        assert(mod67_position_spec(((1u64 << j) % 67) as int) == j);
    } else if j == 19 {
        assert(mod67_position_spec(((1u64 << j) % 67) as int) == j);
    } else if j == 20 {
        assert(mod67_position_spec(((1u64 << j) % 67) as int) == j);
    } else if j == 21 {
        assert(mod67_position_spec(((1u64 << j) % 67) as int) == j);
    } else if j == 22 {
        assert(mod67_position_spec(((1u64 << j) % 67) as int) == j);
    } else if j == 23 {
        assert(mod67_position_spec(((1u64 << j) % 67) as int) == j);
    } else if j == 24 {
        assert(mod67_position_spec(((1u64 << j) % 67) as int) == j);
    } else if j == 25 {
        assert(mod67_position_spec(((1u64 << j) % 67) as int) == j);
    } else if j == 26 {
        assert(mod67_position_spec(((1u64 << j) % 67) as int) == j);
    } else if j == 27 {
        assert(mod67_position_spec(((1u64 << j) % 67) as int) == j);
    } else if j == 28 {
        assert(mod67_position_spec(((1u64 << j) % 67) as int) == j);
    } else if j == 29 {
        assert(mod67_position_spec(((1u64 << j) % 67) as int) == j);
    } else if j == 30 {
        assert(mod67_position_spec(((1u64 << j) % 67) as int) == j);
    } else if j == 31 {
        assert(mod67_position_spec(((1u64 << j) % 67) as int) == j);
    } else if j == 32 {
        assert(mod67_position_spec(((1u64 << j) % 67) as int) == j);
    } else if j == 33 {
        assert(mod67_position_spec(((1u64 << j) % 67) as int) == j);
    } else if j == 34 {
        assert(mod67_position_spec(((1u64 << j) % 67) as int) == j);
    } else if j == 35 {
        assert(mod67_position_spec(((1u64 << j) % 67) as int) == j);
    } else if j == 36 {
        assert(mod67_position_spec(((1u64 << j) % 67) as int) == j);
    } else if j == 37 {
        assert(mod67_position_spec(((1u64 << j) % 67) as int) == j);
    } else if j == 38 {
        assert(mod67_position_spec(((1u64 << j) % 67) as int) == j);
    } else if j == 39 {
        assert(mod67_position_spec(((1u64 << j) % 67) as int) == j);
    } else if j == 40 {
        assert(mod67_position_spec(((1u64 << j) % 67) as int) == j);
    } else if j == 41 {
        assert(mod67_position_spec(((1u64 << j) % 67) as int) == j);
    } else if j == 42 {
        assert(mod67_position_spec(((1u64 << j) % 67) as int) == j);
    } else if j == 43 {
        assert(mod67_position_spec(((1u64 << j) % 67) as int) == j);
    } else if j == 44 {
        assert(mod67_position_spec(((1u64 << j) % 67) as int) == j);
    } else if j == 45 {
        assert(mod67_position_spec(((1u64 << j) % 67) as int) == j);
    } else if j == 46 {
        assert(mod67_position_spec(((1u64 << j) % 67) as int) == j);
    } else if j == 47 {
        assert(mod67_position_spec(((1u64 << j) % 67) as int) == j);
    } else if j == 48 {
        assert(mod67_position_spec(((1u64 << j) % 67) as int) == j);
    } else if j == 49 {
        assert(mod67_position_spec(((1u64 << j) % 67) as int) == j);
    } else if j == 50 {
        assert(mod67_position_spec(((1u64 << j) % 67) as int) == j);
    } else if j == 51 {
        assert(mod67_position_spec(((1u64 << j) % 67) as int) == j);
    } else if j == 52 {
        assert(mod67_position_spec(((1u64 << j) % 67) as int) == j);
    } else if j == 53 {
        assert(mod67_position_spec(((1u64 << j) % 67) as int) == j);
    } else if j == 54 {
        assert(mod67_position_spec(((1u64 << j) % 67) as int) == j);
    } else if j == 55 {
        assert(mod67_position_spec(((1u64 << j) % 67) as int) == j);
    } else if j == 56 {
        assert(mod67_position_spec(((1u64 << j) % 67) as int) == j);
    } else if j == 57 {
        assert(mod67_position_spec(((1u64 << j) % 67) as int) == j);
    } else if j == 58 {
        assert(mod67_position_spec(((1u64 << j) % 67) as int) == j);
    } else if j == 59 {
        assert(mod67_position_spec(((1u64 << j) % 67) as int) == j);
    } else if j == 60 {
        assert(mod67_position_spec(((1u64 << j) % 67) as int) == j);
    } else if j == 61 {
        assert(mod67_position_spec(((1u64 << j) % 67) as int) == j);
    } else if j == 62 {
        assert(mod67_position_spec(((1u64 << j) % 67) as int) == j);
    } else if j == 63 {
        assert(mod67_position_spec(((1u64 << j) % 67) as int) == j);
    } else {
        assert(false);
    }
}

/// The index of the set bit of a single-bit word, found through the mod-67
/// lookup table.
pub fn find_set_bit(bit_string: u64) -> (r: usize)
    requires
        exists|j: u64| j < 64 && bit_string == 1u64 << j,
    ensures
        r < 64,
        bit_string == 1u64 << (r as u64),
{
    let remainder = (bit_string % 67) as usize;
    let r = mod67_position(remainder);
    proof {
        let j = choose|j: u64| j < 64 && bit_string == 1u64 << j;
        lemma_mod67_roundtrip(j);
    }
    r
}

/// The index of the set bit of a single-bit word, found by shifting until
/// the low bit is set.
pub fn find_set_bit_inefficient(bit_string: u64) -> (r: usize)
    requires
        exists|j: u64| j < 64 && bit_string == 1u64 << j,
    ensures
        r < 64,
        bit_string == 1u64 << (r as u64),
{
    let ghost j = choose|j: u64| j < 64 && bit_string == 1u64 << j;
    let mut remaining = bit_string;
    let mut leading_zeros: usize = 0;
    while remaining & 1 == 0
        invariant
            j < 64,
            bit_string == 1u64 << j,
            leading_zeros <= j,
            remaining == 1u64 << ((j - leading_zeros) as u64),
        decreases j - leading_zeros,
    {
        proof {
            let k = (j - leading_zeros) as u64;
            assert((1u64 << k) & 1 == 0 ==> k != 0) by (bit_vector);
            assert(k > 0);
            assert((1u64 << k) >> 1u64 == 1u64 << ((k - 1) as u64)) by (bit_vector)
                requires
                    0u64 < k < 64u64,
            ;
        }
        leading_zeros += 1;
        remaining >>= 1;
    }
    proof {
        let k = (j - leading_zeros) as u64;
        assert(((1u64 << k) & 1 != 0 && k < 64u64) ==> k == 0) by (bit_vector);
        assert(leading_zeros == j);
    }
    leading_zeros
}

/// The file letter of a board column.
pub open spec fn col_char(c: int) -> char {
    if c == 0 {
        'a'
    } else if c == 1 {
        'b'
    } else if c == 2 {
        'c'
    } else if c == 3 {
        'd'
    } else if c == 4 {
        'e'
    } else if c == 5 {
        'f'
    } else if c == 6 {
        'g'
    } else {
        'h'
    }
}

/// The rank digit of a board row, counted from one.
pub open spec fn row_char(r: int) -> char {
    if r == 1 {
        '1'
    } else if r == 2 {
        '2'
    } else if r == 3 {
        '3'
    } else if r == 4 {
        '4'
    } else if r == 5 {
        '5'
    } else if r == 6 {
        '6'
    } else if r == 7 {
        '7'
    } else {
        '8'
    }
}

/// The printed form of a board square index: file letter, rank digit, and a
/// trailing space.
pub open spec fn position_text(i: int) -> Seq<char> {
    seq![col_char(i % 8), row_char(i / 8 + 1), ' ']
}

/// The human-readable position of a board square index.
pub fn index_to_position(bit_string: usize) -> (r: String)
    requires
        bit_string < 64,
    ensures
        r@ == position_text(bit_string as int),
{
    let col = bit_string % 8;
    let row = bit_string / 8 + 1;
    let col_str: &str;
    if col == 0 {
        proof {
            reveal_strlit("a");
            assert("a"@ =~= seq!['a']);
        }
        col_str = "a";
    } else if col == 1 {
        proof {
            reveal_strlit("b");
            assert("b"@ =~= seq!['b']);
        }
        col_str = "b";
    } else if col == 2 {
        proof {
            reveal_strlit("c");
            assert("c"@ =~= seq!['c']);
        }
        col_str = "c";
    } else if col == 3 {
        proof {
            reveal_strlit("d");
            assert("d"@ =~= seq!['d']);
        }
        col_str = "d";
    } else if col == 4 {
        proof {
            reveal_strlit("e");
            assert("e"@ =~= seq!['e']);
        }
        col_str = "e";
    } else if col == 5 {
        proof {
            reveal_strlit("f");
            assert("f"@ =~= seq!['f']);
        }
        col_str = "f";
    } else if col == 6 {
        proof {
            reveal_strlit("g");
            assert("g"@ =~= seq!['g']);
        }
        col_str = "g";
    } else {
        proof {
            reveal_strlit("h");
            assert("h"@ =~= seq!['h']);
        }
        col_str = "h";
    }
    let row_str: &str;
    if row == 1 {
        proof {
            reveal_strlit("1");
            assert("1"@ =~= seq!['1']);
        }
        row_str = "1";
    } else if row == 2 {
        proof {
            reveal_strlit("2");
            assert("2"@ =~= seq!['2']);
        }
        row_str = "2";
    } else if row == 3 {
        proof {
            reveal_strlit("3");
            assert("3"@ =~= seq!['3']);
        }
        row_str = "3";
    } else if row == 4 {
        proof {
            reveal_strlit("4");
            assert("4"@ =~= seq!['4']);
        }
        row_str = "4";
    } else if row == 5 {
        proof {
            reveal_strlit("5");
            assert("5"@ =~= seq!['5']);
        }
        row_str = "5";
    } else if row == 6 {
        proof {
            reveal_strlit("6");
            assert("6"@ =~= seq!['6']);
        }
        row_str = "6";
    } else if row == 7 {
        proof {
            reveal_strlit("7");
            assert("7"@ =~= seq!['7']);
        }
        row_str = "7";
    } else {
        proof {
            reveal_strlit("8");
            assert("8"@ =~= seq!['8']);
        }
        row_str = "8";
    }
    let mut s = String::from_str(col_str);
    s.append(row_str);
    s.append(" ");
    proof {
        reveal_strlit(" ");
        assert(" "@ =~= seq![' ']);
        assert(s@ =~= position_text(bit_string as int));
    }
    s
}

/// The letter a piece prints as: lower case for black, upper case for
/// white.
pub open spec fn piece_letter(t: PieceType, c: Color) -> char {
    match t {
        PieceType::Pawn => if c == Color::White {
            'P'
        } else {
            'p'
        },
        PieceType::Rook => if c == Color::White {
            'R'
        } else {
            'r'
        },
        PieceType::Knight => if c == Color::White {
            'N'
        } else {
            'n'
        },
        PieceType::Bishop => if c == Color::White {
            'B'
        } else {
            'b'
        },
        PieceType::Queen => if c == Color::White {
            'Q'
        } else {
            'q'
        },
        PieceType::King => if c == Color::White {
            'K'
        } else {
            'k'
        },
    }
}

/// The printed form of a piece: its letter and a trailing space.
pub open spec fn piece_text(p: Piece) -> Seq<char> {
    seq![piece_letter(p.piece_type, p.color), ' ']
}

impl Piece {
    /// The piece's letter, upper case for white, with a trailing space.
    pub fn to_string(&self) -> (r: String)
        ensures
            r@ == piece_text(*self),
    {
        match (self.piece_type, self.color) {
            (PieceType::Pawn, Color::White) => {
                proof {
                    reveal_strlit("P ");
                    assert("P "@ =~= seq!['P', ' ']);
                }
                String::from_str("P ")
            },
            (PieceType::Pawn, Color::Black) => {
                proof {
                    reveal_strlit("p ");
                    assert("p "@ =~= seq!['p', ' ']);
                }
                String::from_str("p ")
            },
            (PieceType::Rook, Color::White) => {
                proof {
                    reveal_strlit("R ");
                    assert("R "@ =~= seq!['R', ' ']);
                }
                String::from_str("R ")
            },
            (PieceType::Rook, Color::Black) => {
                proof {
                    reveal_strlit("r ");
                    assert("r "@ =~= seq!['r', ' ']);
                }
                String::from_str("r ")
            },
            (PieceType::Knight, Color::White) => {
                proof {
                    reveal_strlit("N ");
                    assert("N "@ =~= seq!['N', ' ']);
                }
                String::from_str("N ")
            },
            (PieceType::Knight, Color::Black) => {
                proof {
                    reveal_strlit("n ");
                    assert("n "@ =~= seq!['n', ' ']);
                }
                String::from_str("n ")
            },
            (PieceType::Bishop, Color::White) => {
                proof {
                    reveal_strlit("B ");
                    assert("B "@ =~= seq!['B', ' ']);
                }
                String::from_str("B ")
            },
            (PieceType::Bishop, Color::Black) => {
                proof {
                    reveal_strlit("b ");
                    assert("b "@ =~= seq!['b', ' ']);
                }
                String::from_str("b ")
            },
            (PieceType::Queen, Color::White) => {
                proof {
                    reveal_strlit("Q ");
                    assert("Q "@ =~= seq!['Q', ' ']);
                }
                String::from_str("Q ")
            },
            (PieceType::Queen, Color::Black) => {
                proof {
                    reveal_strlit("q ");
                    assert("q "@ =~= seq!['q', ' ']);
                }
                String::from_str("q ")
            },
            (PieceType::King, Color::White) => {
                proof {
                    reveal_strlit("K ");
                    assert("K "@ =~= seq!['K', ' ']);
                }
                String::from_str("K ")
            },
            (PieceType::King, Color::Black) => {
                proof {
                    reveal_strlit("k ");
                    assert("k "@ =~= seq!['k', ' ']);
                }
                String::from_str("k ")
            },
        }
    }
}

/// The position of the set bit of a piece-position word, or an error for a
/// word with no bit set.
pub fn bit_to_position(bit_string: u64) -> (r: Result<String, PiecePositionErrors>)
    requires
        bit_string == 0 || (exists|j: u64| j < 64 && bit_string == 1u64 << j),
    ensures
        (match r {
            Result::Err(e) => bit_string == 0 && e == PiecePositionErrors::EmptyBitString,
            Result::Ok(s) => bit_string != 0 && (exists|j: u64|
                j < 64 && bit_string == 1u64 << j && s@ == position_text(j as int)),
        }),
{
    if bit_string == 0 {
        return Err(PiecePositionErrors::EmptyBitString);
    }
    let set_index = find_set_bit(bit_string);
    let text = index_to_position(set_index);
    proof {
        assert(set_index < 64 && bit_string == 1u64 << (set_index as u64) && text@ == position_text(
            set_index as int,
        ));
    }
    Ok(text)
}

/// The printed form of one square of a board: the piece on it, or its
/// position when empty.
pub open spec fn square_text(g: Game, i: int) -> Seq<char> {
    match g.squares@[i] {
        Square::Empty => position_text(i),
        Square::Occupied(idx) => piece_text(g.pieces@[idx as int]),
    }
}

/// The first `c` printed cells of board row `r`, concatenated.
pub open spec fn cells_prefix(g: Game, r: int, c: int) -> Seq<char>
    decreases c,
{
    if c <= 0 {
        Seq::empty()
    } else {
        cells_prefix(g, r, c - 1) + square_text(g, 8 * r + (c - 1))
    }
}

/// One printed board row: its eight cells and a newline.
pub open spec fn row_text(g: Game, r: int) -> Seq<char> {
    cells_prefix(g, r, 8) + seq!['\n']
}

/// The first `k` printed rows of the board, top row (row seven) first.
pub open spec fn rows_prefix(g: Game, k: int) -> Seq<char>
    decreases k,
{
    if k <= 0 {
        Seq::empty()
    } else {
        rows_prefix(g, k - 1) + row_text(g, 8 - k)
    }
}

/// The whole printed board: all eight rows, top first.
pub open spec fn board_text(g: Game) -> Seq<char> {
    rows_prefix(g, 8)
}

impl Game {
    /// Whether every occupied square points at an existing piece.
    pub open spec fn squares_index_pieces(&self) -> bool {
        forall|i: int|
            0 <= i < self.squares@.len() ==> (match #[trigger] self.squares@[i] {
                Square::Occupied(idx) => idx < self.pieces@.len(),
                Square::Empty => true,
            })
    }

    /// Renders the board, highest row first, empty squares as their
    /// positions.
    pub fn to_string(&self) -> (r: String)
        requires
            self.squares@.len() == 64,
            self.squares_index_pieces(),
        ensures
            r@ == board_text(*self),
    {
        let ghost g = *self;
        let mut board = String::new();
        let mut k: usize = 0;
        while k < 8
            invariant
                k <= 8,
                g == *self,
                self.squares@.len() == 64,
                self.squares_index_pieces(),
                board@ == rows_prefix(g, k as int),
            decreases 8 - k,
        {
            let row = 7 - k;
            let mut c: usize = 0;
            while c < 8
                invariant
                    c <= 8,
                    k < 8,
                    row == 7 - k,
                    g == *self,
                    self.squares@.len() == 64,
                    self.squares_index_pieces(),
                    board@ == rows_prefix(g, k as int) + cells_prefix(g, row as int, c as int),
                decreases 8 - c,
            {
                let idx = 8 * row + c;
                match self.squares[idx] {
                    Square::Empty => {
                        let t = index_to_position(idx);
                        board.append(t.as_str());
                    },
                    Square::Occupied(p) => {
                        let t = self.pieces[p].to_string();
                        board.append(t.as_str());
                    },
                }
                c += 1;
            }
            board.append("\n");
            proof {
                reveal_strlit("\n");
                assert("\n"@ =~= seq!['\n']);
                assert(board@ =~= rows_prefix(g, k + 1));
            }
            k += 1;
        }
        board
    }
}

/// The index of the first occurrence of `sep`, or the length when absent.
pub open spec fn first_sep_index(s: Seq<char>, sep: char) -> int
    decreases s.len(),
{
    if s.len() == 0 {
        0
    } else if s[0] == sep {
        0
    } else {
        1 + first_sep_index(s.drop_first(), sep)
    }
}

/// Where the first separator sits: within bounds, nothing before it is the
/// separator, and it is the separator unless the string holds none.
pub proof fn lemma_first_sep_index(s: Seq<char>, sep: char)
    ensures
        0 <= first_sep_index(s, sep) <= s.len(),
        forall|k: int| 0 <= k < first_sep_index(s, sep) ==> s[k] != sep,
        first_sep_index(s, sep) < s.len() ==> s[first_sep_index(s, sep)] == sep,
    decreases s.len(),
{
    if s.len() > 0 && s[0] != sep {
        lemma_first_sep_index(s.drop_first(), sep);
        assert forall|k: int| 0 <= k < first_sep_index(s, sep) implies s[k] != sep by {
            if k > 0 {
                assert(s.drop_first()[k - 1] != sep);
            }
        }
    }
}

/// Splits a string at the first occurrence of a separator character,
/// dropping the separator; when the separator never occurs, the whole
/// string and an empty remainder.
pub fn split_on<'a>(s: &'a str, sep: char) -> (r: (&'a str, &'a str))
    ensures
        r.0@ == s@.subrange(0, first_sep_index(s@, sep)),
        r.1@ == (if first_sep_index(s@, sep) < s@.len() {
            s@.subrange(first_sep_index(s@, sep) + 1, s@.len() as int)
        } else {
            Seq::<char>::empty()
        }),
{
    proof {
        lemma_first_sep_index(s@, sep);
    }
    let n = s.unicode_len();
    let mut i: usize = 0;
    while i < n
        invariant
            i <= n,
            n == s@.len(),
            forall|k: int| 0 <= k < i ==> s@[k] != sep,
        decreases n - i,
    {
        let item = s.get_char(i);
        if item == sep {
            proof {
                lemma_first_sep_index(s@, sep);
                assert(first_sep_index(s@, sep) == i) by {
                    if first_sep_index(s@, sep) < i {
                        assert(s@[first_sep_index(s@, sep)] == sep);
                    }
                }
            }
            return (s.substring_char(0, i), s.substring_char(i + 1, n));
        }
        i += 1;
    }
    proof {
        lemma_first_sep_index(s@, sep);
        assert(first_sep_index(s@, sep) == n) by {
            if first_sep_index(s@, sep) < n {
                assert(s@[first_sep_index(s@, sep)] == sep);
            }
        }
    }
    let whole = s.substring_char(0, n);
    let empty_rest = s.substring_char(n, n);
    proof {
        assert(whole@ =~= s@.subrange(0, first_sep_index(s@, sep)));
        assert(empty_rest@ =~= Seq::<char>::empty());
    }
    (whole, empty_rest)
}

/// Whether a character names a piece in a FEN row.
pub open spec fn is_fen_piece_char(c: char) -> bool {
    c == 'r' || c == 'n' || c == 'b' || c == 'q' || c == 'k' || c == 'p' || c == 'R' || c == 'N'
        || c == 'B' || c == 'Q' || c == 'K' || c == 'P'
}

/// Whether a character is a decimal digit.
pub open spec fn is_fen_digit(c: char) -> bool {
    48 <= c as u32 <= 57
}

/// Whether a character may appear in a FEN row.
pub open spec fn is_fen_row_char(c: char) -> bool {
    is_fen_piece_char(c) || is_fen_digit(c)
}

/// The numeric value of a digit character.
pub open spec fn fen_digit_val(c: char) -> int {
    c as u32 - 48
}

/// The side a FEN piece letter belongs to: upper case is white.
pub open spec fn fen_color(c: char) -> Color {
    if 65 <= c as u32 <= 90 {
        Color::White
    } else {
        Color::Black
    }
}

/// The piece kind a FEN letter names.
pub open spec fn fen_piece_type(c: char) -> PieceType {
    if c == 'r' || c == 'R' {
        PieceType::Rook
    } else if c == 'n' || c == 'N' {
        PieceType::Knight
    } else if c == 'b' || c == 'B' {
        PieceType::Bishop
    } else if c == 'q' || c == 'Q' {
        PieceType::Queen
    } else if c == 'k' || c == 'K' {
        PieceType::King
    } else {
        PieceType::Pawn
    }
}

/// How many board squares one FEN row character covers: one for a piece, a
/// digit's value for a run of empty squares.
pub open spec fn fen_char_weight(c: char) -> int {
    if is_fen_piece_char(c) {
        1
    } else {
        fen_digit_val(c)
    }
}

/// How many board squares a FEN row prefix covers.
pub open spec fn fen_weight(s: Seq<char>) -> int
    decreases s.len(),
{
    if s.len() == 0 {
        0
    } else {
        fen_weight(s.drop_last()) + fen_char_weight(s.last())
    }
}

/// How many piece letters a FEN row prefix holds.
pub open spec fn fen_letter_count(s: Seq<char>) -> int
    decreases s.len(),
{
    if s.len() == 0 {
        0
    } else {
        fen_letter_count(s.drop_last()) + (if is_fen_piece_char(s.last()) {
            1int
        } else {
            0int
        })
    }
}

/// Weights add up over a split of the row.
pub proof fn lemma_fen_weight_split(s: Seq<char>, k: int)
    requires
        0 <= k <= s.len(),
    ensures
        fen_weight(s) == fen_weight(s.subrange(0, k)) + fen_weight(s.subrange(k, s.len() as int)),
    decreases s.len() - k,
{
    if k == s.len() {
        assert(s.subrange(0, k) =~= s);
        assert(fen_weight(s.subrange(k, s.len() as int)) == 0);
    } else {
        lemma_fen_weight_split(s, k + 1);
        assert(s.subrange(0, k + 1).drop_last() =~= s.subrange(0, k));
        assert(s.subrange(0, k + 1).last() == s[k]);
        let tail = s.subrange(k, s.len() as int);
        let tail1 = s.subrange(k + 1, s.len() as int);
        lemma_fen_weight_head(tail);
        assert(tail.drop_first() =~= tail1);
        assert(tail[0] == s[k]);
    }
}

/// A row's weight is its first character's weight plus the rest's.
pub proof fn lemma_fen_weight_head(s: Seq<char>)
    requires
        s.len() > 0,
    ensures
        fen_weight(s) == fen_char_weight(s[0]) + fen_weight(s.drop_first()),
    decreases s.len(),
{
    if s.len() == 1 {
        assert(s.drop_first() =~= Seq::<char>::empty());
        assert(fen_weight(s.drop_first()) == 0);
        assert(fen_weight(s) == fen_weight(s.drop_last()) + fen_char_weight(s.last()));
        assert(s.drop_last() =~= Seq::<char>::empty());
        assert(s.last() == s[0]);
    } else {
        lemma_fen_weight_head(s.drop_last());
        assert(s.drop_last()[0] == s[0]);
        assert(s.drop_first().drop_last() =~= s.drop_last().drop_first());
        assert(s.drop_first().last() == s.last());
        assert(s.drop_first().len() > 0);
        assert(fen_weight(s) == fen_weight(s.drop_last()) + fen_char_weight(s.last()));
        assert(fen_weight(s.drop_first()) == fen_weight(s.drop_first().drop_last())
            + fen_char_weight(s.drop_first().last()));
    }
}

/// Every valid row covers a non-negative number of squares.
pub proof fn lemma_fen_weight_nonneg(s: Seq<char>)
    requires
        forall|k: int| 0 <= k < s.len() ==> is_fen_row_char(#[trigger] s[k]),
    ensures
        fen_weight(s) >= 0,
    decreases s.len(),
{
    if s.len() > 0 {
        assert(s.drop_last() =~= s.subrange(0, s.len() - 1));
        lemma_fen_weight_nonneg(s.drop_last());
        assert(is_fen_row_char(s.last()));
    }
}

/// Letter counts add up over a split of the row, and lie between zero and
/// the length.
pub proof fn lemma_fen_letter_count_split(s: Seq<char>, k: int)
    requires
        0 <= k <= s.len(),
    ensures
        fen_letter_count(s) == fen_letter_count(s.subrange(0, k)) + fen_letter_count(
            s.subrange(k, s.len() as int),
        ),
        0 <= fen_letter_count(s) <= s.len(),
    decreases s.len() - k,
{
    lemma_fen_letter_count_bounds(s);
    if k == s.len() {
        assert(s.subrange(0, k) =~= s);
        assert(fen_letter_count(s.subrange(k, s.len() as int)) == 0);
    } else {
        lemma_fen_letter_count_split(s, k + 1);
        assert(s.subrange(0, k + 1).drop_last() =~= s.subrange(0, k));
        assert(s.subrange(0, k + 1).last() == s[k]);
        let tail = s.subrange(k, s.len() as int);
        let tail1 = s.subrange(k + 1, s.len() as int);
        lemma_fen_letter_count_head(tail);
        assert(tail.drop_first() =~= tail1);
        assert(tail[0] == s[k]);
    }
}

/// A row's letter count is its first character's contribution plus the
/// rest's.
pub proof fn lemma_fen_letter_count_head(s: Seq<char>)
    requires
        s.len() > 0,
    ensures
        fen_letter_count(s) == (if is_fen_piece_char(s[0]) {
            1int
        } else {
            0int
        }) + fen_letter_count(s.drop_first()),
    decreases s.len(),
{
    if s.len() == 1 {
        assert(s.drop_first() =~= Seq::<char>::empty());
        assert(fen_letter_count(s.drop_first()) == 0);
        assert(s.drop_last() =~= Seq::<char>::empty());
        assert(s.last() == s[0]);
    } else {
        lemma_fen_letter_count_head(s.drop_last());
        assert(s.drop_last()[0] == s[0]);
        assert(s.drop_first().drop_last() =~= s.drop_last().drop_first());
        assert(s.drop_first().last() == s.last());
        assert(s.drop_first().len() > 0);
        assert(fen_letter_count(s) == fen_letter_count(s.drop_last()) + (
        if is_fen_piece_char(s.last()) {
            1int
        } else {
            0int
        }));
        assert(fen_letter_count(s.drop_first()) == fen_letter_count(s.drop_first().drop_last())
            + (if is_fen_piece_char(s.drop_first().last()) {
            1int
        } else {
            0int
        }));
    }
}

/// A letter count lies between zero and the row's length.
pub proof fn lemma_fen_letter_count_bounds(s: Seq<char>)
    ensures
        0 <= fen_letter_count(s) <= s.len(),
    decreases s.len(),
{
    if s.len() > 0 {
        lemma_fen_letter_count_bounds(s.drop_last());
    }
}

/// Each piece letter counts once toward the weight, and empty runs never
/// count negatively: a valid row has at least as much weight as letters.
pub proof fn lemma_fen_letters_le_weight(s: Seq<char>)
    requires
        forall|k: int| 0 <= k < s.len() ==> is_fen_row_char(#[trigger] s[k]),
    ensures
        fen_letter_count(s) <= fen_weight(s),
    decreases s.len(),
{
    if s.len() > 0 {
        assert(s.drop_last() =~= s.subrange(0, s.len() - 1));
        lemma_fen_letters_le_weight(s.drop_last());
        assert(is_fen_row_char(s.last()));
    }
}

/// The piece a FEN letter denotes, standing on the given board square.
pub open spec fn fen_piece(c: char, pos: int) -> Piece {
    Piece {
        position: 1u64 << (pos as u64),
        color: fen_color(c),
        piece_type: fen_piece_type(c),
    }
}

/// The pieces a FEN row prefix declares, left to right, the first standing
/// on board square `pos0`.
pub open spec fn fen_pieces(s: Seq<char>, pos0: int) -> Seq<Piece>
    decreases s.len(),
{
    if s.len() == 0 {
        Seq::empty()
    } else {
        let rest = fen_pieces(s.drop_last(), pos0);
        if is_fen_piece_char(s.last()) {
            rest.push(fen_piece(s.last(), pos0 + fen_weight(s.drop_last())))
        } else {
            rest
        }
    }
}

/// A run of empty squares.
pub open spec fn empty_run(n: int) -> Seq<Square> {
    Seq::new(n as nat, |i: int| Square::Empty)
}

/// The squares one FEN row character contributes: an occupied square
/// holding the next piece index, or a digit's worth of empty squares.
pub open spec fn fen_block(c: char, idx: int) -> Seq<Square> {
    if is_fen_piece_char(c) {
        seq![Square::Occupied(idx as usize)]
    } else {
        empty_run(fen_digit_val(c))
    }
}

/// The square deque a FEN row prefix builds by pushing each contribution to
/// the front: the last character's squares come first.
pub open spec fn fen_squares(s: Seq<char>, idx0: int) -> Seq<Square>
    decreases s.len(),
{
    if s.len() == 0 {
        Seq::empty()
    } else {
        fen_block(s.last(), idx0 + fen_letter_count(s.drop_last())) + fen_squares(
            s.drop_last(),
            idx0,
        )
    }
}

/// The FEN piece letters, mapped to their kind and side.
fn fen_char_piece(c: char) -> (r: (PieceType, Color))
    requires
        is_fen_piece_char(c),
    ensures
        r.0 == fen_piece_type(c),
        r.1 == fen_color(c),
{
    match c {
        'r' => (PieceType::Rook, Color::Black),
        'n' => (PieceType::Knight, Color::Black),
        'b' => (PieceType::Bishop, Color::Black),
        'q' => (PieceType::Queen, Color::Black),
        'k' => (PieceType::King, Color::Black),
        'p' => (PieceType::Pawn, Color::Black),
        'R' => (PieceType::Rook, Color::White),
        'N' => (PieceType::Knight, Color::White),
        'B' => (PieceType::Bishop, Color::White),
        'Q' => (PieceType::Queen, Color::White),
        'K' => (PieceType::King, Color::White),
        _ => (PieceType::Pawn, Color::White),
    }
}

/// Reads one FEN row: the pieces it declares, and its squares as a deque
/// whose front is the row's right end. `piece_index` numbers the first
/// piece; `piece_position` is the board square of the row's left end.
pub fn parse_row(row: &str, piece_index: usize, piece_position: usize) -> (r: (
    Vec<Piece>,
    VecDeque<Square>,
))
    requires
        forall|k: int| 0 <= k < row@.len() ==> is_fen_row_char(#[trigger] row@[k]),
        piece_position + fen_weight(row@) <= 64,
        piece_index + fen_letter_count(row@) <= usize::MAX,
    ensures
        r.0@ == fen_pieces(row@, piece_position as int),
        r.1@ == fen_squares(row@, piece_index as int),
{
    let mut pieces: Vec<Piece> = Vec::new();
    let mut squares: VecDeque<Square> = VecDeque::new();
    let n = row.unicode_len();
    let mut pos: usize = piece_position;
    let mut idx: usize = piece_index;
    let mut k: usize = 0;
    proof {
        lemma_fen_weight_nonneg(row@);
        lemma_fen_letter_count_bounds(row@);
        assert(row@.subrange(0, 0) =~= Seq::<char>::empty());
    }
    while k < n
        invariant
            k <= n,
            n == row@.len(),
            forall|t: int| 0 <= t < row@.len() ==> is_fen_row_char(#[trigger] row@[t]),
            piece_position + fen_weight(row@) <= 64,
            piece_index + fen_letter_count(row@) <= usize::MAX,
            pos == piece_position + fen_weight(row@.subrange(0, k as int)),
            idx == piece_index + fen_letter_count(row@.subrange(0, k as int)),
            pos <= 64,
            pieces@ == fen_pieces(row@.subrange(0, k as int), piece_position as int),
            squares@ == fen_squares(row@.subrange(0, k as int), piece_index as int),
        decreases n - k,
    {
        let c = row.get_char(k);
        let ghost prefix = row@.subrange(0, k as int);
        let ghost prefix1 = row@.subrange(0, k + 1);
        proof {
            assert(prefix1.drop_last() =~= prefix);
            assert(prefix1.last() == row@[k as int]);
            lemma_fen_weight_split(row@, k + 1);
            assert(prefix1 =~= row@.subrange(0, k + 1));
            assert(forall|t: int|
                0 <= t < row@.subrange(k + 1, row@.len() as int).len() ==> is_fen_row_char(
                    #[trigger] row@.subrange(k + 1, row@.len() as int)[t],
                ));
            lemma_fen_weight_nonneg(row@.subrange(k + 1, row@.len() as int));
            lemma_fen_letter_count_split(row@, k + 1);
            lemma_fen_letter_count_bounds(prefix1);
            lemma_fen_letter_count_bounds(row@.subrange(k + 1, row@.len() as int));
        }
        let is_piece = match c {
            'r' | 'n' | 'b' | 'q' | 'k' | 'p' | 'R' | 'N' | 'B' | 'Q' | 'K' | 'P' => true,
            _ => false,
        };
        if is_piece {
            let (piece_type, color) = fen_char_piece(c);
            proof {
                assert(fen_char_weight(row@[k as int]) == 1);
            }
            pieces.push(Piece { position: 1u64 << (pos as u64), color, piece_type });
            squares.push_front(Square::Occupied(idx));
            pos += 1;
            idx += 1;
            proof {
                assert(pieces@ =~= fen_pieces(prefix1, piece_position as int));
                assert(squares@ =~= fen_squares(prefix1, piece_index as int));
            }
        } else {
            proof {
                assert(is_fen_row_char(row@[k as int]));
                assert(!is_fen_piece_char(row@[k as int]));
                assert(is_fen_digit(row@[k as int]));
                assert(fen_char_weight(row@[k as int]) == fen_digit_val(row@[k as int]));
            }
            let d = (c as u32) - 48;
            let mut j: u32 = 0;
            let ghost squares0 = squares@;
            while j < d
                invariant
                    j <= d,
                    d == fen_digit_val(row@[k as int]),
                    squares@ =~= empty_run(j as int) + squares0,
                decreases d - j,
            {
                squares.push_front(Square::Empty);
                proof {
                    assert(empty_run(j + 1) =~= seq![Square::Empty] + empty_run(j as int));
                }
                j += 1;
            }
            pos += d as usize;
            proof {
                assert(fen_block(row@[k as int], idx as int) =~= empty_run(d as int));
                assert(pieces@ =~= fen_pieces(prefix1, piece_position as int));
                assert(squares@ =~= fen_squares(prefix1, piece_index as int));
            }
        }
        k += 1;
    }
    proof {
        assert(row@.subrange(0, n as int) =~= row@);
    }
    (pieces, squares)
}

/// A sequence reversed.
pub open spec fn seq_rev<T>(s: Seq<T>) -> Seq<T> {
    Seq::new(s.len(), |i: int| s[s.len() - 1 - i])
}

/// Reversal swaps the sides of a concatenation.
pub proof fn lemma_seq_rev_concat<T>(a: Seq<T>, b: Seq<T>)
    ensures
        seq_rev(a + b) =~= seq_rev(b) + seq_rev(a),
{
}

/// The squares of one FEN row in board order: the deque the row builds,
/// reversed.
pub open spec fn fen_squares_rev(s: Seq<char>, idx0: int) -> Seq<Square>
    decreases s.len(),
{
    if s.len() == 0 {
        Seq::empty()
    } else {
        fen_squares_rev(s.drop_last(), idx0) + fen_block(
            s.last(),
            idx0 + fen_letter_count(s.drop_last()),
        )
    }
}

/// Reversing a row's square deque gives its squares in board order.
pub proof fn lemma_seq_rev_fen_squares(s: Seq<char>, idx0: int)
    ensures
        seq_rev(fen_squares(s, idx0)) =~= fen_squares_rev(s, idx0),
    decreases s.len(),
{
    if s.len() == 0 {
        assert(seq_rev(fen_squares(s, idx0)) =~= Seq::<Square>::empty());
    } else {
        lemma_seq_rev_fen_squares(s.drop_last(), idx0);
        let block = fen_block(s.last(), idx0 + fen_letter_count(s.drop_last()));
        lemma_seq_rev_concat(block, fen_squares(s.drop_last(), idx0));
        assert(seq_rev(block) =~= block);
        assert(seq_rev(fen_squares(s, idx0)) =~= fen_squares_rev(s, idx0));
    }
}

/// A string split on `/` into at most `n` fields; the last field keeps any
/// remaining separators.
pub open spec fn fen_rows(s: Seq<char>, n: int) -> Seq<Seq<char>>
    decreases n,
{
    if n <= 1 {
        seq![s]
    } else if first_sep_index(s, '/') >= s.len() {
        seq![s]
    } else {
        seq![s.subrange(0, first_sep_index(s, '/'))] + fen_rows(
            s.subrange(first_sep_index(s, '/') + 1, s.len() as int),
            n - 1,
        )
    }
}

/// A split yields between one and `n` fields.
pub proof fn lemma_fen_rows_len(s: Seq<char>, n: int)
    requires
        n >= 1,
    ensures
        1 <= fen_rows(s, n).len() <= n,
    decreases n,
{
    if n > 1 && first_sep_index(s, '/') < s.len() {
        lemma_fen_rows_len(s.subrange(first_sep_index(s, '/') + 1, s.len() as int), n - 1);
    }
}

/// The first space-separated field of a FEN record: its board description.
pub open spec fn fen_field(s: Seq<char>) -> Seq<char> {
    s.subrange(0, first_sep_index(s, ' '))
}

/// Whether one split row can be read: only piece letters and digits, and it
/// covers at most one rank.
pub open spec fn fen_row_ok(row: Seq<char>) -> bool {
    (forall|k: int| 0 <= k < row.len() ==> is_fen_row_char(#[trigger] row[k])) && fen_weight(row)
        <= 8
}

/// The pieces the first `k` rows of a FEN board declare, in row order; each
/// row restarts its square numbering one rank down from the top.
pub open spec fn read_fen_pieces(rows: Seq<Seq<char>>, k: int) -> Seq<Piece>
    decreases k,
{
    if k <= 0 {
        Seq::empty()
    } else {
        read_fen_pieces(rows, k - 1) + fen_pieces(rows[k - 1], 64 - 8 * k)
    }
}

/// The square directory the first `k` rows build: each row's squares in
/// board order, later rows in front. Every row numbers its occupied
/// squares from zero, as the row reader is handed a fresh index each time.
pub open spec fn read_fen_squares(rows: Seq<Seq<char>>, k: int) -> Seq<Square>
    decreases k,
{
    if k <= 0 {
        Seq::empty()
    } else {
        fen_squares_rev(rows[k - 1], 0) + read_fen_squares(rows, k - 1)
    }
}

impl Game {
    /// Reads the board description of a FEN record: at most eight rows,
    /// split on `/`, each read one rank down from the top of the board.
    #[allow(non_snake_case)]
    pub fn read_FEN(fen: &str) -> (game: Game)
        requires
            forall|r: int|
                0 <= r < fen_rows(fen_field(fen@), 8).len() ==> fen_row_ok(
                    #[trigger] fen_rows(fen_field(fen@), 8)[r],
                ),
        ensures
            game.pieces@ == read_fen_pieces(
                fen_rows(fen_field(fen@), 8),
                fen_rows(fen_field(fen@), 8).len() as int,
            ),
            game.squares@ == read_fen_squares(
                fen_rows(fen_field(fen@), 8),
                fen_rows(fen_field(fen@), 8).len() as int,
            ),
            game.active_color == Color::White,
            game.castling_rights.bits == 0xF,
            game.en_passant matches Option::<u64>::None,
            game.halfmove_clock == 1,
            game.fullmove_number == 0,
    {
        let mut game = Game {
            pieces: Vec::new(),
            squares: Vec::new(),
            active_color: Color::White,
            castling_rights: CastlingRights::all(),
            en_passant: None,
            halfmove_clock: 1,
            fullmove_number: 0,
        };
        let (position, _rest) = split_on(fen, ' ');
        let ghost rows = fen_rows(fen_field(fen@), 8);
        proof {
            lemma_fen_rows_len(position@, 8);
        }
        let mut deque_squares: VecDeque<Square> = VecDeque::new();
        let mut remaining: &str = position;
        let mut piece_position: usize = 64;
        let mut k: usize = 0;
        let mut done = false;
        while !done
            invariant
                k <= rows.len() <= 8,
                forall|r: int| 0 <= r < rows.len() ==> fen_row_ok(#[trigger] rows[r]),
                piece_position == 64 - 8 * k,
                game.pieces@ == read_fen_pieces(rows, k as int),
                deque_squares@ == read_fen_squares(rows, k as int),
                game.squares@.len() == 0,
                done <==> k == rows.len(),
                !done ==> fen_rows(remaining@, 8 - k as int) =~= rows.subrange(
                    k as int,
                    rows.len() as int,
                ),
                game.active_color == Color::White,
                game.castling_rights.bits == 0xF,
                game.en_passant matches Option::<u64>::None,
                game.halfmove_clock == 1,
                game.fullmove_number == 0,
            decreases rows.len() - k,
        {
            let row: &str;
            let ghost tail = fen_rows(remaining@, 8 - k as int);
            proof {
                assert(tail =~= rows.subrange(k as int, rows.len() as int));
                assert(tail == rows.subrange(k as int, rows.len() as int));
                assert(tail.len() == rows.len() - k);
            }
            if k == 7 {
                row = remaining;
                done = true;
                proof {
                    assert(tail =~= seq![remaining@]);
                    assert(rows.subrange(k as int, rows.len() as int)[0] == rows[k as int]);
                    assert(rows.len() == k + 1);
                    assert(rows[k as int] == remaining@);
                }
            } else {
                let (a, b) = split_on(remaining, '/');
                let sep_found = a.unicode_len() < remaining.unicode_len();
                proof {
                    lemma_first_sep_index(remaining@, '/');
                }
                row = a;
                if sep_found {
                    proof {
                        assert(first_sep_index(remaining@, '/') < remaining@.len());
                        let ghost rest = fen_rows(b@, 8 - k - 1);
                        assert(tail =~= seq![a@] + rest);
                        assert(rows.subrange(k as int, rows.len() as int)[0] == rows[k as int]);
                        assert(rows[k as int] == (seq![a@] + rest)[0]);
                        assert(rows[k as int] == a@);
                        lemma_fen_rows_len(b@, 8 - k - 1);
                        assert(rest.len() == rows.len() - k - 1);
                        assert(fen_rows(b@, 8 - (k + 1)) =~= rows.subrange(
                            k + 1,
                            rows.len() as int,
                        )) by {
                            assert forall|i: int| 0 <= i < rest.len() implies rows.subrange(
                                k + 1,
                                rows.len() as int,
                            )[i] == rest[i] by {
                                assert(rows.subrange(k as int, rows.len() as int)[i + 1] == rows[
                                    k + 1 + i]);
                                assert(rows.subrange(k + 1, rows.len() as int)[i] == rows[k + 1
                                    + i]);
                                assert((seq![a@] + rest)[i + 1] == rest[i]);
                            }
                        }
                    }
                    remaining = b;
                } else {
                    done = true;
                    proof {
                        assert(first_sep_index(remaining@, '/') >= remaining@.len());
                        assert(tail =~= seq![remaining@]);
                        assert(rows.subrange(k as int, rows.len() as int)[0] == rows[k as int]);
                        assert(rows.len() == k + 1);
                        assert(rows[k as int] == remaining@);
                        assert(a@ =~= remaining@);
                    }
                }
            }
            piece_position -= 8;
            proof {
                assert(fen_row_ok(rows[k as int]));
                assert(row@ == rows[k as int]);
                lemma_fen_letter_count_bounds(row@);
                lemma_fen_letters_le_weight(row@);
            }
            let (mut pieces, mut squares) = parse_row(row, 0, piece_position);
            game.pieces.append(&mut pieces);
            proof {
                assert(game.pieces@ =~= read_fen_pieces(rows, k + 1));
            }
            let ghost rowsq = squares@;
            let ghost global0 = deque_squares@;
            let ghost total = rowsq.len();
            let row_square_count = squares.len();
            proof {
                assert(total == row_square_count);
            }
            let mut t2: usize = 0;
            proof {
                assert(rowsq.subrange(0, 0) =~= Seq::<Square>::empty());
                assert(seq_rev(rowsq.subrange(0, 0)) =~= Seq::<Square>::empty());
                assert(rowsq.subrange(0, total as int) =~= rowsq);
            }
            while squares.len() > 0
                invariant
                    t2 <= total,
                    total <= usize::MAX,
                    total == rowsq.len(),
                    squares@ == rowsq.subrange(t2 as int, total as int),
                    deque_squares@ == seq_rev(rowsq.subrange(0, t2 as int)) + global0,
                decreases total - t2,
            {
                let popped = squares.pop_front();
                match popped {
                    Some(sq) => {
                        proof {
                            assert(rowsq.subrange(t2 as int, total as int).len() > 0);
                            assert(t2 < total);
                            assert(rowsq.subrange(t2 as int, total as int)[0] == rowsq[t2 as int]);
                            assert(sq == rowsq[t2 as int]);
                            assert(squares@ =~= rowsq.subrange(t2 + 1, total as int));
                        }
                        deque_squares.push_front(sq);
                        proof {
                            assert(seq_rev(rowsq.subrange(0, t2 + 1)) =~= seq![rowsq[t2 as int]]
                                + seq_rev(rowsq.subrange(0, t2 as int)));
                            assert(deque_squares@ =~= seq_rev(rowsq.subrange(0, t2 + 1)) + global0);
                        }
                        t2 += 1;
                    },
                    None => {
                        proof {
                            assert(false);
                        }
                    },
                }
            }
            proof {
                assert(t2 == total);
            }
            proof {
                assert(rowsq.subrange(0, total as int) =~= rowsq);
                lemma_seq_rev_fen_squares(row@, 0);
                assert(deque_squares@ =~= read_fen_squares(rows, k + 1));
            }
            k += 1;
        }
        let ghost final_squares = deque_squares@;
        while deque_squares.len() > 0
            invariant
                game.squares@ + deque_squares@ == final_squares,
                game.pieces@ == read_fen_pieces(rows, rows.len() as int),
                game.active_color == Color::White,
                game.castling_rights.bits == 0xF,
                game.en_passant matches Option::<u64>::None,
                game.halfmove_clock == 1,
                game.fullmove_number == 0,
            decreases deque_squares@.len(),
        {
            let popped = deque_squares.pop_front();
            match popped {
                Some(sq) => {
                    let ghost before = game.squares@;
                    let ghost dq_before = deque_squares@;
                    game.squares.push(sq);
                    proof {
                        assert(game.squares@ + deque_squares@ =~= final_squares);
                    }
                },
                None => {
                    proof {
                        assert(false);
                    }
                },
            }
        }
        proof {
            assert(game.squares@ =~= final_squares);
        }
        game
    }
}

} // verus!
