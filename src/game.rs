use vstd::prelude::*;

use crate::board::{
    start_piece,
    attacked, castle_path_clear, cell, empty_run, first_occupied, has_king, king_square, placed,
    Board,
};
use crate::castling_right::{kingside_corner, queenside_corner, CastlingRight};
use crate::color::Color;
use crate::draw_state::DrawState;
use crate::error::CustomError;
use crate::game_config::GameConfig;
use crate::game_state::GameState;
use crate::key::{derive_address, program_address, program_id_bytes, to_be_bytes, be_bytes, AccountKey};
use crate::piece::Piece;
use crate::square::{contains_square, is_direction, Square};
use crate::time_control::{TimeControl, NO_MOVE_YET};

verus! {

broadcast use vstd::seq_lib::lemma_seq_concat_contains_all_elements,
    vstd::seq_lib::lemma_seq_contains_after_push;

/// One match: the position, whose turn it is, the seats, and the clocks.
#[derive(Copy, Clone, Debug)]
pub struct Game {
    pub created_at: i64,
    pub owner: AccountKey,
    pub id: u64,
    pub bump: u8,
    pub board: Board,
    pub game_state: GameState,
    pub white: Option<AccountKey>,
    pub black: Option<AccountKey>,
    pub enpassant: Option<Square>,
    pub castling_right: CastlingRight,
    pub draw_state: DrawState,
    pub game_config: GameConfig,
    pub time_control: TimeControl,
}

/// `to` is empty, or holds a piece of the side opposing `color`.
pub open spec fn open_to(g: Seq<Seq<Piece>>, color: Color, to: Square) -> bool {
    cell(g, to) == Piece::Empty || cell(g, to).owned_by(color.opposite())
}

/// A slider of side `color` on `from` reaches `to` along direction
/// (`dr`, `df`): over empty squares, or onto the first piece met if it is an
/// enemy.
pub open spec fn ray_target(
    g: Seq<Seq<Piece>>,
    color: Color,
    from: Square,
    dr: int,
    df: int,
    to: Square,
) -> bool {
    ||| empty_run(g, from.ray(dr, df)).contains(to)
    ||| first_occupied(g, from.ray(dr, df)) == Some(to) && cell(g, to).owned_by(color.opposite())
}

/// A rook of side `color` on `from` reaches `to`.
pub open spec fn rook_target(g: Seq<Seq<Piece>>, color: Color, from: Square, to: Square) -> bool {
    ||| ray_target(g, color, from, -1, 0, to)
    ||| ray_target(g, color, from, 1, 0, to)
    ||| ray_target(g, color, from, 0, 1, to)
    ||| ray_target(g, color, from, 0, -1, to)
}

/// A bishop of side `color` on `from` reaches `to`.
pub open spec fn bishop_target(g: Seq<Seq<Piece>>, color: Color, from: Square, to: Square) -> bool {
    ||| ray_target(g, color, from, -1, 1, to)
    ||| ray_target(g, color, from, 1, 1, to)
    ||| ray_target(g, color, from, -1, -1, to)
    ||| ray_target(g, color, from, 1, -1, to)
}

/// Side `color` has a king, and it is not attacked.
pub open spec fn king_safe(g: Seq<Seq<Piece>>, color: Color) -> bool {
    has_king(g, color) && !attacked(g, king_square(g, color), color)
}

/// `g` with the piece on `from` relocated to `to`.
pub open spec fn relocated(g: Seq<Seq<Piece>>, from: Square, to: Square) -> Seq<Seq<Piece>> {
    placed(placed(g, from, Piece::Empty), to, cell(g, from))
}

/// A square on which an en passant capture may end: the third or sixth rank.
pub open spec fn en_passant_rank(s: Option<Square>) -> bool {
    match s {
        Some(q) => q.rank == 2 || q.rank == 5,
        None => true,
    }
}

/// The empty run of a list is part of the list.
pub proof fn lemma_empty_run_within(g: Seq<Seq<Piece>>, s: Seq<Square>)
    ensures
        forall|t: Square| #[trigger] empty_run(g, s).contains(t) ==> s.contains(t),
    decreases s.len(),
{
    if s.len() > 0 && cell(g, s[0]) == Piece::Empty {
        lemma_empty_run_within(g, s.drop_first());
        assert forall|t: Square| #[trigger] empty_run(g, s).contains(t) implies s.contains(t) by {
            if t != s[0] {
                assert(empty_run(g, s.drop_first()).contains(t));
                let i = choose|i: int| 0 <= i < s.len() - 1 && s.drop_first()[i] == t;
                assert(s[i + 1] == t);
            } else {
                assert(s[0] == t);
            }
        }
    }
}

/// Squares a slider reaches lie on the board.
pub proof fn lemma_ray_target_valid(
    g: Seq<Seq<Piece>>,
    color: Color,
    from: Square,
    dr: int,
    df: int,
    to: Square,
)
    requires
        from.valid(),
        is_direction(dr, df),
        ray_target(g, color, from, dr, df, to),
    ensures
        to.valid(),
{
    crate::board::lemma_ray_valid(from, dr, df);
    lemma_empty_run_within(g, from.ray(dr, df));
    crate::board::lemma_first_occupied(g, from.ray(dr, df));
}

impl Game {
    /// A pawn of side `color` on `from` may go to `to`: one step forward onto
    /// an empty square, two from its starting rank over empty squares, or
    /// diagonally forward onto an enemy piece or the en passant square.
    pub open spec fn pawn_target(self, color: Color, from: Square, to: Square) -> bool {
        let g = self.board@;
        let one = from.shift(color.forward(), 0);
        ||| one == Some(to) && cell(g, to) == Piece::Empty
        ||| one is Some && cell(g, one->Some_0) == Piece::Empty && from.rank == color.pawn_rank()
            && from.shift(2 * color.forward(), 0) == Some(to) && cell(g, to) == Piece::Empty
        ||| from.pawn_attack(color, to) && (cell(g, to).owned_by(color.opposite())
            || self.enpassant == Some(to))
    }

    /// A king of side `color` on `from` may castle onto `to`: the right is
    /// kept, the squares up to the rook are empty, and neither `from` nor a
    /// square the king crosses or lands on is attacked.
    pub open spec fn castle_target(self, color: Color, from: Square, to: Square) -> bool {
        let g = self.board@;
        &&& !attacked(g, from, color)
        &&& {
            ||| to == Square::kingside_target(color) && self.castling_right.kingside(color)
                && castle_path_clear(g, color, Square::kingside_transit(color))
            ||| to == Square::queenside_target(color) && self.castling_right.queenside(color)
                && castle_path_clear(g, color, Square::queenside_transit(color))
        }
    }

    /// The piece on `from` is side `color`'s and may go to `to` (before the
    /// question whether the mover's king is left attacked).
    pub open spec fn destination(self, color: Color, from: Square, to: Square) -> bool {
        let g = self.board@;
        let p = cell(g, from);
        if !p.owned_by(color) {
            false
        } else if p.pawn() {
            self.pawn_target(color, from, to)
        } else if p.rook() {
            rook_target(g, color, from, to)
        } else if p.knight() {
            from.knight_jump(to) && open_to(g, color, to)
        } else if p.bishop() {
            bishop_target(g, color, from, to)
        } else if p.queen() {
            rook_target(g, color, from, to) || bishop_target(g, color, from, to)
        } else if p.king() {
            (from.adjacent(to) && open_to(g, color, to)) || self.castle_target(color, from, to)
        } else {
            false
        }
    }

    /// Side `color` is in check.
    pub open spec fn checked(self, color: Color) -> bool {
        attacked(self.board@, king_square(self.board@, color), color)
    }

    /// Side `color` is in check, and no move of one of its pieces to one of
    /// its destinations, played out in full, leaves its king unattacked.
    pub open spec fn checkmated(self, color: Color) -> bool {
        &&& self.checked(color)
        &&& forall|from: Square, to: Square|
            from.valid() && #[trigger] self.destination(color, from, to) ==> !king_safe(
                self.board_after(color, from, to),
                color,
            )
    }

    /// Adds the squares a slider of side `color` on `from` reaches along one ray.
    fn add_ray_moves(&self, color: Color, from: Square, dr: i8, df: i8, moves: &mut Vec<Square>)
        requires
            from.valid(),
            is_direction(dr as int, df as int),
        ensures
            forall|t: Square| #[trigger]
                final(moves)@.contains(t) <==> (old(moves)@.contains(t) || ray_target(
                    self.board@,
                    color,
                    from,
                    dr as int,
                    df as int,
                    t,
                )),
    {
        let mut run = self.board.ray_empty(from, dr, df);
        moves.append(&mut run);
        proof {
            self.board.lemma_blocker_occupied(from, dr as int, df as int);
        }
        match self.board.ray_piece(from, dr, df) {
            Some((piece, square)) => {
                if piece.belongs_to(color.get_opposite()) {
                    moves.push(square);
                }
            },
            None => {},
        }
    }

    /// Adds each square of `candidates` that is empty or holds an enemy piece.
    fn add_open_squares(&self, color: Color, candidates: &Vec<Square>, moves: &mut Vec<Square>)
        requires
            forall|t: Square| #[trigger] candidates@.contains(t) ==> t.valid(),
        ensures
            forall|t: Square| #[trigger]
                final(moves)@.contains(t) <==> (old(moves)@.contains(t) || (candidates@.contains(
                    t,
                ) && open_to(self.board@, color, t))),
    {
        let ghost start = moves@;
        let mut i: usize = 0;
        while i < candidates.len()
            invariant
                0 <= i <= candidates@.len(),
                forall|t: Square| #[trigger] candidates@.contains(t) ==> t.valid(),
                forall|t: Square| #[trigger]
                    moves@.contains(t) <==> (start.contains(t) || (candidates@.take(
                        i as int,
                    ).contains(t) && open_to(self.board@, color, t))),
            decreases candidates@.len() - i,
        {
            let square = candidates[i];
            assert(candidates@.contains(square));
            assert(candidates@.take(i as int + 1) =~= candidates@.take(i as int).push(square));
            let piece = self.board.get_piece(square);
            if piece.is_empty() || piece.belongs_to(color.get_opposite()) {
                moves.push(square);
            }
            i = i + 1;
        }
        assert(candidates@.take(candidates@.len() as int) =~= candidates@);
    }

    pub fn get_valid_pawn_moves(&self, color: Color, square: Square) -> (r: Vec<Square>)
        requires
            square.valid(),
        ensures
            forall|t: Square| #[trigger] r@.contains(t) <==> self.pawn_target(color, square, t),
    {
        let mut valid_squares: Vec<Square> = Vec::new();

        // pawn steps
        if let Some(forward_square) = square.get_square_forward(color) {
            if self.board.get_piece(forward_square).is_empty() {
                // one step
                valid_squares.push(forward_square);

                // double step
                if square.is_starting_pawn_square(color) {
                    if let Some(double_forward_square) = square.get_square_double_forward(color) {
                        if self.board.get_piece(double_forward_square).is_empty() {
                            valid_squares.push(double_forward_square);
                        }
                    }
                }
            }
        }
        let ghost steps = valid_squares@;

        // pawn eats
        let pawn_attack_squares = square.get_pawn_attack_squares(color);
        let mut i: usize = 0;
        while i < pawn_attack_squares.len()
            invariant
                0 <= i <= pawn_attack_squares@.len(),
                forall|t: Square| #[trigger]
                    pawn_attack_squares@.contains(t) <==> square.pawn_attack(color, t),
                forall|t: Square| #[trigger]
                    valid_squares@.contains(t) <==> (steps.contains(t) || (
                    pawn_attack_squares@.take(i as int).contains(t) && (cell(
                        self.board@,
                        t,
                    ).owned_by(color.opposite()) || self.enpassant == Some(t)))),
            decreases pawn_attack_squares@.len() - i,
        {
            let pawn_attack_square = pawn_attack_squares[i];
            assert(pawn_attack_squares@.contains(pawn_attack_square));
            assert(pawn_attack_squares@.take(i as int + 1) =~= pawn_attack_squares@.take(
                i as int,
            ).push(pawn_attack_square));
            let piece = self.board.get_piece(pawn_attack_square);
            let en_passant = match self.enpassant {
                Some(s) => s == pawn_attack_square,
                None => false,
            };
            if piece.belongs_to(color.get_opposite()) || en_passant {
                valid_squares.push(pawn_attack_square);
            }
            i = i + 1;
        }
        assert(pawn_attack_squares@.take(pawn_attack_squares@.len() as int)
            =~= pawn_attack_squares@);
        valid_squares
    }

    pub fn get_valid_rook_moves(&self, color: Color, square: Square) -> (r: Vec<Square>)
        requires
            square.valid(),
        ensures
            forall|t: Square| #[trigger]
                r@.contains(t) <==> rook_target(self.board@, color, square, t),
    {
        let mut valid_squares: Vec<Square> = Vec::new();
        self.add_ray_moves(color, square, -1, 0, &mut valid_squares);
        self.add_ray_moves(color, square, 1, 0, &mut valid_squares);
        self.add_ray_moves(color, square, 0, 1, &mut valid_squares);
        self.add_ray_moves(color, square, 0, -1, &mut valid_squares);
        valid_squares
    }

    pub fn get_valid_knight_moves(&self, color: Color, square: Square) -> (r: Vec<Square>)
        ensures
            forall|t: Square| #[trigger]
                r@.contains(t) <==> (square.knight_jump(t) && open_to(self.board@, color, t)),
    {
        let mut valid_squares: Vec<Square> = Vec::new();
        let jumps = square.get_knight_jumps();
        self.add_open_squares(color, &jumps, &mut valid_squares);
        valid_squares
    }

    pub fn get_valid_bishop_moves(&self, color: Color, square: Square) -> (r: Vec<Square>)
        requires
            square.valid(),
        ensures
            forall|t: Square| #[trigger]
                r@.contains(t) <==> bishop_target(self.board@, color, square, t),
    {
        let mut valid_squares: Vec<Square> = Vec::new();
        self.add_ray_moves(color, square, -1, 1, &mut valid_squares);
        self.add_ray_moves(color, square, 1, 1, &mut valid_squares);
        self.add_ray_moves(color, square, -1, -1, &mut valid_squares);
        self.add_ray_moves(color, square, 1, -1, &mut valid_squares);
        valid_squares
    }

    pub fn get_valid_queen_moves(&self, color: Color, square: Square) -> (r: Vec<Square>)
        requires
            square.valid(),
        ensures
            forall|t: Square| #[trigger]
                r@.contains(t) <==> (rook_target(self.board@, color, square, t) || bishop_target(
                    self.board@,
                    color,
                    square,
                    t,
                )),
    {
        let mut valid_squares: Vec<Square> = Vec::new();
        let mut rook = self.get_valid_rook_moves(color, square);
        let mut bishop = self.get_valid_bishop_moves(color, square);
        valid_squares.append(&mut rook);
        valid_squares.append(&mut bishop);
        valid_squares
    }

    pub fn get_valid_king_moves(&self, color: Color, square: Square) -> (r: Vec<Square>)
        requires
            square.valid(),
        ensures
            forall|t: Square| #[trigger]
                r@.contains(t) <==> ((square.adjacent(t) && open_to(self.board@, color, t))
                    || self.castle_target(color, square, t)),
    {
        let mut valid_squares: Vec<Square> = Vec::new();

        // regular move
        let adjacent = square.get_adjacent_squares();
        self.add_open_squares(color, &adjacent, &mut valid_squares);

        // castling, never out of check
        if !self.board.is_square_attacked(square, color) {
            if self.castling_right.has_kingside_right(color) && self.board.can_kingside_castle(
                color,
            ) {
                valid_squares.push(Square::get_kingside_castle_king_square(color));
            }
            if self.castling_right.has_queenside_right(color) && self.board.can_queenside_castle(
                color,
            ) {
                valid_squares.push(Square::get_queenside_castle_king_square(color));
            }
        }
        valid_squares
    }

    /// The destinations of the piece on `square` when side `color` moves it.
    pub fn get_piece_valid_moves(&self, color: Color, square: Square) -> (r: Vec<Square>)
        requires
            square.valid(),
        ensures
            forall|t: Square| #[trigger] r@.contains(t) <==> self.destination(color, square, t),
    {
        let piece = self.board.get_piece(square);
        if !piece.belongs_to(color) {
            return Vec::new();
        }
        match piece {
            Piece::WhitePawn | Piece::BlackPawn => self.get_valid_pawn_moves(color, square),
            Piece::WhiteRook | Piece::BlackRook => self.get_valid_rook_moves(color, square),
            Piece::WhiteKnight | Piece::BlackKnight => self.get_valid_knight_moves(color, square),
            Piece::WhiteBishop | Piece::BlackBishop => self.get_valid_bishop_moves(color, square),
            Piece::WhiteQueen | Piece::BlackQueen => self.get_valid_queen_moves(color, square),
            Piece::WhiteKing | Piece::BlackKing => self.get_valid_king_moves(color, square),
            Piece::Empty => Vec::new(),
        }
    }

    /// `to` is a destination of the piece on `from` when side `color` moves it.
    pub fn is_valid_move(&self, color: Color, from: Square, to: Square) -> (r: bool)
        requires
            from.valid(),
        ensures
            r == self.destination(color, from, to),
    {
        let valid_moves = self.get_piece_valid_moves(color, from);
        contains_square(&valid_moves, &to)
    }

    /// Side `color` is in check: its king's square is attacked.
    pub fn in_check(&self, color: Color) -> (r: bool)
        requires
            has_king(self.board@, color),
        ensures
            r == self.checked(color),
            r == attacked(self.board@, king_square(self.board@, color), color),
    {
        let king = self.board.get_king(color);
        let king_square = king.unwrap();
        self.board.is_square_attacked(king_square, color)
    }

    pub fn not_in_check(&self, color: Color) -> (r: bool)
        requires
            has_king(self.board@, color),
        ensures
            r == !self.checked(color),
    {
        !self.in_check(color)
    }

    /// Side `color` has a king and it is not attacked.
    pub fn king_is_safe(&self, color: Color) -> (r: bool)
        ensures
            r == king_safe(self.board@, color),
    {
        match self.board.get_king(color) {
            Some(king_square) => !self.board.is_square_attacked(king_square, color),
            None => false,
        }
    }

    /// Side `color` is checkmated. The search plays each candidate move in
    /// full on the game, looks at the king, and puts the game back as it was
    /// before trying the next one.
    pub fn in_checkmate(&mut self, color: Color) -> (r: bool)
        requires
            has_king(old(self).board@, color),
        ensures
            *final(self) == *old(self),
            r == old(self).checkmated(color),
    {
        let ghost start = *self;
        if self.not_in_check(color) {
            return false;
        }

        let pieces = self.board.get_color_pieces(color);
        let mut i: usize = 0;
        while i < pieces.len()
            invariant
                *self == start,
                start == *old(self),
                0 <= i <= pieces@.len(),
                forall|x: (Piece, Square)| #[trigger]
                    pieces@.contains(x) <==> (x.1.valid() && x.0 == cell(start.board@, x.1)
                        && x.0.owned_by(color)),
                forall|j: int, t: Square|
                    0 <= j < i && #[trigger] start.destination(color, pieces@[j].1, t) ==> !king_safe(
                        start.board_after(color, pieces@[j].1, t),
                        color,
                    ),
            decreases pieces@.len() - i,
        {
            let from = pieces[i].1;
            assert(pieces@.contains(pieces@[i as int]));
            let valid_moves = self.get_piece_valid_moves(color, from);
            let mut k: usize = 0;
            while k < valid_moves.len()
                invariant
                    *self == start,
                    start == *old(self),
                    from.valid(),
                    cell(start.board@, from).owned_by(color),
                    0 <= k <= valid_moves@.len(),
                    forall|t: Square| #[trigger]
                        valid_moves@.contains(t) <==> start.destination(color, from, t),
                    forall|m: int|
                        0 <= m < k ==> !king_safe(
                            start.board_after(color, from, #[trigger] valid_moves@[m]),
                            color,
                        ),
                decreases valid_moves@.len() - k,
            {
                let valid_move = valid_moves[k];
                assert(valid_moves@.contains(valid_move));
                proof {
                    start.lemma_destination_valid(color, from, valid_move);
                }
                let saved = *self;
                self.move_piece(color, from, valid_move);
                let safe = self.king_is_safe(color);
                *self = saved;
                if safe {
                    return false;
                }
                k = k + 1;
            }
            assert forall|t: Square| #[trigger] start.destination(color, from, t) implies !king_safe(
                start.board_after(color, from, t),
                color,
            ) by {
                assert(valid_moves@.contains(t));
            }
            i = i + 1;
        }
        assert forall|f: Square, t: Square|
            f.valid() && #[trigger] start.destination(
                color,
                f,
                t,
            ) implies !king_safe(start.board_after(color, f, t), color) by {
            assert(pieces@.contains((cell(start.board@, f), f)));
            let j = choose|j: int| 0 <= j < pieces@.len() && pieces@[j] == (cell(start.board@, f), f);
        }
        true
    }

    /// Every destination lies on the board.
    pub proof fn lemma_destination_valid(self, color: Color, from: Square, to: Square)
        requires
            from.valid(),
            self.destination(color, from, to),
        ensures
            to.valid(),
    {
        let g = self.board@;
        if ray_target(g, color, from, -1, 0, to) {
            lemma_ray_target_valid(g, color, from, -1, 0, to);
        } else if ray_target(g, color, from, 1, 0, to) {
            lemma_ray_target_valid(g, color, from, 1, 0, to);
        } else if ray_target(g, color, from, 0, 1, to) {
            lemma_ray_target_valid(g, color, from, 0, 1, to);
        } else if ray_target(g, color, from, 0, -1, to) {
            lemma_ray_target_valid(g, color, from, 0, -1, to);
        } else if ray_target(g, color, from, -1, 1, to) {
            lemma_ray_target_valid(g, color, from, -1, 1, to);
        } else if ray_target(g, color, from, 1, 1, to) {
            lemma_ray_target_valid(g, color, from, 1, 1, to);
        } else if ray_target(g, color, from, -1, -1, to) {
            lemma_ray_target_valid(g, color, from, -1, -1, to);
        } else if ray_target(g, color, from, 1, -1, to) {
            lemma_ray_target_valid(g, color, from, 1, -1, to);
        }
    }

    /// The move from `from` to `to` is a pawn's double step for side `color`.
    pub open spec fn double_step(color: Color, from: Square, to: Square) -> bool {
        from.rank == color.pawn_rank() && from.shift(2 * color.forward(), 0) == Some(to)
    }

    /// The board after side `color` moves the piece on `from` to `to`: an en
    /// passant capture also empties the square behind `to`, a pawn reaching
    /// its last rank becomes a queen, and a king castling from its home square
    /// brings the rook over to the square it crossed.
    pub open spec fn board_after(self, color: Color, from: Square, to: Square) -> Seq<Seq<Piece>> {
        relocated(self.prepared_board(color, from, to), from, to)
    }

    /// The board once the side effects of side `color`'s move from `from` to
    /// `to` are made, before the piece itself moves: the pawn taken en
    /// passant removed, a pawn bound for its last rank turned into a queen,
    /// or the castling rook brought over.
    pub open spec fn prepared_board(self, color: Color, from: Square, to: Square) -> Seq<
        Seq<Piece>,
    > {
        let g = self.board@;
        let p = cell(g, from);
        let home = color.home_rank() as u8;
        if p.pawn() {
            let captured = if self.enpassant == Some(to) {
                match to.shift(-color.forward(), 0) {
                    Some(behind) => placed(g, behind, Piece::Empty),
                    None => g,
                }
            } else {
                g
            };
            if to.rank == color.last_rank() {
                placed(captured, from, color.queen())
            } else {
                captured
            }
        } else if p.king() && from == Square::king_home(color) {
            if to == Square::kingside_target(color) {
                relocated(g, kingside_corner(color), Square { rank: home, file: 5 })
            } else if to == Square::queenside_target(color) {
                relocated(g, queenside_corner(color), Square { rank: home, file: 3 })
            } else {
                g
            }
        } else {
            g
        }
    }

    /// The en passant square after side `color` moves from `from` to `to`:
    /// the square a pawn's double step passed over, else none.
    pub open spec fn enpassant_after(self, color: Color, from: Square, to: Square) -> Option<
        Square,
    > {
        if cell(self.board@, from).pawn() && Game::double_step(color, from, to) {
            from.shift(color.forward(), 0)
        } else {
            None
        }
    }

    /// The game after side `color` moves the piece on `from` to `to`.
    pub open spec fn moved(self, final_game: Game, color: Color, from: Square, to: Square) -> bool {
        &&& final_game.board@ == self.board_after(color, from, to)
        &&& final_game.enpassant == self.enpassant_after(color, from, to)
        &&& final_game.castling_right == self.castling_right.after_move(color, from, to)
        &&& final_game == (Game {
            board: final_game.board,
            enpassant: final_game.enpassant,
            castling_right: final_game.castling_right,
            ..self
        })
    }

    /// Plays side `color`'s move from `from` to `to` on the board, with its
    /// side effects: en passant capture and square, promotion to a queen,
    /// the rook of a castle, and the castling rights lost.
    pub fn move_piece(&mut self, color: Color, from: Square, to: Square)
        requires
            from.valid(),
            to.valid(),
        ensures
            old(self).moved(*final(self), color, from, to),
            en_passant_rank(final(self).enpassant),
    {
        let current_enpassant = self.enpassant;
        self.reset_enpassant();

        match self.board.get_piece(from) {
            Piece::WhitePawn | Piece::BlackPawn => {
                let en_passant = match current_enpassant {
                    Some(s) => s == to,
                    None => false,
                };
                // en passant capture
                if en_passant {
                    if let Some(behind) = to.get_square_backward(color) {
                        self.board.eat_piece(behind);
                    }
                }
                // double step
                if to.is_double_forward(color, from) {
                    if let Some(skipped) = from.get_square_forward(color) {
                        self.set_enpassant(skipped);
                    }
                }
                // promotion
                if to.is_last_rank(color) {
                    self.board.set_piece(color.get_queen(), from);
                }
            },
            Piece::WhiteKing | Piece::BlackKing => {
                if from.is_king_square(color) {
                    if to.is_kingside_castle_square(color) {
                        self.board.apply_kingside_castle_rook(color);
                    } else if to.is_queenside_castle_square(color) {
                        self.board.apply_queenside_castle_rook(color);
                    }
                }
            },
            _ => {},
        }

        self.castling_right.update_castling_right(color, from, to);
        self.board.move_piece(from, to);
    }

    pub fn set_enpassant(&mut self, square: Square)
        ensures
            *final(self) == (Game { enpassant: Some(square), ..*old(self) }),
    {
        self.enpassant = Some(square);
    }

    pub fn reset_enpassant(&mut self)
        ensures
            *final(self) == (Game { enpassant: None, ..*old(self) }),
    {
        self.enpassant = None;
    }

    /// The seat of side `c`.
    pub open spec fn seat(self, c: Color) -> Option<AccountKey> {
        match c {
            Color::White => self.white,
            Color::Black => self.black,
        }
    }

    /// `player` sits at the board.
    pub open spec fn seated(self, player: AccountKey) -> bool {
        (self.white is Some && self.white->Some_0@ == player@) || (self.black is Some
            && self.black->Some_0@ == player@)
    }

    /// The game's address and bump seed for the creator's user account `payer`
    /// and the game number `game_id`.
    pub fn pda(payer: AccountKey, game_id: u64) -> (r: Option<(AccountKey, u8)>)
        ensures
            match r {
                Some(found) => program_address(
                    seq![seq![103u8, 97, 109, 101], payer@, be_bytes(game_id)],
                    program_id_bytes(),
                ) == Some((found.0@, found.1)),
                None => program_address(
                    seq![seq![103u8, 97, 109, 101], payer@, be_bytes(game_id)],
                    program_id_bytes(),
                ) is None,
            },
    {
        // b"game"
        let seed: Vec<u8> = vec![103u8, 97, 109, 101];
        let ghost seed_view = seed@;
        assert(seed_view =~= seq![103u8, 97, 109, 101]);
        let payer_bytes = payer.to_vec();
        let id_bytes = to_be_bytes(game_id);
        let seeds: Vec<Vec<u8>> = vec![seed, payer_bytes, id_bytes];
        assert(seeds.deep_view()[0] =~= seq![103u8, 97, 109, 101]);
        assert(seeds.deep_view()[1] =~= payer@);
        assert(seeds.deep_view()[2] =~= be_bytes(game_id));
        assert(seeds.deep_view() =~= seq![seq![103u8, 97, 109, 101], payer@, be_bytes(game_id)]);
        derive_address(seeds)
    }

    /// The account of the side to move.
    pub fn get_current_player_pubkey(&self) -> (r: AccountKey)
        requires
            self.game_state.in_play(),
            self.seat(self.game_state.mover()) is Some,
        ensures
            self.seat(self.game_state.mover()) == Some(r),
    {
        match self.game_state.get_current_player_turn() {
            Some(Color::White) => self.white.unwrap(),
            _ => self.black.unwrap(),
        }
    }

    /// The side to move.
    pub fn get_current_player_color(&self) -> (r: Color)
        requires
            self.game_state.in_play(),
        ensures
            r == self.game_state.mover(),
    {
        match self.game_state.get_current_player_turn() {
            Some(Color::White) => Color::White,
            _ => Color::Black,
        }
    }

    /// Seats `user` as side `color`.
    pub fn join_game(&mut self, user: AccountKey, color: Color)
        ensures
            *final(self) == (match color {
                Color::White => Game { white: Some(user), ..*old(self) },
                Color::Black => Game { black: Some(user), ..*old(self) },
            }),
    {
        if color.is_white() {
            self.white = Some(user);
        } else {
            self.black = Some(user);
        }
    }

    /// Side `color`'s seat is free.
    pub fn color_available(&self, color: Color) -> (r: bool)
        ensures
            r == self.seat(color) is None,
    {
        if color.is_white() {
            self.white.is_none()
        } else {
            self.black.is_none()
        }
    }

    /// Both seats are taken.
    pub fn is_full(&self) -> (r: bool)
        ensures
            r == (self.white is Some && self.black is Some),
    {
        self.white.is_some() && self.black.is_some()
    }

    pub fn start_game(&mut self)
        ensures
            *final(self) == (Game { game_state: GameState::White, ..*old(self) }),
    {
        self.game_state.start_game();
    }

    /// Passes the move to the other side; a game not in play is left as it is.
    pub fn next_turn(&mut self)
        ensures
            old(self).game_state.in_play() ==> *final(self) == (Game {
                game_state: GameState::turn_of(old(self).game_state.mover().opposite()),
                ..*old(self)
            }),
            !old(self).game_state.in_play() ==> *final(self) == *old(self),
    {
        if let Some(next) = self.game_state.next_turn() {
            self.game_state = next;
        }
    }

    /// Side `color` has won.
    pub fn set_winner(&mut self, color: Color)
        ensures
            *final(self) == (Game { game_state: GameState::won_by(color), ..*old(self) }),
    {
        if color.is_white() {
            self.game_state.set_white_winner();
        } else {
            self.game_state.set_black_winner();
        }
    }

    pub fn has_wager(&self) -> (r: bool)
        ensures
            r == self.game_config.wager is Some,
    {
        self.game_config.has_wager()
    }

    pub fn get_wager(&self) -> (r: u64)
        requires
            self.game_config.wager is Some,
        ensures
            self.game_config.wager == Some(r),
    {
        self.game_config.get_wager()
    }

    /// `player` holds one of the seats.
    pub fn is_in_game(&self, player: AccountKey) -> (r: bool)
        ensures
            r == self.seated(player),
    {
        player.held_by(&self.white) || player.held_by(&self.black)
    }

    pub fn is_not_in_game(&self, player: AccountKey) -> (r: bool)
        ensures
            r == !self.seated(player),
    {
        !player.held_by(&self.white) && !player.held_by(&self.black)
    }

    /// The side `player` plays: White if it holds the white seat, else Black.
    pub fn get_player_color(&self, player: AccountKey) -> (r: Color)
        ensures
            r == (if self.white is Some && self.white->Some_0@ == player@ {
                Color::White
            } else {
                Color::Black
            }),
    {
        if player.held_by(&self.white) {
            Color::White
        } else {
            Color::Black
        }
    }

    /// Frees side `color`'s seat.
    pub fn leave_game(&mut self, color: Color)
        ensures
            *final(self) == (match color {
                Color::White => Game { white: None, ..*old(self) },
                Color::Black => Game { black: None, ..*old(self) },
            }),
    {
        if color.is_white() {
            self.white = None;
        } else {
            self.black = None;
        }
    }

    pub fn is_not_started(&self) -> (r: bool)
        ensures
            r == (self.game_state == GameState::Waiting),
    {
        self.game_state.is_waiting()
    }

    pub fn is_still_going(&self) -> (r: bool)
        ensures
            r == self.game_state.in_play(),
    {
        self.game_state.is_still_going()
    }

    /// The account seated against side `color`.
    pub fn get_adversary_player(&self, color: Color) -> (r: AccountKey)
        requires
            self.seat(color.opposite()) is Some,
        ensures
            self.seat(color.opposite()) == Some(r),
    {
        if color.is_white() {
            self.black.unwrap()
        } else {
            self.white.unwrap()
        }
    }

    pub fn is_draw(&self) -> (r: bool)
        ensures
            r == (self.draw_state == DrawState::Draw),
    {
        self.draw_state.is_draw()
    }

    /// Records a draw offer by side `color`.
    pub fn update_draw_state(&mut self, color: Color)
        ensures
            *final(self) == (Game {
                draw_state: old(self).draw_state.after_offer(color),
                ..*old(self)
            }),
    {
        self.draw_state.update_state(color);
    }

    pub fn set_draw(&mut self)
        ensures
            *final(self) == (Game { game_state: GameState::Draw, ..*old(self) }),
    {
        self.game_state.set_draw();
    }

    pub fn reset_draw_state(&mut self)
        ensures
            *final(self) == (Game { draw_state: DrawState::Neither, ..*old(self) }),
    {
        self.draw_state.reset();
    }

    pub fn has_not_offered_draw(&self, color: Color) -> (r: bool)
        ensures
            r == (self.draw_state != DrawState::offer_of(color)),
    {
        !self.draw_state.color_offered(color)
    }

    pub fn is_rated(&self) -> (r: bool)
        ensures
            r == self.game_config.is_rated,
    {
        self.game_config.is_rated()
    }

    pub fn is_first_move(&self) -> (r: bool)
        ensures
            r == self.time_control.first_move(),
    {
        self.time_control.is_first_move()
    }

    pub fn has_time(&self, color: Color, current_timestamp: i64) -> (r: bool)
        ensures
            r == self.time_control.time_left(color, current_timestamp),
    {
        self.time_control.has_time(color, current_timestamp)
    }

    pub fn has_no_time(&self, color: Color, current_timestamp: i64) -> (r: bool)
        ensures
            r == !self.time_control.time_left(color, current_timestamp),
    {
        !self.has_time(color, current_timestamp)
    }

    /// Charges side `color`'s clock for a move made at `current_timestamp`.
    pub fn update_time_control(&mut self, color: Color, current_timestamp: i64)
        ensures
            *final(self) == (Game {
                time_control: old(self).time_control.charged(color, current_timestamp),
                ..*old(self)
            }),
    {
        self.time_control.update_time_control(color, current_timestamp);
    }
}

/// Whether a side is checkmated depends on the position alone: the board,
/// the en passant square and the castling rights.
pub proof fn lemma_checkmate_of_position(a: Game, b: Game, c: Color)
    requires
        a.board == b.board,
        a.enpassant == b.enpassant,
        a.castling_right == b.castling_right,
    ensures
        a.checkmated(c) == b.checkmated(c),
{
    assert forall|f: Square, t: Square| #[trigger]
        a.destination(c, f, t) == b.destination(c, f, t) by {}
    if a.checkmated(c) {
        assert forall|f: Square, t: Square|
            f.valid() && #[trigger] b.destination(c, f, t) implies !king_safe(
                b.board_after(c, f, t),
                c,
            ) by {
            assert(a.destination(c, f, t));
        }
    }
    if b.checkmated(c) {
        assert forall|f: Square, t: Square|
            f.valid() && #[trigger] a.destination(c, f, t) implies !king_safe(
                a.board_after(c, f, t),
                c,
            ) by {
            assert(b.destination(c, f, t));
        }
    }
}

impl Game {
    /// A new game under `game_config`: the starting position, both seats
    /// free, waiting for players, every castling right, no offers, full clocks.
    pub open spec fn is_new_game(
        self,
        game_config: GameConfig,
        created_at: i64,
        owner: AccountKey,
        id: u64,
        bump: u8,
    ) -> bool {
        &&& self.created_at == created_at
        &&& self.owner == owner
        &&& self.id == id
        &&& self.bump == bump
        &&& forall|s: Square|
            s.valid() ==> #[trigger] self.board.at(s) == start_piece(s.rank as int, s.file as int)
        &&& self.game_state == GameState::Waiting
        &&& self.white is None
        &&& self.black is None
        &&& self.enpassant is None
        &&& self.castling_right == CastlingRight {
            white_kingside: true,
            white_queenside: true,
            black_kingside: true,
            black_queenside: true,
        }
        &&& self.draw_state == DrawState::Neither
        &&& self.game_config == game_config
        &&& self.time_control == TimeControl {
            last_move: NO_MOVE_YET,
            white_timer: game_config.timer,
            black_timer: game_config.timer,
            increment: game_config.increment,
        }
    }

    /// Creates a game, waiting for its two players.
    pub fn create_game(
        game_config: GameConfig,
        created_at: i64,
        owner: AccountKey,
        id: u64,
        bump: u8,
    ) -> (r: Game)
        ensures
            r.is_new_game(game_config, created_at, owner, id, bump),
    {
        Game {
            created_at,
            owner,
            id,
            bump,
            board: Board::default(),
            game_state: GameState::Waiting,
            white: None,
            black: None,
            enpassant: None,
            castling_right: CastlingRight::default(),
            draw_state: DrawState::Neither,
            game_config,
            time_control: game_config.get_time_control(),
        }
    }
}

/// Setting up a freshly created game account.
pub trait GameAccount {
    /// The account holds a new game with these terms.
    spec fn is_created(
        &self,
        game_config: GameConfig,
        created_at: i64,
        owner: AccountKey,
        id: u64,
        bump: u8,
    ) -> bool;

    fn new(
        &mut self,
        game_config: GameConfig,
        created_at: i64,
        owner: AccountKey,
        id: u64,
        bump: u8,
    ) -> (r: Result<(), CustomError>)
        ensures
            r is Ok,
            final(self).is_created(game_config, created_at, owner, id, bump),
    ;
}

impl GameAccount for Game {
    open spec fn is_created(
        &self,
        game_config: GameConfig,
        created_at: i64,
        owner: AccountKey,
        id: u64,
        bump: u8,
    ) -> bool {
        self.is_new_game(game_config, created_at, owner, id, bump)
    }

    fn new(
        &mut self,
        game_config: GameConfig,
        created_at: i64,
        owner: AccountKey,
        id: u64,
        bump: u8,
    ) -> (r: Result<(), CustomError>) {
        *self = Game::create_game(game_config, created_at, owner, id, bump);
        Ok(())
    }
}

/// Every board's grid has eight ranks of eight squares.
pub proof fn lemma_grid_shape(b: Board)
    ensures
        b@.len() == 8,
        forall|r: int| 0 <= r < 8 ==> (#[trigger] b@[r]).len() == 8,
{
}

/// Reading a square of a grid after placing a piece.
pub proof fn lemma_cell_placed(g: Seq<Seq<Piece>>, x: Square, p: Piece, s: Square)
    requires
        g.len() == 8,
        forall|r: int| 0 <= r < 8 ==> (#[trigger] g[r]).len() == 8,
        x.valid(),
        s.valid(),
    ensures
        cell(placed(g, x, p), s) == (if s == x {
            p
        } else {
            cell(g, s)
        }),
{
}

/// No pawn stands on rank 0 or rank 7.
pub open spec fn no_pawn_on_back_ranks(g: Seq<Seq<Piece>>) -> bool {
    forall|s: Square|
        s.valid() && (s.rank == 0 || s.rank == 7) ==> !(#[trigger] cell(g, s)).pawn()
}

/// En passant is open only on the ply right after a pawn's double step: after
/// any other move there is no en passant square, so no pawn may then step
/// diagonally onto an empty square.
pub proof fn lemma_en_passant_expires(
    game: Game,
    after: Game,
    color: Color,
    from: Square,
    to: Square,
    next_color: Color,
    pawn: Square,
    target: Square,
)
    requires
        game.moved(after, color, from, to),
        !(cell(game.board@, from).pawn() && Game::double_step(color, from, to)),
        pawn.pawn_attack(next_color, target),
        cell(after.board@, target) == Piece::Empty,
    ensures
        after.enpassant is None,
        !after.pawn_target(next_color, pawn, target),
{
}

/// A king on its home square may castle onto its castling square exactly
/// when the right is kept, the squares up to the rook are empty and not
/// attacked, and the king is not in check.
pub proof fn lemma_castling_conditions(game: Game, color: Color)
    requires
        cell(game.board@, Square::king_home(color)) == Piece::king_of(color),
    ensures
        game.destination(color, Square::king_home(color), Square::kingside_target(color)) <==> (
        game.castling_right.kingside(color) && castle_path_clear(
            game.board@,
            color,
            Square::kingside_transit(color),
        ) && !attacked(game.board@, Square::king_home(color), color)),
        game.destination(color, Square::king_home(color), Square::queenside_target(color)) <==> (
        game.castling_right.queenside(color) && castle_path_clear(
            game.board@,
            color,
            Square::queenside_transit(color),
        ) && !attacked(game.board@, Square::king_home(color), color)),
{
}

/// A pawn that reaches its last rank is replaced by a queen of its side.
pub proof fn lemma_promotion(game: Game, after: Game, color: Color, from: Square, to: Square)
    requires
        game.moved(after, color, from, to),
        from.valid(),
        to.valid(),
        cell(game.board@, from).pawn(),
        to.rank == color.last_rank(),
    ensures
        cell(after.board@, to) == color.queen(),
{
    lemma_grid_shape(game.board);
    let prepared = game.prepared_board(color, from, to);
    let captured = placed(prepared, from, Piece::Empty);
    lemma_cell_placed(captured, to, cell(prepared, from), to);
    if game.enpassant == Some(to) {
        match to.shift(-color.forward(), 0) {
            Some(behind) => {
                let e = placed(game.board@, behind, Piece::Empty);
                lemma_cell_placed(e, from, color.queen(), from);
            },
            None => {
                lemma_cell_placed(game.board@, from, color.queen(), from);
            },
        }
    } else {
        lemma_cell_placed(game.board@, from, color.queen(), from);
    }
}

/// Once no pawn stands on a back rank, none does after any move a piece can
/// make: a pawn arriving on its last rank is made a queen.
pub proof fn lemma_back_ranks_stay_free_of_pawns(
    game: Game,
    after: Game,
    color: Color,
    from: Square,
    to: Square,
)
    requires
        game.moved(after, color, from, to),
        from.valid(),
        to.valid(),
        game.destination(color, from, to),
        no_pawn_on_back_ranks(game.board@),
    ensures
        no_pawn_on_back_ranks(after.board@),
{
    lemma_grid_shape(game.board);
    let g = game.board@;
    let p = cell(g, from);
    let home = color.home_rank() as u8;
    let prepared = game.prepared_board(color, from, to);
    let captured = if game.enpassant == Some(to) {
        match to.shift(-color.forward(), 0) {
            Some(behind) => placed(g, behind, Piece::Empty),
            None => g,
        }
    } else {
        g
    };
    let k1 = kingside_corner(color);
    let k2 = Square { rank: home, file: 5 };
    let q1 = queenside_corner(color);
    let q2 = Square { rank: home, file: 3 };
    // the en passant capture only empties a square
    assert forall|s: Square| s.valid() implies (#[trigger] cell(captured, s) == cell(g, s) || cell(
        captured,
        s,
    ) == Piece::Empty) by {
        if game.enpassant == Some(to) {
            match to.shift(-color.forward(), 0) {
                Some(behind) => {
                    lemma_cell_placed(g, behind, Piece::Empty, s);
                },
                None => {},
            }
        }
    }
    // every back-rank square of `prepared` other than `from` holds no pawn
    assert forall|s: Square|
        s.valid() && s != from && (s.rank == 0 || s.rank == 7) implies !(#[trigger] cell(
        prepared,
        s,
    )).pawn() by {
        if p.pawn() {
            if to.rank == color.last_rank() {
                lemma_cell_placed(captured, from, color.queen(), s);
            }
            assert(cell(captured, s) == cell(g, s) || cell(captured, s) == Piece::Empty);
        } else if p.king() && from == Square::king_home(color) {
            if to == Square::kingside_target(color) {
                lemma_cell_placed(g, k1, Piece::Empty, s);
                lemma_cell_placed(placed(g, k1, Piece::Empty), k2, cell(g, k1), s);
                assert(!cell(g, k1).pawn());
            } else if to == Square::queenside_target(color) {
                lemma_cell_placed(g, q1, Piece::Empty, s);
                lemma_cell_placed(placed(g, q1, Piece::Empty), q2, cell(g, q1), s);
                assert(!cell(g, q1).pawn());
            }
        }
    }
    // the piece that lands on `to`
    assert(to.rank == 0 || to.rank == 7 ==> !cell(prepared, from).pawn()) by {
        if p.pawn() {
            if to.rank == color.last_rank() {
                lemma_cell_placed(captured, from, color.queen(), from);
            } else {
                assert(from.rank != 0 && from.rank != 7);
            }
        } else if p.king() && from == Square::king_home(color) {
            if to == Square::kingside_target(color) {
                lemma_cell_placed(g, k1, Piece::Empty, from);
                lemma_cell_placed(placed(g, k1, Piece::Empty), k2, cell(g, k1), from);
            } else if to == Square::queenside_target(color) {
                lemma_cell_placed(g, q1, Piece::Empty, from);
                lemma_cell_placed(placed(g, q1, Piece::Empty), q2, cell(g, q1), from);
            }
        }
    }
    assert forall|s: Square| s.valid() && (s.rank == 0 || s.rank == 7) implies !(#[trigger] cell(
        after.board@,
        s,
    )).pawn() by {
        lemma_cell_placed(prepared, from, Piece::Empty, s);
        lemma_cell_placed(placed(prepared, from, Piece::Empty), to, cell(prepared, from), s);
    }
}

} // verus!
