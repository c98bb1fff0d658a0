use vstd::prelude::*;

use crate::color::Color;
use crate::piece::Piece;
use crate::square::{contains_square, is_direction, Square};

verus! {

broadcast use vstd::seq_lib::lemma_seq_concat_contains_all_elements,
    vstd::seq_lib::lemma_seq_contains_after_push;

/// The 8x8 grid, indexed by rank and then by file.
#[derive(Copy, Clone, Debug)]
pub struct Board {
    pub board: [[Piece; 8]; 8],
}

/// The grid `b` with `p` placed on `s`.
pub open spec fn placed(b: Seq<Seq<Piece>>, s: Square, p: Piece) -> Seq<Seq<Piece>> {
    b.update(s.rank as int, b[s.rank as int].update(s.file as int, p))
}

/// Position of a square in rank-major order.
pub open spec fn scan_index(s: Square) -> int {
    s.rank * 8 + s.file
}

/// The list holding the one element of `o`, or nothing.
pub open spec fn opt_seq<A>(o: Option<A>) -> Seq<A> {
    match o {
        Some(a) => seq![a],
        None => Seq::empty(),
    }
}

/// The four diagonal directions and the four straight ones.
pub open spec fn diagonal_direction(dr: int, df: int) -> bool {
    is_direction(dr, df) && dr != 0 && df != 0
}

pub open spec fn straight_direction(dr: int, df: int) -> bool {
    is_direction(dr, df) && (dr == 0 || df == 0)
}

/// Every square of a ray lies on the board.
pub proof fn lemma_ray_valid(sq: Square, dr: int, df: int)
    requires
        sq.valid(),
        is_direction(dr, df),
    ensures
        forall|i: int| 0 <= i < sq.ray(dr, df).len() ==> (#[trigger] sq.ray(dr, df)[i]).valid(),
{
}

/// Appends the element of `o`, if any.
fn push_found<A>(v: &mut Vec<A>, o: Option<A>)
    ensures
        final(v)@ == old(v)@ + opt_seq(o),
        forall|x: A| #[trigger] final(v)@.contains(x) <==> (old(v)@.contains(x) || o == Some(x)),
{
    let ghost before = v@;
    if let Some(a) = o {
        v.push(a);
        assert(v@ =~= before + opt_seq(o));
    } else {
        assert(v@ =~= before + opt_seq(o));
    }
}

/// What stands on `s` in grid `g`.
pub open spec fn cell(g: Seq<Seq<Piece>>, s: Square) -> Piece {
    g[s.rank as int][s.file as int]
}

/// The longest run of empty squares at the start of `s`.
pub open spec fn empty_run(g: Seq<Seq<Piece>>, s: Seq<Square>) -> Seq<Square>
    decreases s.len(),
{
    if s.len() == 0 || cell(g, s[0]) != Piece::Empty {
        Seq::empty()
    } else {
        seq![s[0]] + empty_run(g, s.drop_first())
    }
}

/// The first occupied square of `s`, if any.
pub open spec fn first_occupied(g: Seq<Seq<Piece>>, s: Seq<Square>) -> Option<Square>
    decreases s.len(),
{
    if s.len() == 0 {
        None
    } else if cell(g, s[0]) != Piece::Empty {
        Some(s[0])
    } else {
        first_occupied(g, s.drop_first())
    }
}

/// The first occupied square of `s`, with its piece.
pub open spec fn blocker(g: Seq<Seq<Piece>>, s: Seq<Square>) -> Option<(Piece, Square)> {
    match first_occupied(g, s) {
        Some(q) => Some((cell(g, q), q)),
        None => None,
    }
}

/// `x` is the first piece met from `sq` along one of the diagonals.
pub open spec fn diagonal_blocker(g: Seq<Seq<Piece>>, sq: Square, x: (Piece, Square)) -> bool {
    exists|dr: int, df: int|
        diagonal_direction(dr, df) && #[trigger] blocker(g, sq.ray(dr, df)) == Some(x)
}

/// `x` is the first piece met from `sq` along a rank or a file.
pub open spec fn straight_blocker(g: Seq<Seq<Piece>>, sq: Square, x: (Piece, Square)) -> bool {
    exists|dr: int, df: int|
        straight_direction(dr, df) && #[trigger] blocker(g, sq.ray(dr, df)) == Some(x)
}

/// Some piece of the side opposing `color` attacks `sq`.
pub open spec fn attacked(g: Seq<Seq<Piece>>, sq: Square, color: Color) -> bool {
    let enemy = color.opposite();
    ||| exists|t: Square|
        sq.pawn_attack(color, t) && #[trigger] cell(g, t).pawn() && cell(g, t).owned_by(enemy)
    ||| exists|t: Square|
        sq.adjacent(t) && #[trigger] cell(g, t).king() && cell(g, t).owned_by(enemy)
    ||| exists|x: (Piece, Square)|
        #[trigger] diagonal_blocker(g, sq, x) && x.0.owned_by(enemy) && (x.0.bishop()
            || x.0.queen())
    ||| exists|x: (Piece, Square)|
        #[trigger] straight_blocker(g, sq, x) && x.0.owned_by(enemy) && (x.0.rook()
            || x.0.queen())
    ||| exists|t: Square|
        sq.knight_jump(t) && #[trigger] cell(g, t).knight() && cell(g, t).owned_by(enemy)
}

/// `s` holds `p`, and no square before it in rank-major order does.
pub open spec fn first_with(g: Seq<Seq<Piece>>, p: Piece, s: Square) -> bool {
    &&& s.valid()
    &&& cell(g, s) == p
    &&& forall|q: Square|
        q.valid() && #[trigger] scan_index(q) < scan_index(s) ==> cell(g, q) != p
}

/// The first square in rank-major order that holds `p`.
pub open spec fn locate(g: Seq<Seq<Piece>>, p: Piece) -> Option<Square> {
    if exists|s: Square| first_with(g, p, s) {
        Some(choose|s: Square| first_with(g, p, s))
    } else {
        None
    }
}

/// Side `c` has a king on the board.
pub open spec fn has_king(g: Seq<Seq<Piece>>, c: Color) -> bool {
    locate(g, Piece::king_of(c)) is Some
}

/// Where side `c`'s king stands (the first one found, should there be two).
pub open spec fn king_square(g: Seq<Seq<Piece>>, c: Color) -> Square {
    locate(g, Piece::king_of(c))->Some_0
}

/// No transit square of a castle is attacked or occupied.
pub open spec fn castle_path_clear(g: Seq<Seq<Piece>>, color: Color, path: Seq<Square>) -> bool {
    forall|i: int|
        0 <= i < path.len() ==> !attacked(g, #[trigger] path[i], color) && cell(g, path[i])
            == Piece::Empty
}


/// What `first_occupied` finds is occupied and part of the list; when it
/// finds nothing, the whole list is empty.
pub proof fn lemma_first_occupied(g: Seq<Seq<Piece>>, s: Seq<Square>)
    ensures
        match first_occupied(g, s) {
            Some(q) => cell(g, q) != Piece::Empty && s.contains(q),
            None => forall|i: int| 0 <= i < s.len() ==> cell(g, #[trigger] s[i]) == Piece::Empty,
        },
    decreases s.len(),
{
    if s.len() > 0 {
        lemma_first_occupied(g, s.drop_first());
        if cell(g, s[0]) == Piece::Empty {
            match first_occupied(g, s.drop_first()) {
                Some(q) => {
                    let i = choose|i: int| 0 <= i < s.len() - 1 && s.drop_first()[i] == q;
                    assert(s[i + 1] == q);
                },
                None => {
                    assert forall|i: int| 0 <= i < s.len() implies cell(g, #[trigger] s[i])
                        == Piece::Empty by {
                        if i > 0 {
                            assert(s[i] == s.drop_first()[i - 1]);
                        }
                    }
                },
            }
        } else {
            assert(s[0] == s[0]);
        }
    }
}

impl View for Board {
    type V = Seq<Seq<Piece>>;

    open spec fn view(&self) -> Seq<Seq<Piece>> {
        self.board@.map_values(|row: [Piece; 8]| row@)
    }
}

impl Board {
    /// What stands on `s`.
    pub open spec fn at(self, s: Square) -> Piece {
        cell(self@, s)
    }

    pub fn get_piece(&self, square: Square) -> (r: Piece)
        requires
            square.valid(),
        ensures
            r == self.at(square),
    {
        self.board[square.get_rank()][square.get_file()]
    }

    pub fn set_piece(&mut self, piece: Piece, square: Square)
        requires
            square.valid(),
        ensures
            final(self)@ == placed(old(self)@, square, piece),
    {
        self.board[square.get_rank()][square.get_file()] = piece;
    }

    /// Moves what stands on `from` to `to`, leaving `from` empty.
    pub fn move_piece(&mut self, from: Square, to: Square)
        requires
            from.valid(),
            to.valid(),
        ensures
            final(self)@ == placed(placed(old(self)@, from, Piece::Empty), to, old(self).at(from)),
    {
        let piece = self.get_piece(from);
        self.set_piece(Piece::Empty, from);
        self.set_piece(piece, to);
    }

    /// Empties `square`.
    pub fn eat_piece(&mut self, square: Square)
        requires
            square.valid(),
        ensures
            final(self)@ == placed(old(self)@, square, Piece::Empty),
    {
        self.board[square.get_rank()][square.get_file()] = Piece::Empty;
    }

    /// The first square in rank-major order that holds `piece`.
    pub fn find_piece(&self, piece: Piece) -> (r: Option<Square>)
        ensures
            r == locate(self@, piece),
    {
        let mut rank: u8 = 0;
        while rank < 8
            invariant
                0 <= rank <= 8,
                forall|q: Square|
                    q.valid() && #[trigger] scan_index(q) < rank * 8 ==> self.at(q) != piece,
            decreases 8 - rank,
        {
            let mut file: u8 = 0;
            while file < 8
                invariant
                    0 <= rank < 8,
                    0 <= file <= 8,
                    forall|q: Square|
                        q.valid() && #[trigger] scan_index(q) < rank * 8 + file ==> self.at(q)
                            != piece,
                decreases 8 - file,
            {
                let square = Square { rank, file };
                if self.get_piece(square) == piece {
                    proof {
                        self.lemma_locate_first(piece, square);
                    }
                    return Some(square);
                }
                file = file + 1;
            }
            rank = rank + 1;
        }
        proof {
            if exists|s: Square| first_with(self@, piece, s) {
                let s = choose|s: Square| first_with(self@, piece, s);
                assert(scan_index(s) < 64);
            }
        }
        None
    }

    /// The first square holding `piece` is what `locate` names.
    pub proof fn lemma_locate_first(self, piece: Piece, s: Square)
        requires
            first_with(self@, piece, s),
        ensures
            locate(self@, piece) == Some(s),
    {
        let c = choose|c: Square| first_with(self@, piece, c);
        assert(first_with(self@, piece, c));
        if scan_index(c) < scan_index(s) {
            assert(self.at(c) != piece);
        }
        if scan_index(s) < scan_index(c) {
            assert(self.at(s) != piece);
        }
        assert(c == s);
    }

    /// Where side `color`'s king stands.
    pub fn get_king(&self, color: Color) -> (r: Option<Square>)
        ensures
            r == locate(self@, Piece::king_of(color)),
    {
        if color.is_white() {
            self.find_piece(Piece::WhiteKing)
        } else {
            self.find_piece(Piece::BlackKing)
        }
    }

    /// The empty squares at the start of `squares`, up to the first occupied one.
    pub fn get_empty_squares(&self, squares: Vec<Square>) -> (r: Vec<Square>)
        requires
            forall|i: int| 0 <= i < squares@.len() ==> (#[trigger] squares@[i]).valid(),
        ensures
            r@ == empty_run(self@, squares@),
    {
        let ghost s = squares@;
        let mut empty_squares: Vec<Square> = Vec::new();
        let mut i: usize = 0;
        assert(s.skip(0) =~= s);
        assert(empty_run(self@, s) =~= empty_squares@ + empty_run(self@, s.skip(0)));
        while i < squares.len()
            invariant
                s == squares@,
                0 <= i <= s.len(),
                forall|j: int| 0 <= j < s.len() ==> (#[trigger] s[j]).valid(),
                empty_run(self@, s) == empty_squares@ + empty_run(self@, s.skip(i as int)),
            decreases s.len() - i,
        {
            let square = squares[i];
            assert(s.skip(i as int)[0] == square);
            if self.get_piece(square).is_empty() {
                assert(s.skip(i as int).drop_first() =~= s.skip(i as int + 1));
                empty_squares.push(square);
                assert(empty_run(self@, s) =~= empty_squares@ + empty_run(self@, s.skip(i as int + 1)));
            } else {
                assert(empty_run(self@, s) =~= empty_squares@);
                return empty_squares;
            }
            i = i + 1;
        }
        assert(s.skip(i as int).len() == 0);
        assert(empty_run(self@, s) =~= empty_squares@);
        empty_squares
    }

    /// The first occupied square of `squares`, with its piece.
    pub fn get_first_non_empty_square(&self, squares: Vec<Square>) -> (r: Option<(Piece, Square)>)
        requires
            forall|i: int| 0 <= i < squares@.len() ==> (#[trigger] squares@[i]).valid(),
        ensures
            r == blocker(self@, squares@),
    {
        let ghost s = squares@;
        let mut i: usize = 0;
        assert(s.skip(0) =~= s);
        while i < squares.len()
            invariant
                s == squares@,
                0 <= i <= s.len(),
                forall|j: int| 0 <= j < s.len() ==> (#[trigger] s[j]).valid(),
                first_occupied(self@, s) == first_occupied(self@, s.skip(i as int)),
            decreases s.len() - i,
        {
            let square = squares[i];
            assert(s.skip(i as int)[0] == square);
            let piece = self.get_piece(square);
            if piece.is_not_empty() {
                return Some((piece, square));
            }
            assert(s.skip(i as int).drop_first() =~= s.skip(i as int + 1));
            i = i + 1;
        }
        assert(s.skip(i as int).len() == 0);
        None
    }

    /// The empty squares of a ray from `square`.
    pub(crate) fn ray_empty(&self, square: Square, dr: i8, df: i8) -> (r: Vec<Square>)
        requires
            square.valid(),
            is_direction(dr as int, df as int),
        ensures
            r@ == empty_run(self@, square.ray(dr as int, df as int)),
    {
        proof {
            lemma_ray_valid(square, dr as int, df as int);
        }
        let squares = match (dr, df) {
            (-1, 0) => square.get_upper_squares(),
            (1, 0) => square.get_lower_squares(),
            (0, 1) => square.get_right_squares(),
            (0, -1) => square.get_left_squares(),
            (-1, 1) => square.get_upper_right_squares(),
            (1, 1) => square.get_lower_right_squares(),
            (-1, -1) => square.get_upper_left_squares(),
            _ => square.get_lower_left_squares(),
        };
        self.get_empty_squares(squares)
    }

    /// The first piece met along a ray from `square`.
    pub(crate) fn ray_piece(&self, square: Square, dr: i8, df: i8) -> (r: Option<(Piece, Square)>)
        requires
            square.valid(),
            is_direction(dr as int, df as int),
        ensures
            r == blocker(self@, square.ray(dr as int, df as int)),
    {
        proof {
            lemma_ray_valid(square, dr as int, df as int);
        }
        let squares = match (dr, df) {
            (-1, 0) => square.get_upper_squares(),
            (1, 0) => square.get_lower_squares(),
            (0, 1) => square.get_right_squares(),
            (0, -1) => square.get_left_squares(),
            (-1, 1) => square.get_upper_right_squares(),
            (1, 1) => square.get_lower_right_squares(),
            (-1, -1) => square.get_upper_left_squares(),
            _ => square.get_lower_left_squares(),
        };
        self.get_first_non_empty_square(squares)
    }

    pub fn get_upper_squares_empty(&self, square: Square) -> (r: Vec<Square>)
        requires
            square.valid(),
        ensures
            r@ == empty_run(self@, square.ray(-1, 0)),
    {
        self.ray_empty(square, -1, 0)
    }

    pub fn get_upper_piece(&self, square: Square) -> (r: Option<(Piece, Square)>)
        requires
            square.valid(),
        ensures
            r == blocker(self@, square.ray(-1, 0)),
    {
        self.ray_piece(square, -1, 0)
    }

    pub fn get_lower_squares_empty(&self, square: Square) -> (r: Vec<Square>)
        requires
            square.valid(),
        ensures
            r@ == empty_run(self@, square.ray(1, 0)),
    {
        self.ray_empty(square, 1, 0)
    }

    pub fn get_lower_piece(&self, square: Square) -> (r: Option<(Piece, Square)>)
        requires
            square.valid(),
        ensures
            r == blocker(self@, square.ray(1, 0)),
    {
        self.ray_piece(square, 1, 0)
    }

    pub fn get_right_squares_empty(&self, square: Square) -> (r: Vec<Square>)
        requires
            square.valid(),
        ensures
            r@ == empty_run(self@, square.ray(0, 1)),
    {
        self.ray_empty(square, 0, 1)
    }

    pub fn get_right_piece(&self, square: Square) -> (r: Option<(Piece, Square)>)
        requires
            square.valid(),
        ensures
            r == blocker(self@, square.ray(0, 1)),
    {
        self.ray_piece(square, 0, 1)
    }

    pub fn get_left_squares_empty(&self, square: Square) -> (r: Vec<Square>)
        requires
            square.valid(),
        ensures
            r@ == empty_run(self@, square.ray(0, -1)),
    {
        self.ray_empty(square, 0, -1)
    }

    pub fn get_left_piece(&self, square: Square) -> (r: Option<(Piece, Square)>)
        requires
            square.valid(),
        ensures
            r == blocker(self@, square.ray(0, -1)),
    {
        self.ray_piece(square, 0, -1)
    }

    pub fn get_upper_right_squares_empty(&self, square: Square) -> (r: Vec<Square>)
        requires
            square.valid(),
        ensures
            r@ == empty_run(self@, square.ray(-1, 1)),
    {
        self.ray_empty(square, -1, 1)
    }

    pub fn get_upper_right_piece(&self, square: Square) -> (r: Option<(Piece, Square)>)
        requires
            square.valid(),
        ensures
            r == blocker(self@, square.ray(-1, 1)),
    {
        self.ray_piece(square, -1, 1)
    }

    pub fn get_lower_right_squares_empty(&self, square: Square) -> (r: Vec<Square>)
        requires
            square.valid(),
        ensures
            r@ == empty_run(self@, square.ray(1, 1)),
    {
        self.ray_empty(square, 1, 1)
    }

    pub fn get_lower_right_piece(&self, square: Square) -> (r: Option<(Piece, Square)>)
        requires
            square.valid(),
        ensures
            r == blocker(self@, square.ray(1, 1)),
    {
        self.ray_piece(square, 1, 1)
    }

    pub fn get_upper_left_squares_empty(&self, square: Square) -> (r: Vec<Square>)
        requires
            square.valid(),
        ensures
            r@ == empty_run(self@, square.ray(-1, -1)),
    {
        self.ray_empty(square, -1, -1)
    }

    pub fn get_upper_left_piece(&self, square: Square) -> (r: Option<(Piece, Square)>)
        requires
            square.valid(),
        ensures
            r == blocker(self@, square.ray(-1, -1)),
    {
        self.ray_piece(square, -1, -1)
    }

    pub fn get_lower_left_squares_empty(&self, square: Square) -> (r: Vec<Square>)
        requires
            square.valid(),
        ensures
            r@ == empty_run(self@, square.ray(1, -1)),
    {
        self.ray_empty(square, 1, -1)
    }

    pub fn get_lower_left_piece(&self, square: Square) -> (r: Option<(Piece, Square)>)
        requires
            square.valid(),
        ensures
            r == blocker(self@, square.ray(1, -1)),
    {
        self.ray_piece(square, 1, -1)
    }

    /// A piece found along a ray is an occupant of the board.
    pub proof fn lemma_blocker_occupied(self, sq: Square, dr: int, df: int)
        requires
            sq.valid(),
            is_direction(dr, df),
        ensures
            match blocker(self@, sq.ray(dr, df)) {
                Some(x) => x.0 != Piece::Empty && x.0 == self.at(x.1) && x.1.valid(),
                None => true,
            },
    {
        lemma_ray_valid(sq, dr, df);
        lemma_first_occupied(self@, sq.ray(dr, df));
    }

    /// The first piece met along each diagonal from `square`.
    pub fn get_diagonal_pieces(&self, square: Square) -> (r: Vec<(Piece, Square)>)
        requires
            square.valid(),
        ensures
            forall|x: (Piece, Square)| #[trigger]
                r@.contains(x) <==> diagonal_blocker(self@, square, x),
            r@ == opt_seq(blocker(self@, square.ray(-1, 1)))
                + opt_seq(blocker(self@, square.ray(-1, -1)))
                + opt_seq(blocker(self@, square.ray(1, 1)))
                + opt_seq(blocker(self@, square.ray(1, -1))),
    {
        let mut pieces: Vec<(Piece, Square)> = Vec::new();
        push_found(&mut pieces, self.get_upper_right_piece(square));
        push_found(&mut pieces, self.get_upper_left_piece(square));
        push_found(&mut pieces, self.get_lower_right_piece(square));
        push_found(&mut pieces, self.get_lower_left_piece(square));
        assert forall|x: (Piece, Square)| #[trigger]
            pieces@.contains(x) <==> diagonal_blocker(self@, square, x) by {
            if pieces@.contains(x) {
                if blocker(self@, square.ray(-1, 1)) == Some(x) {
                    assert(diagonal_direction(-1, 1));
                } else if blocker(self@, square.ray(-1, -1)) == Some(x) {
                    assert(diagonal_direction(-1, -1));
                } else if blocker(self@, square.ray(1, 1)) == Some(x) {
                    assert(diagonal_direction(1, 1));
                } else {
                    assert(diagonal_direction(1, -1));
                }
            }
        }
        pieces
    }

    /// The first piece met along each rank and file direction from `square`.
    pub fn get_parallel_pieces(&self, square: Square) -> (r: Vec<(Piece, Square)>)
        requires
            square.valid(),
        ensures
            forall|x: (Piece, Square)| #[trigger]
                r@.contains(x) <==> straight_blocker(self@, square, x),
            r@ == opt_seq(blocker(self@, square.ray(-1, 0)))
                + opt_seq(blocker(self@, square.ray(1, 0)))
                + opt_seq(blocker(self@, square.ray(0, 1)))
                + opt_seq(blocker(self@, square.ray(0, -1))),
    {
        let mut pieces: Vec<(Piece, Square)> = Vec::new();
        push_found(&mut pieces, self.get_upper_piece(square));
        push_found(&mut pieces, self.get_lower_piece(square));
        push_found(&mut pieces, self.get_right_piece(square));
        push_found(&mut pieces, self.get_left_piece(square));
        assert forall|x: (Piece, Square)| #[trigger]
            pieces@.contains(x) <==> straight_blocker(self@, square, x) by {
            if pieces@.contains(x) {
                if blocker(self@, square.ray(-1, 0)) == Some(x) {
                    assert(straight_direction(-1, 0));
                } else if blocker(self@, square.ray(1, 0)) == Some(x) {
                    assert(straight_direction(1, 0));
                } else if blocker(self@, square.ray(0, 1)) == Some(x) {
                    assert(straight_direction(0, 1));
                } else {
                    assert(straight_direction(0, -1));
                }
            }
        }
        pieces
    }

    /// The pieces a knight on `square` could reach, with their squares.
    pub fn get_knight_jump_pieces(&self, square: Square) -> (r: Vec<(Piece, Square)>)
        ensures
            forall|x: (Piece, Square)| #[trigger]
                r@.contains(x) <==> (square.knight_jump(x.1) && x.0 == self.at(x.1) && x.0
                    != Piece::Empty),
    {
        let jumps = square.get_knight_jumps();
        let mut pieces: Vec<(Piece, Square)> = Vec::new();
        let mut i: usize = 0;
        while i < jumps.len()
            invariant
                0 <= i <= jumps@.len(),
                forall|t: Square| #[trigger] jumps@.contains(t) <==> square.knight_jump(t),
                forall|x: (Piece, Square)| #[trigger]
                    pieces@.contains(x) <==> (jumps@.take(i as int).contains(x.1) && x.0
                        == self.at(x.1) && x.0 != Piece::Empty),
            decreases jumps@.len() - i,
        {
            let jump = jumps[i];
            assert(jumps@.contains(jump));
            assert(jumps@.take(i as int + 1) =~= jumps@.take(i as int).push(jump));
            let piece = self.get_piece(jump);
            if piece.is_not_empty() {
                pieces.push((piece, jump));
            }
            i = i + 1;
        }
        assert(jumps@.take(jumps@.len() as int) =~= jumps@);
        pieces
    }

    /// Pieces of the opposing side found along the diagonals are never empty.
    proof fn lemma_ray_pieces_occupied(self, square: Square)
        requires
            square.valid(),
        ensures
            forall|x: (Piece, Square)| #[trigger]
                diagonal_blocker(self@, square, x) ==> x.0 != Piece::Empty && x.1.valid() && x.0
                    == self.at(x.1),
            forall|x: (Piece, Square)| #[trigger]
                straight_blocker(self@, square, x) ==> x.0 != Piece::Empty && x.1.valid() && x.0
                    == self.at(x.1),
    {
        assert forall|x: (Piece, Square)| #[trigger] diagonal_blocker(self@, square, x) implies x.0
            != Piece::Empty && x.1.valid() && x.0 == self.at(x.1) by {
            let (dr, df) = choose|dr: int, df: int|
                diagonal_direction(dr, df) && #[trigger] blocker(self@, square.ray(dr, df)) == Some(
                    x,
                );
            self.lemma_blocker_occupied(square, dr, df);
        }
        assert forall|x: (Piece, Square)| #[trigger] straight_blocker(self@, square, x) implies x.0
            != Piece::Empty && x.1.valid() && x.0 == self.at(x.1) by {
            let (dr, df) = choose|dr: int, df: int|
                straight_direction(dr, df) && #[trigger] blocker(self@, square.ray(dr, df)) == Some(
                    x,
                );
            self.lemma_blocker_occupied(square, dr, df);
        }
    }

    /// Some piece of the side opposing `color` attacks `square`: a pawn, the
    /// king, a slider along its first blocked diagonal or line, or a knight.
    pub fn is_square_attacked(&self, square: Square, color: Color) -> (r: bool)
        requires
            square.valid(),
        ensures
            r == attacked(self@, square, color),
    {
        let pawn_attack_squares = square.get_pawn_attack_squares(color);
        let adjacent_squares = square.get_adjacent_squares();
        let diagonal_pieces = self.get_diagonal_pieces(square);
        let parallel_pieces = self.get_parallel_pieces(square);
        let knight_jump_pieces = self.get_knight_jump_pieces(square);
        proof {
            self.lemma_ray_pieces_occupied(square);
        }

        // pawn
        let mut i: usize = 0;
        while i < pawn_attack_squares.len()
            invariant
                0 <= i <= pawn_attack_squares@.len(),
                forall|t: Square| #[trigger]
                    pawn_attack_squares@.contains(t) <==> square.pawn_attack(color, t),
                forall|j: int|
                    0 <= j < i ==> !(cell(self@, #[trigger] pawn_attack_squares@[j]).pawn() && cell(self@, 
                        pawn_attack_squares@[j],
                    ).owned_by(color.opposite())),
            decreases pawn_attack_squares@.len() - i,
        {
            let t = pawn_attack_squares[i];
            assert(pawn_attack_squares@.contains(t));
            let piece = self.get_piece(t);
            if piece.is_pawn() && piece.belongs_to(color.get_opposite()) {
                return true;
            }
            i = i + 1;
        }
        assert forall|t: Square|
            square.pawn_attack(color, t) implies !(#[trigger] cell(self@, t).pawn() && cell(self@, 
                t,
            ).owned_by(color.opposite())) by {
            assert(pawn_attack_squares@.contains(t));
        }

        // king
        let mut i: usize = 0;
        while i < adjacent_squares.len()
            invariant
                0 <= i <= adjacent_squares@.len(),
                forall|t: Square| #[trigger] adjacent_squares@.contains(t) <==> square.adjacent(t),
                forall|j: int|
                    0 <= j < i ==> !(cell(self@, #[trigger] adjacent_squares@[j]).king() && cell(self@, 
                        adjacent_squares@[j],
                    ).owned_by(color.opposite())),
            decreases adjacent_squares@.len() - i,
        {
            let t = adjacent_squares[i];
            assert(adjacent_squares@.contains(t));
            let piece = self.get_piece(t);
            if piece.is_king() && piece.belongs_to(color.get_opposite()) {
                return true;
            }
            i = i + 1;
        }
        assert forall|t: Square| square.adjacent(t) implies !(#[trigger] cell(self@, t).king()
            && cell(self@, t).owned_by(color.opposite())) by {
            assert(adjacent_squares@.contains(t));
        }

        // bishop / queen
        let mut i: usize = 0;
        while i < diagonal_pieces.len()
            invariant
                0 <= i <= diagonal_pieces@.len(),
                forall|x: (Piece, Square)| #[trigger]
                    diagonal_pieces@.contains(x) <==> diagonal_blocker(self@, square, x),
                forall|x: (Piece, Square)| #[trigger]
                    diagonal_blocker(self@, square, x) ==> x.0 != Piece::Empty,
                forall|j: int|
                    0 <= j < i ==> !((#[trigger] diagonal_pieces@[j]).0.owned_by(color.opposite()) && (
                    diagonal_pieces@[j].0.bishop() || diagonal_pieces@[j].0.queen())),
            decreases diagonal_pieces@.len() - i,
        {
            let x = diagonal_pieces[i];
            assert(diagonal_pieces@.contains(x));
            if x.0.belongs_to(color.get_opposite()) && (x.0.is_bishop() || x.0.is_queen()) {
                return true;
            }
            i = i + 1;
        }
        assert forall|x: (Piece, Square)| #[trigger] diagonal_blocker(self@, square, x) implies !(
        x.0.owned_by(color.opposite()) && (x.0.bishop() || x.0.queen())) by {
            assert(diagonal_pieces@.contains(x));
        }

        // rook / queen
        let mut i: usize = 0;
        while i < parallel_pieces.len()
            invariant
                0 <= i <= parallel_pieces@.len(),
                forall|x: (Piece, Square)| #[trigger]
                    parallel_pieces@.contains(x) <==> straight_blocker(self@, square, x),
                forall|x: (Piece, Square)| #[trigger]
                    straight_blocker(self@, square, x) ==> x.0 != Piece::Empty,
                forall|j: int|
                    0 <= j < i ==> !((#[trigger] parallel_pieces@[j]).0.owned_by(color.opposite()) && (
                    parallel_pieces@[j].0.rook() || parallel_pieces@[j].0.queen())),
            decreases parallel_pieces@.len() - i,
        {
            let x = parallel_pieces[i];
            assert(parallel_pieces@.contains(x));
            if x.0.belongs_to(color.get_opposite()) && (x.0.is_rook() || x.0.is_queen()) {
                return true;
            }
            i = i + 1;
        }
        assert forall|x: (Piece, Square)| #[trigger] straight_blocker(self@, square, x) implies !(
        x.0.owned_by(color.opposite()) && (x.0.rook() || x.0.queen())) by {
            assert(parallel_pieces@.contains(x));
        }

        // knight
        let mut i: usize = 0;
        while i < knight_jump_pieces.len()
            invariant
                0 <= i <= knight_jump_pieces@.len(),
                forall|x: (Piece, Square)| #[trigger]
                    knight_jump_pieces@.contains(x) <==> (square.knight_jump(x.1) && x.0 == cell(self@, 
                        x.1,
                    ) && x.0 != Piece::Empty),
                forall|j: int|
                    0 <= j < i ==> !((#[trigger] knight_jump_pieces@[j]).0.owned_by(color.opposite())
                        && knight_jump_pieces@[j].0.knight()),
            decreases knight_jump_pieces@.len() - i,
        {
            let x = knight_jump_pieces[i];
            assert(knight_jump_pieces@.contains(x));
            if x.0.belongs_to(color.get_opposite()) && x.0.is_knight() {
                return true;
            }
            i = i + 1;
        }
        assert forall|t: Square| square.knight_jump(t) implies !(#[trigger] cell(self@, t).knight()
            && cell(self@, t).owned_by(color.opposite())) by {
            if cell(self@, t).knight() {
                assert(knight_jump_pieces@.contains((cell(self@, t), t)));
            }
        }
        false
    }

    /// No square of `path` is occupied or attacked by the side opposing `color`.
    fn path_clear(&self, path: Vec<Square>, color: Color) -> (r: bool)
        requires
            forall|i: int| 0 <= i < path@.len() ==> (#[trigger] path@[i]).valid(),
        ensures
            r == castle_path_clear(self@, color, path@),
    {
        let mut i: usize = 0;
        while i < path.len()
            invariant
                0 <= i <= path@.len(),
                forall|j: int| 0 <= j < path@.len() ==> (#[trigger] path@[j]).valid(),
                forall|j: int|
                    0 <= j < i ==> !attacked(self@, #[trigger] path@[j], color) && self.at(path@[j])
                        == Piece::Empty,
            decreases path@.len() - i,
        {
            let square = path[i];
            if self.is_square_attacked(square, color) || self.get_piece(square).is_not_empty() {
                return false;
            }
            i = i + 1;
        }
        true
    }

    /// The squares between side `color`'s king and kingside rook are empty
    /// and not attacked.
    pub fn can_kingside_castle(&self, color: Color) -> (r: bool)
        ensures
            r == castle_path_clear(self@, color, Square::kingside_transit(color)),
    {
        let squares = Square::get_kingside_castle_squares(color);
        self.path_clear(squares, color)
    }

    /// The squares between side `color`'s king and queenside rook are empty
    /// and not attacked.
    pub fn can_queenside_castle(&self, color: Color) -> (r: bool)
        ensures
            r == castle_path_clear(self@, color, Square::queenside_transit(color)),
    {
        let squares = Square::get_queenside_castle_squares(color);
        self.path_clear(squares, color)
    }

    /// Moves side `color`'s kingside rook to the square the king passed over.
    pub fn apply_kingside_castle_rook(&mut self, color: Color)
        ensures
            final(self)@ == placed(
                placed(
                    old(self)@,
                    Square { rank: color.home_rank() as u8, file: 7 },
                    Piece::Empty,
                ),
                Square { rank: color.home_rank() as u8, file: 5 },
                old(self).at(Square { rank: color.home_rank() as u8, file: 7 }),
            ),
    {
        if color.is_white() {
            self.move_piece(Square { rank: 7, file: 7 }, Square { rank: 7, file: 5 })
        } else {
            self.move_piece(Square { rank: 0, file: 7 }, Square { rank: 0, file: 5 })
        }
    }

    /// Moves side `color`'s queenside rook to the square the king passed over.
    pub fn apply_queenside_castle_rook(&mut self, color: Color)
        ensures
            final(self)@ == placed(
                placed(
                    old(self)@,
                    Square { rank: color.home_rank() as u8, file: 0 },
                    Piece::Empty,
                ),
                Square { rank: color.home_rank() as u8, file: 3 },
                old(self).at(Square { rank: color.home_rank() as u8, file: 0 }),
            ),
    {
        if color.is_white() {
            self.move_piece(Square { rank: 7, file: 0 }, Square { rank: 7, file: 3 })
        } else {
            self.move_piece(Square { rank: 0, file: 0 }, Square { rank: 0, file: 3 })
        }
    }

    /// Every piece of side `color`, with its square, in rank-major order.
    pub fn get_color_pieces(&self, color: Color) -> (r: Vec<(Piece, Square)>)
        ensures
            forall|x: (Piece, Square)| #[trigger]
                r@.contains(x) <==> (x.1.valid() && x.0 == self.at(x.1) && x.0.owned_by(color)),
            forall|i: int, j: int|
                0 <= i < j < r@.len() ==> scan_index(#[trigger] r@[i].1) < scan_index(
                    #[trigger] r@[j].1,
                ),
            r@.no_duplicates(),
    {
        let mut pieces: Vec<(Piece, Square)> = Vec::new();
        let mut rank: u8 = 0;
        while rank < 8
            invariant
                0 <= rank <= 8,
                forall|x: (Piece, Square)| #[trigger]
                    pieces@.contains(x) <==> (x.1.valid() && scan_index(x.1) < rank * 8 && x.0
                        == self.at(x.1) && x.0.owned_by(color)),
                forall|i: int, j: int|
                    0 <= i < j < pieces@.len() ==> scan_index(#[trigger] pieces@[i].1) < scan_index(
                        #[trigger] pieces@[j].1,
                    ),
                forall|i: int| 0 <= i < pieces@.len() ==> scan_index(#[trigger] pieces@[i].1) < rank * 8,
            decreases 8 - rank,
        {
            let mut file: u8 = 0;
            while file < 8
                invariant
                    0 <= rank < 8,
                    0 <= file <= 8,
                    forall|x: (Piece, Square)| #[trigger]
                        pieces@.contains(x) <==> (x.1.valid() && scan_index(x.1) < rank * 8 + file
                            && x.0 == self.at(x.1) && x.0.owned_by(color)),
                    forall|i: int, j: int|
                        0 <= i < j < pieces@.len() ==> scan_index(#[trigger] pieces@[i].1)
                            < scan_index(#[trigger] pieces@[j].1),
                    forall|i: int|
                        0 <= i < pieces@.len() ==> scan_index(#[trigger] pieces@[i].1) < rank * 8
                            + file,
                decreases 8 - file,
            {
                let square = Square { rank, file };
                let piece = self.get_piece(square);
                if piece.belongs_to(color) {
                    pieces.push((piece, square));
                }
                file = file + 1;
            }
            rank = rank + 1;
        }
        assert forall|i: int, j: int| 0 <= i < j < pieces@.len() implies pieces@[i] != pieces@[j] by {
            assert(scan_index(pieces@[i].1) < scan_index(pieces@[j].1));
        }
        pieces
    }

    /// Takes back a relocation from `from` to `to`, putting `piece` back on `to`.
    pub fn undo_move(&mut self, from: Square, to: Square, piece: Piece)
        requires
            from.valid(),
            to.valid(),
        ensures
            final(self)@ == placed(
                placed(placed(old(self)@, to, Piece::Empty), from, old(self).at(to)),
                to,
                piece,
            ),
    {
        self.move_piece(to, from);
        self.set_piece(piece, to);
    }
}

/// The piece that stands on rank `r`, file `f` at the start of a game.
pub open spec fn start_piece(r: int, f: int) -> Piece {
    let back = if f == 0 || f == 7 {
        0int
    } else if f == 1 || f == 6 {
        1int
    } else if f == 2 || f == 5 {
        2int
    } else if f == 3 {
        3int
    } else {
        4int
    };
    if r == 1 {
        Piece::BlackPawn
    } else if r == 6 {
        Piece::WhitePawn
    } else if r == 0 {
        if back == 0 {
            Piece::BlackRook
        } else if back == 1 {
            Piece::BlackKnight
        } else if back == 2 {
            Piece::BlackBishop
        } else if back == 3 {
            Piece::BlackQueen
        } else {
            Piece::BlackKing
        }
    } else if r == 7 {
        if back == 0 {
            Piece::WhiteRook
        } else if back == 1 {
            Piece::WhiteKnight
        } else if back == 2 {
            Piece::WhiteBishop
        } else if back == 3 {
            Piece::WhiteQueen
        } else {
            Piece::WhiteKing
        }
    } else {
        Piece::Empty
    }
}

/// Relocating a piece and then taking the relocation back, with the piece
/// that stood on the destination, gives back exactly the board one started from.
pub proof fn lemma_undo_restores(b: Board, from: Square, to: Square)
    requires
        from.valid(),
        to.valid(),
    ensures
        ({
            let moved = placed(placed(b@, from, Piece::Empty), to, b.at(from));
            placed(
                placed(placed(moved, to, Piece::Empty), from, moved[to.rank as int][to.file as int]),
                to,
                b.at(to),
            ) == b@
        }),
{
    let moved = placed(placed(b@, from, Piece::Empty), to, b.at(from));
    let back = placed(
        placed(placed(moved, to, Piece::Empty), from, moved[to.rank as int][to.file as int]),
        to,
        b.at(to),
    );
    assert(b@.len() == 8);
    assert forall|r: int| 0 <= r < 8 implies #[trigger] back[r] =~= b@[r] by {
        assert(b@[r].len() == 8);
    }
    assert(back =~= b@);
}

impl Default for Board {
    /// The starting position.
    fn default() -> (r: Board)
        ensures
            forall|s: Square| s.valid() ==> #[trigger] r.at(s) == start_piece(s.rank as int, s.file as int),
    {
        Board {
            board: [
                [
                    Piece::BlackRook,
                    Piece::BlackKnight,
                    Piece::BlackBishop,
                    Piece::BlackQueen,
                    Piece::BlackKing,
                    Piece::BlackBishop,
                    Piece::BlackKnight,
                    Piece::BlackRook,
                ],
                [
                    Piece::BlackPawn,
                    Piece::BlackPawn,
                    Piece::BlackPawn,
                    Piece::BlackPawn,
                    Piece::BlackPawn,
                    Piece::BlackPawn,
                    Piece::BlackPawn,
                    Piece::BlackPawn,
                ],
                [
                    Piece::Empty,
                    Piece::Empty,
                    Piece::Empty,
                    Piece::Empty,
                    Piece::Empty,
                    Piece::Empty,
                    Piece::Empty,
                    Piece::Empty,
                ],
                [
                    Piece::Empty,
                    Piece::Empty,
                    Piece::Empty,
                    Piece::Empty,
                    Piece::Empty,
                    Piece::Empty,
                    Piece::Empty,
                    Piece::Empty,
                ],
                [
                    Piece::Empty,
                    Piece::Empty,
                    Piece::Empty,
                    Piece::Empty,
                    Piece::Empty,
                    Piece::Empty,
                    Piece::Empty,
                    Piece::Empty,
                ],
                [
                    Piece::Empty,
                    Piece::Empty,
                    Piece::Empty,
                    Piece::Empty,
                    Piece::Empty,
                    Piece::Empty,
                    Piece::Empty,
                    Piece::Empty,
                ],
                [
                    Piece::WhitePawn,
                    Piece::WhitePawn,
                    Piece::WhitePawn,
                    Piece::WhitePawn,
                    Piece::WhitePawn,
                    Piece::WhitePawn,
                    Piece::WhitePawn,
                    Piece::WhitePawn,
                ],
                [
                    Piece::WhiteRook,
                    Piece::WhiteKnight,
                    Piece::WhiteBishop,
                    Piece::WhiteQueen,
                    Piece::WhiteKing,
                    Piece::WhiteBishop,
                    Piece::WhiteKnight,
                    Piece::WhiteRook,
                ],
            ],
        }
    }
}

} // verus!
