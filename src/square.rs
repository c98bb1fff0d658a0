use vstd::prelude::*;

use crate::color::Color;

verus! {

broadcast use vstd::seq_lib::lemma_seq_concat_contains_all_elements,
    vstd::seq_lib::lemma_seq_contains_after_push;

/// A square of the board. Rank 0 is Black's back rank, rank 7 White's; file 0
/// is the a-file.
#[derive(Copy, Clone, Debug, PartialEq, Eq, Hash, Structural)]
pub struct Square {
    pub rank: u8,
    pub file: u8,
}

/// How many steps fit between `pos` and the edge of the board when walking by
/// `d` (8 when the walk never changes `pos`).
pub open spec fn reach(pos: int, d: int) -> int {
    if d < 0 {
        pos
    } else if d > 0 {
        7 - pos
    } else {
        8
    }
}

/// `pos` after `k` steps of `d`.
pub open spec fn along(pos: int, d: int, k: int) -> int {
    if d < 0 {
        pos - k
    } else if d > 0 {
        pos + k
    } else {
        pos
    }
}

/// A direction of a ray: each coordinate moves by -1, 0 or 1, not both 0.
pub open spec fn is_direction(dr: int, df: int) -> bool {
    -1 <= dr <= 1 && -1 <= df <= 1 && !(dr == 0 && df == 0)
}

pub open spec fn is_unit(d: int) -> bool {
    d == 1 || d == -1
}

/// The square at rank `r` and file `f`, if that is on the board.
pub open spec fn square_at(r: int, f: int) -> Option<Square> {
    if 0 <= r < 8 && 0 <= f < 8 {
        Some(Square { rank: r as u8, file: f as u8 })
    } else {
        None
    }
}

/// Appends the square in `o`, if any.
fn push_opt(v: &mut Vec<Square>, o: Option<Square>)
    ensures
        forall|t: Square| #[trigger]
            final(v)@.contains(t) <==> (old(v)@.contains(t) || o == Some(t)),
        forall|i: int| 0 <= i < old(v)@.len() ==> final(v)@[i] == old(v)@[i],
        o is None ==> final(v)@ == old(v)@,
        o is Some ==> final(v)@ == old(v)@.push(o->Some_0),
{
    if let Some(s) = o {
        let ghost before = v@;
        v.push(s);
        assert forall|t: Square| #[trigger]
            v@.contains(t) <==> (before.contains(t) || s == t) by {
            if before.contains(t) {
                let i = choose|i: int| 0 <= i < before.len() && before[i] == t;
                assert(v@[i] == t);
            }
            if s == t {
                assert(v@[v@.len() - 1] == t);
            }
            if v@.contains(t) {
                let i = choose|i: int| 0 <= i < v@.len() && v@[i] == t;
                if i < before.len() {
                    assert(before[i] == t);
                }
            }
        }
    }
}

/// Whether `v` holds `s`.
pub fn contains_square(v: &Vec<Square>, s: &Square) -> (r: bool)
    ensures
        r == v@.contains(*s),
{
    let mut i: usize = 0;
    while i < v.len()
        invariant
            0 <= i <= v@.len(),
            forall|j: int| 0 <= j < i ==> v@[j] != *s,
        decreases v@.len() - i,
    {
        if v[i] == *s {
            assert(v@[i as int] == *s);
            return true;
        }
        i = i + 1;
    }
    false
}

/// Appends each square of `w` that `v` does not hold yet.
fn add_new_squares(v: &mut Vec<Square>, w: &Vec<Square>)
    requires
        old(v)@.no_duplicates(),
    ensures
        final(v)@.no_duplicates(),
        forall|t: Square| #[trigger]
            final(v)@.contains(t) <==> (old(v)@.contains(t) || w@.contains(t)),
{
    let ghost start = v@;
    let mut i: usize = 0;
    while i < w.len()
        invariant
            0 <= i <= w@.len(),
            v@.no_duplicates(),
            forall|t: Square| #[trigger]
                v@.contains(t) <==> (start.contains(t) || w@.take(i as int).contains(t)),
        decreases w@.len() - i,
    {
        let s = w[i];
        assert(w@.take(i as int + 1) =~= w@.take(i as int).push(s));
        if !contains_square(v, &s) {
            v.push(s);
        }
        i = i + 1;
    }
    assert(w@.take(w@.len() as int) =~= w@);
}

impl Square {
    /// Both coordinates are on the board.
    pub open spec fn valid(self) -> bool {
        self.rank < 8 && self.file < 8
    }

    /// The square `dr` ranks and `df` files away, if it is on the board.
    pub open spec fn shift(self, dr: int, df: int) -> Option<Square> {
        square_at(self.rank + dr, self.file + df)
    }

    /// The squares from this one towards the edge of the board in direction
    /// (`dr`, `df`), nearest first.
    pub open spec fn ray(self, dr: int, df: int) -> Seq<Square> {
        let n = if reach(self.rank as int, dr) < reach(self.file as int, df) {
            reach(self.rank as int, dr)
        } else {
            reach(self.file as int, df)
        };
        Seq::new(
            n as nat,
            |i: int|
                Square {
                    rank: along(self.rank as int, dr, i + 1) as u8,
                    file: along(self.file as int, df, i + 1) as u8,
                },
        )
    }

    /// `t` is one of the (up to eight) squares next to this one.
    pub open spec fn adjacent(self, t: Square) -> bool {
        &&& t.valid()
        &&& -1 <= t.rank - self.rank <= 1
        &&& -1 <= t.file - self.file <= 1
        &&& t != self
    }

    /// A knight on this square can jump to `t`.
    pub open spec fn knight_jump(self, t: Square) -> bool {
        &&& t.valid()
        &&& {
            ||| is_unit(t.rank - self.rank) && (t.file - self.file == 2 || t.file - self.file == -2)
            ||| is_unit(t.file - self.file) && (t.rank - self.rank == 2 || t.rank - self.rank == -2)
        }
    }

    /// A pawn of side `c` on this square attacks `t`.
    pub open spec fn pawn_attack(self, c: Color, t: Square) -> bool {
        &&& t.valid()
        &&& t.rank - self.rank == c.forward()
        &&& is_unit(t.file - self.file)
    }

    /// The square from which side `c`'s king starts.
    pub open spec fn king_home(c: Color) -> Square {
        Square { rank: c.home_rank() as u8, file: 4 }
    }

    /// Where side `c`'s king lands when it castles kingside.
    pub open spec fn kingside_target(c: Color) -> Square {
        Square { rank: c.home_rank() as u8, file: 6 }
    }

    /// Where side `c`'s king lands when it castles queenside.
    pub open spec fn queenside_target(c: Color) -> Square {
        Square { rank: c.home_rank() as u8, file: 2 }
    }

    /// The squares between side `c`'s king and its kingside rook.
    pub open spec fn kingside_transit(c: Color) -> Seq<Square> {
        seq![
            Square { rank: c.home_rank() as u8, file: 5 },
            Square { rank: c.home_rank() as u8, file: 6 },
        ]
    }

    /// The squares between side `c`'s king and its queenside rook.
    pub open spec fn queenside_transit(c: Color) -> Seq<Square> {
        seq![
            Square { rank: c.home_rank() as u8, file: 1 },
            Square { rank: c.home_rank() as u8, file: 2 },
            Square { rank: c.home_rank() as u8, file: 3 },
        ]
    }

    /// The square `dr` ranks and `df` files away, if it is on the board.
    pub fn offset(&self, dr: i8, df: i8) -> (r: Option<Square>)
        ensures
            r == self.shift(dr as int, df as int),
    {
        let rank: i16 = self.rank as i16 + dr as i16;
        let file: i16 = self.file as i16 + df as i16;
        if 0 <= rank && rank < 8 && 0 <= file && file < 8 {
            Some(Square { rank: rank as u8, file: file as u8 })
        } else {
            None
        }
    }

    pub fn get_rank(&self) -> (r: usize)
        ensures
            r == self.rank,
    {
        self.rank as usize
    }

    pub fn get_file(&self) -> (r: usize)
        ensures
            r == self.file,
    {
        self.file as usize
    }

    pub fn next_rank(&self) -> (r: usize)
        ensures
            r == self.rank + 1,
    {
        self.rank as usize + 1
    }

    /// The rank before this one; `None` on rank 0.
    pub fn previous_rank(&self) -> (r: Option<usize>)
        ensures
            self.rank == 0 ==> r is None,
            self.rank > 0 ==> r == Some((self.rank - 1) as usize),
    {
        if self.rank == 0 {
            None
        } else {
            Some(self.rank as usize - 1)
        }
    }

    pub fn next_file(&self) -> (r: usize)
        ensures
            r == self.file + 1,
    {
        self.file as usize + 1
    }

    /// The file before this one; `None` on file 0.
    pub fn previous_file(&self) -> (r: Option<usize>)
        ensures
            self.file == 0 ==> r is None,
            self.file > 0 ==> r == Some((self.file - 1) as usize),
    {
        if self.file == 0 {
            None
        } else {
            Some(self.file as usize - 1)
        }
    }

    pub fn get_square_up(&self) -> (r: Option<Square>)
        ensures
            r == self.shift(-1, 0),
    {
        self.offset(-1, 0)
    }

    pub fn get_square_down(&self) -> (r: Option<Square>)
        ensures
            r == self.shift(1, 0),
    {
        self.offset(1, 0)
    }

    pub fn get_square_right(&self) -> (r: Option<Square>)
        ensures
            r == self.shift(0, 1),
    {
        self.offset(0, 1)
    }

    pub fn get_square_left(&self) -> (r: Option<Square>)
        ensures
            r == self.shift(0, -1),
    {
        self.offset(0, -1)
    }

    pub fn get_square_up_right(&self) -> (r: Option<Square>)
        ensures
            r == self.shift(-1, 1),
    {
        self.offset(-1, 1)
    }

    pub fn get_square_up_left(&self) -> (r: Option<Square>)
        ensures
            r == self.shift(-1, -1),
    {
        self.offset(-1, -1)
    }

    pub fn get_square_down_right(&self) -> (r: Option<Square>)
        ensures
            r == self.shift(1, 1),
    {
        self.offset(1, 1)
    }

    pub fn get_square_down_left(&self) -> (r: Option<Square>)
        ensures
            r == self.shift(1, -1),
    {
        self.offset(1, -1)
    }

    /// One square towards side `color`'s last rank.
    pub fn get_square_forward(&self, color: Color) -> (r: Option<Square>)
        ensures
            r == self.shift(color.forward(), 0),
    {
        self.offset(color.get_pawn_direction(), 0)
    }

    /// One square towards side `color`'s home rank.
    pub fn get_square_backward(&self, color: Color) -> (r: Option<Square>)
        ensures
            r == self.shift(-color.forward(), 0),
    {
        self.offset(-color.get_pawn_direction(), 0)
    }

    /// Diagonally forward, to the right as seen by side `color`.
    pub fn get_square_forward_right(&self, color: Color) -> (r: Option<Square>)
        ensures
            r == self.shift(color.forward(), -color.forward()),
    {
        let d = color.get_pawn_direction();
        self.offset(d, -d)
    }

    /// Diagonally forward, to the left as seen by side `color`.
    pub fn get_square_forward_left(&self, color: Color) -> (r: Option<Square>)
        ensures
            r == self.shift(color.forward(), color.forward()),
    {
        let d = color.get_pawn_direction();
        self.offset(d, d)
    }

    /// Diagonally backward, to the right as seen by side `color`.
    pub fn get_square_backward_right(&self, color: Color) -> (r: Option<Square>)
        ensures
            r == self.shift(-color.forward(), -color.forward()),
    {
        let d = color.get_pawn_direction();
        self.offset(-d, -d)
    }

    /// Diagonally backward, to the left as seen by side `color`.
    pub fn get_square_backward_left(&self, color: Color) -> (r: Option<Square>)
        ensures
            r == self.shift(-color.forward(), color.forward()),
    {
        let d = color.get_pawn_direction();
        self.offset(-d, d)
    }

    /// Two squares towards side `color`'s last rank.
    pub fn get_square_double_forward(&self, color: Color) -> (r: Option<Square>)
        ensures
            r == self.shift(2 * color.forward(), 0),
    {
        let d = color.get_pawn_direction();
        self.offset(2 * d, 0)
    }

    pub fn is_starting_pawn_square(&self, color: Color) -> (r: bool)
        ensures
            r == (self.rank == color.pawn_rank()),
    {
        self.get_rank() == color.get_starting_pawn_rank()
    }

    pub fn is_uppermost_rank_square(&self) -> (r: bool)
        ensures
            r == (self.rank == 0),
    {
        self.rank == 0
    }

    pub fn is_lowermost_rank_square(&self) -> (r: bool)
        ensures
            r == (self.rank == 7),
    {
        self.rank == 7
    }

    pub fn is_leftmost_file_square(&self) -> (r: bool)
        ensures
            r == (self.file == 0),
    {
        self.file == 0
    }

    pub fn is_before_leftmost_file_square(&self) -> (r: bool)
        ensures
            r == (self.file == 1),
    {
        self.file == 1
    }

    pub fn is_rightmost_file_square(&self) -> (r: bool)
        ensures
            r == (self.file == 7),
    {
        self.file == 7
    }

    pub fn is_before_rightmost_file_square(&self) -> (r: bool)
        ensures
            r == (self.file == 6),
    {
        self.file == 6
    }

    /// On the leftmost file as seen by side `color`.
    pub fn is_leftmost_file_square_relative(&self, color: Color) -> (r: bool)
        ensures
            r == (if color == Color::White {
                self.file == 0
            } else {
                self.file == 7
            }),
    {
        if color.is_white() {
            self.is_leftmost_file_square()
        } else {
            self.is_rightmost_file_square()
        }
    }

    /// On the rightmost file as seen by side `color`.
    pub fn is_rightmost_file_square_relative(&self, color: Color) -> (r: bool)
        ensures
            r == (if color == Color::White {
                self.file == 7
            } else {
                self.file == 0
            }),
    {
        if color.is_white() {
            self.is_rightmost_file_square()
        } else {
            self.is_leftmost_file_square()
        }
    }

    /// This square is where a pawn of side `color` lands when it advances two
    /// squares from `from`.
    pub fn is_double_forward(&self, color: Color, from: Square) -> (r: bool)
        ensures
            r == (from.rank == color.pawn_rank() && from.shift(2 * color.forward(), 0) == Some(
                *self,
            )),
    {
        if color.get_starting_pawn_rank() == from.get_rank() {
            match from.get_square_double_forward(color) {
                Some(s) => s == *self,
                None => false,
            }
        } else {
            false
        }
    }

    /// The squares of a ray, walked one step at a time.
    fn ray_squares(&self, dr: i8, df: i8) -> (r: Vec<Square>)
        requires
            self.valid(),
            is_direction(dr as int, df as int),
        ensures
            r@ == self.ray(dr as int, df as int),
    {
        let ghost full = self.ray(dr as int, df as int);
        let mut squares: Vec<Square> = Vec::new();
        let mut current = *self;
        loop
            invariant
                self.valid(),
                is_direction(dr as int, df as int),
                full == self.ray(dr as int, df as int),
                squares@.len() <= full.len(),
                squares@ == full.take(squares@.len() as int),
                current.rank == along(self.rank as int, dr as int, squares@.len() as int),
                current.file == along(self.file as int, df as int, squares@.len() as int),
            decreases full.len() - squares@.len(),
        {
            match current.offset(dr, df) {
                Some(next) => {
                    let ghost k = squares@.len() as int;
                    squares.push(next);
                    assert(squares@ =~= full.take(k + 1));
                    current = next;
                },
                None => {
                    assert(squares@ =~= full);
                    return squares;
                },
            }
        }
    }

    /// The squares below this one (towards rank 7), nearest first.
    pub fn get_lower_squares(&self) -> (r: Vec<Square>)
        requires
            self.valid(),
        ensures
            r@ == self.ray(1, 0),
    {
        self.ray_squares(1, 0)
    }

    /// The squares above this one (towards rank 0), nearest first.
    pub fn get_upper_squares(&self) -> (r: Vec<Square>)
        requires
            self.valid(),
        ensures
            r@ == self.ray(-1, 0),
    {
        self.ray_squares(-1, 0)
    }

    /// The squares to the right (towards file 7), nearest first.
    pub fn get_right_squares(&self) -> (r: Vec<Square>)
        requires
            self.valid(),
        ensures
            r@ == self.ray(0, 1),
    {
        self.ray_squares(0, 1)
    }

    /// The squares to the left (towards file 0), nearest first.
    pub fn get_left_squares(&self) -> (r: Vec<Square>)
        requires
            self.valid(),
        ensures
            r@ == self.ray(0, -1),
    {
        self.ray_squares(0, -1)
    }

    pub fn get_upper_right_squares(&self) -> (r: Vec<Square>)
        requires
            self.valid(),
        ensures
            r@ == self.ray(-1, 1),
    {
        self.ray_squares(-1, 1)
    }

    pub fn get_lower_right_squares(&self) -> (r: Vec<Square>)
        requires
            self.valid(),
        ensures
            r@ == self.ray(1, 1),
    {
        self.ray_squares(1, 1)
    }

    pub fn get_upper_left_squares(&self) -> (r: Vec<Square>)
        requires
            self.valid(),
        ensures
            r@ == self.ray(-1, -1),
    {
        self.ray_squares(-1, -1)
    }

    pub fn get_lower_left_squares(&self) -> (r: Vec<Square>)
        requires
            self.valid(),
        ensures
            r@ == self.ray(1, -1),
    {
        self.ray_squares(1, -1)
    }

    /// Knight jumps two ranks up.
    pub fn get_knight_upper_jumps(&self) -> (r: Vec<Square>)
        ensures
            forall|t: Square| #[trigger]
                r@.contains(t) <==> (t.valid() && t.rank - self.rank == -2 && is_unit(
                    t.file - self.file,
                )),
    {
        let mut squares: Vec<Square> = Vec::new();
        push_opt(&mut squares, self.offset(-2, -1));
        push_opt(&mut squares, self.offset(-2, 1));
        squares
    }

    /// Knight jumps two ranks down.
    pub fn get_knight_lower_jumps(&self) -> (r: Vec<Square>)
        ensures
            forall|t: Square| #[trigger]
                r@.contains(t) <==> (t.valid() && t.rank - self.rank == 2 && is_unit(
                    t.file - self.file,
                )),
    {
        let mut squares: Vec<Square> = Vec::new();
        push_opt(&mut squares, self.offset(2, -1));
        push_opt(&mut squares, self.offset(2, 1));
        squares
    }

    /// Knight jumps two files right.
    pub fn get_knight_right_jumps(&self) -> (r: Vec<Square>)
        ensures
            forall|t: Square| #[trigger]
                r@.contains(t) <==> (t.valid() && t.file - self.file == 2 && is_unit(
                    t.rank - self.rank,
                )),
    {
        let mut squares: Vec<Square> = Vec::new();
        push_opt(&mut squares, self.offset(-1, 2));
        push_opt(&mut squares, self.offset(1, 2));
        squares
    }

    /// Knight jumps two files left.
    pub fn get_knight_left_jumps(&self) -> (r: Vec<Square>)
        ensures
            forall|t: Square| #[trigger]
                r@.contains(t) <==> (t.valid() && t.file - self.file == -2 && is_unit(
                    t.rank - self.rank,
                )),
    {
        let mut squares: Vec<Square> = Vec::new();
        push_opt(&mut squares, self.offset(-1, -2));
        push_opt(&mut squares, self.offset(1, -2));
        squares
    }

    /// Every square a knight on this square can jump to, each once.
    pub fn get_knight_jumps(&self) -> (r: Vec<Square>)
        ensures
            forall|t: Square| #[trigger] r@.contains(t) <==> self.knight_jump(t),
            r@.no_duplicates(),
    {
        let mut squares: Vec<Square> = Vec::new();
        let upper = self.get_knight_upper_jumps();
        let lower = self.get_knight_lower_jumps();
        let right = self.get_knight_right_jumps();
        let left = self.get_knight_left_jumps();
        add_new_squares(&mut squares, &upper);
        add_new_squares(&mut squares, &lower);
        add_new_squares(&mut squares, &right);
        add_new_squares(&mut squares, &left);
        squares
    }

    /// The adjacent squares one rank up.
    pub fn get_upper_adjacent_squares(&self) -> (r: Vec<Square>)
        ensures
            forall|t: Square| #[trigger]
                r@.contains(t) <==> (self.adjacent(t) && t.rank - self.rank == -1),
    {
        let mut squares: Vec<Square> = Vec::new();
        push_opt(&mut squares, self.offset(-1, 0));
        push_opt(&mut squares, self.offset(-1, 1));
        push_opt(&mut squares, self.offset(-1, -1));
        squares
    }

    /// The adjacent squares one rank down.
    pub fn get_lower_adjacent_squares(&self) -> (r: Vec<Square>)
        ensures
            forall|t: Square| #[trigger]
                r@.contains(t) <==> (self.adjacent(t) && t.rank - self.rank == 1),
    {
        let mut squares: Vec<Square> = Vec::new();
        push_opt(&mut squares, self.offset(1, 0));
        push_opt(&mut squares, self.offset(1, 1));
        push_opt(&mut squares, self.offset(1, -1));
        squares
    }

    /// The adjacent squares one file right.
    pub fn get_right_adjacent_squares(&self) -> (r: Vec<Square>)
        ensures
            forall|t: Square| #[trigger]
                r@.contains(t) <==> (self.adjacent(t) && t.file - self.file == 1),
    {
        let mut squares: Vec<Square> = Vec::new();
        push_opt(&mut squares, self.offset(0, 1));
        push_opt(&mut squares, self.offset(-1, 1));
        push_opt(&mut squares, self.offset(1, 1));
        squares
    }

    /// The adjacent squares one file left.
    pub fn get_left_adjacent_squares(&self) -> (r: Vec<Square>)
        ensures
            forall|t: Square| #[trigger]
                r@.contains(t) <==> (self.adjacent(t) && t.file - self.file == -1),
    {
        let mut squares: Vec<Square> = Vec::new();
        push_opt(&mut squares, self.offset(0, -1));
        push_opt(&mut squares, self.offset(-1, -1));
        push_opt(&mut squares, self.offset(1, -1));
        squares
    }

    /// Every adjacent square, each once.
    pub fn get_adjacent_squares(&self) -> (r: Vec<Square>)
        ensures
            forall|t: Square| #[trigger] r@.contains(t) <==> self.adjacent(t),
            r@.no_duplicates(),
    {
        let mut squares: Vec<Square> = Vec::new();
        let upper = self.get_upper_adjacent_squares();
        let lower = self.get_lower_adjacent_squares();
        let right = self.get_right_adjacent_squares();
        let left = self.get_left_adjacent_squares();
        add_new_squares(&mut squares, &upper);
        add_new_squares(&mut squares, &lower);
        add_new_squares(&mut squares, &right);
        add_new_squares(&mut squares, &left);
        squares
    }

    /// The squares from which a pawn of side `color` on this square captures.
    pub fn get_pawn_attack_squares(&self, color: Color) -> (r: Vec<Square>)
        ensures
            forall|t: Square| #[trigger] r@.contains(t) <==> self.pawn_attack(color, t),
            r@.no_duplicates(),
    {
        let mut squares: Vec<Square> = Vec::new();
        if !self.is_leftmost_file_square_relative(color) {
            push_opt(&mut squares, self.get_square_forward_left(color));
        }
        let ghost left = squares@;
        assert(left.len() <= 1);
        if !self.is_rightmost_file_square_relative(color) {
            push_opt(&mut squares, self.get_square_forward_right(color));
        }
        assert(squares@.len() == 2 ==> squares@[0].file != squares@[1].file);
        squares
    }

    /// This is the square side `color`'s king starts on.
    pub fn is_king_square(&self, color: Color) -> (r: bool)
        ensures
            r == (*self == Square::king_home(color)),
    {
        if color.is_white() {
            *self == Square { rank: 7, file: 4 }
        } else {
            *self == Square { rank: 0, file: 4 }
        }
    }

    /// This is where side `color`'s king lands when it castles kingside.
    pub fn is_kingside_castle_square(&self, color: Color) -> (r: bool)
        ensures
            r == (*self == Square::kingside_target(color)),
    {
        if color.is_white() {
            *self == Square { rank: 7, file: 6 }
        } else {
            *self == Square { rank: 0, file: 6 }
        }
    }

    /// This is where side `color`'s king lands when it castles queenside.
    pub fn is_queenside_castle_square(&self, color: Color) -> (r: bool)
        ensures
            r == (*self == Square::queenside_target(color)),
    {
        if color.is_white() {
            *self == Square { rank: 7, file: 2 }
        } else {
            *self == Square { rank: 0, file: 2 }
        }
    }

    pub fn get_kingside_castle_squares(color: Color) -> (r: Vec<Square>)
        ensures
            r@ == Square::kingside_transit(color),
    {
        let v = if color.is_white() {
            vec![Square { rank: 7, file: 5 }, Square { rank: 7, file: 6 }]
        } else {
            vec![Square { rank: 0, file: 5 }, Square { rank: 0, file: 6 }]
        };
        assert(v@ =~= Square::kingside_transit(color));
        v
    }

    pub fn get_queenside_castle_squares(color: Color) -> (r: Vec<Square>)
        ensures
            r@ == Square::queenside_transit(color),
    {
        let v = if color.is_white() {
            vec![
                Square { rank: 7, file: 1 },
                Square { rank: 7, file: 2 },
                Square { rank: 7, file: 3 },
            ]
        } else {
            vec![
                Square { rank: 0, file: 1 },
                Square { rank: 0, file: 2 },
                Square { rank: 0, file: 3 },
            ]
        };
        assert(v@ =~= Square::queenside_transit(color));
        v
    }

    pub fn get_queenside_castle_king_square(color: Color) -> (r: Square)
        ensures
            r == Square::queenside_target(color),
    {
        if color.is_white() {
            Square { rank: 7, file: 2 }
        } else {
            Square { rank: 0, file: 2 }
        }
    }

    pub fn get_kingside_castle_king_square(color: Color) -> (r: Square)
        ensures
            r == Square::kingside_target(color),
    {
        if color.is_white() {
            Square { rank: 7, file: 6 }
        } else {
            Square { rank: 0, file: 6 }
        }
    }

    /// This square is on the rank where side `color`'s pawns are promoted.
    pub fn is_last_rank(&self, color: Color) -> (r: bool)
        ensures
            r == (self.rank == color.last_rank()),
    {
        if color.is_white() {
            self.is_uppermost_rank_square()
        } else {
            self.is_lowermost_rank_square()
        }
    }
}

} // verus!
