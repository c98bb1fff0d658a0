use vstd::prelude::*;

use crate::board::has_king;
use crate::color::Color;
use crate::draw_state::DrawState;
use crate::error::CustomError;
use crate::game::{king_safe, Game, GameAccount};
use crate::game_config::GameConfig;
use crate::game_state::GameState;
use crate::key::AccountKey;
use crate::square::Square;
use crate::user::{User, UserAccount};

verus! {

/// What an action that ends a game hands on to whoever settles wagers and
/// ratings.
#[derive(Copy, Clone, Debug, PartialEq, Eq, Structural)]
pub struct Outcome {
    pub winner: Option<Color>,
    pub is_draw: bool,
    pub wager_present: bool,
    pub is_rated: bool,
}

/// `seat` holds the account `k`.
pub open spec fn seat_holds(seat: Option<AccountKey>, k: AccountKey) -> bool {
    seat is Some && seat->Some_0@ == k@
}

/// The side `player` plays, as the game reports it.
pub open spec fn side_of(game: Game, player: AccountKey) -> Color {
    if seat_holds(game.white, player) {
        Color::White
    } else {
        Color::Black
    }
}

/// The outcome of a game won by side `c`.
pub open spec fn win_for(game: Game, c: Color) -> Outcome {
    Outcome {
        winner: Some(c),
        is_draw: false,
        wager_present: game.game_config.wager is Some,
        is_rated: game.game_config.is_rated,
    }
}

/// The seat of side `color`.
fn seat(game: &Game, color: Color) -> (r: Option<AccountKey>)
    ensures
        r == game.seat(color),
{
    if color.is_white() {
        game.white
    } else {
        game.black
    }
}

/// The square is on the board.
fn on_board(square: Square) -> (r: bool)
    ensures
        r == square.valid(),
{
    square.rank < 8 && square.file < 8
}

/// The outcome of a game won by side `color`.
fn win(game: &Game, color: Color) -> (r: Outcome)
    ensures
        r == win_for(*game, color),
{
    Outcome {
        winner: Some(color),
        is_draw: false,
        wager_present: game.has_wager(),
        is_rated: game.is_rated(),
    }
}

/// Sets up a new user account.
pub struct InitializeUser {
    pub user: User,
}

impl InitializeUser {
    pub fn process(&mut self) -> (r: Result<(), CustomError>)
        ensures
            r is Ok,
            final(self).user.is_fresh(),
    {
        self.user.new()
    }
}

/// Creates a game owned by `user`, numbered by the games it created before.
pub struct InitializeGame {
    pub user_key: AccountKey,
    pub user: User,
    pub game: Game,
    pub now: i64,
}

impl InitializeGame {
    pub fn process(&mut self, game_config: GameConfig, game_bump: u8) -> (r: Result<(), CustomError>)
        requires
            old(self).user.games < u64::MAX,
        ensures
            r is Ok,
            final(self).game.is_new_game(
                game_config,
                old(self).now,
                old(self).user_key,
                old(self).user.games,
                game_bump,
            ),
            final(self).user == (User { games: (old(self).user.games + 1) as u64, ..old(self).user }),
    {
        let games = self.user.games;
        let result = self.game.new(game_config, self.now, self.user_key, games, game_bump);
        self.user.increment_games();
        result
    }
}

/// Takes a seat in a game, putting the wager, if any, in escrow.
pub struct JoinGame {
    pub user_key: AccountKey,
    pub user: User,
    pub game_key: AccountKey,
    pub game: Game,
}

impl JoinGame {
    /// Seats the user as side `color`; a waiting game starts once both seats
    /// are taken.
    pub fn process(&mut self, color: Color) -> (r: Result<(), CustomError>)
        ensures
            old(self).game.seat(color) is Some ==> r == Err::<(), CustomError>(
                CustomError::ColorNotAvailable,
            ),
            old(self).game.seat(color) is None && old(self).game.game_config.wager is Some
                && old(self).user.balance < old(self).game.game_config.wager->Some_0 ==> r == Err::<
                (),
                CustomError,
            >(CustomError::InsufficientBalance),
            r is Err ==> final(self).game == old(self).game && final(self).user == old(
                self,
            ).user,
            r is Ok ==> {
                let g = old(self).game;
                let seated = match color {
                    Color::White => Game { white: Some(old(self).user_key), ..g },
                    Color::Black => Game { black: Some(old(self).user_key), ..g },
                };
                &&& g.seat(color) is None
                &&& final(self).game == (if seated.white is Some && seated.black is Some
                    && g.game_state == GameState::Waiting {
                    Game { game_state: GameState::White, ..seated }
                } else {
                    seated
                })
                &&& final(self).user == (User {
                    current_game: Some(old(self).game_key),
                    balance: match g.game_config.wager {
                        Some(w) => (old(self).user.balance - w) as u64,
                        None => old(self).user.balance,
                    },
                    ..old(self).user
                })
            },
            (old(self).game.seat(color) is None && !(old(self).game.game_config.wager is Some
                && old(self).user.balance < old(self).game.game_config.wager->Some_0)) ==> r is Ok,
    {
        if !self.game.color_available(color) {
            return Err(CustomError::ColorNotAvailable);
        }
        if self.game.has_wager() {
            let wager = self.game.get_wager();
            if !self.user.has_sufficient(wager) {
                return Err(CustomError::InsufficientBalance);
            }
        }
        self.user.set_game(self.game_key);
        self.game.join_game(self.user_key, color);
        if self.game.is_full() && self.game.is_not_started() {
            self.game.start_game();
        }
        if self.game.has_wager() {
            let wager = self.game.get_wager();
            self.user.decrease_balance(wager);
        }
        Ok(())
    }
}

/// Gives up a seat before the game starts, taking the wager back.
pub struct LeaveGame {
    pub user_key: AccountKey,
    pub user: User,
    pub game: Game,
}

impl LeaveGame {
    pub fn process(&mut self) -> (r: Result<(), CustomError>)
        requires
            old(self).game.game_config.wager is Some ==> old(self).user.balance
                + old(self).game.game_config.wager->Some_0 <= u64::MAX,
        ensures
            old(self).game.game_state != GameState::Waiting ==> r == Err::<(), CustomError>(
                CustomError::GameAlreadyStarted,
            ),
            old(self).game.game_state == GameState::Waiting && !old(self).game.seated(
                old(self).user_key,
            ) ==> r == Err::<(), CustomError>(CustomError::NotInGame),
            r is Err ==> final(self).game == old(self).game && final(self).user == old(
                self,
            ).user,
            (old(self).game.game_state == GameState::Waiting && old(self).game.seated(
                old(self).user_key,
            )) ==> {
                let g = old(self).game;
                &&& r is Ok
                &&& final(self).game == (match side_of(g, old(self).user_key) {
                    Color::White => Game { white: None, ..g },
                    Color::Black => Game { black: None, ..g },
                })
                &&& final(self).user == (User {
                    balance: match g.game_config.wager {
                        Some(w) => (old(self).user.balance + w) as u64,
                        None => old(self).user.balance,
                    },
                    ..old(self).user
                })
            },
    {
        if !self.game.is_not_started() {
            return Err(CustomError::GameAlreadyStarted);
        }
        if !self.game.is_in_game(self.user_key) {
            return Err(CustomError::NotInGame);
        }
        let color = self.game.get_player_color(self.user_key);
        self.game.leave_game(color);
        if self.game.has_wager() {
            let wager = self.game.get_wager();
            self.user.increase_balance(wager);
        }
        Ok(())
    }
}

/// Moves funds into the user's balance (the transfer itself is made by the
/// caller).
pub struct Deposit {
    pub user: User,
}

impl Deposit {
    pub fn process(&mut self, amount: u64) -> (r: Result<(), CustomError>)
        requires
            old(self).user.balance + amount <= u64::MAX,
        ensures
            r is Ok,
            final(self).user == (User {
                balance: (old(self).user.balance + amount) as u64,
                ..old(self).user
            }),
    {
        self.user.increase_balance(amount);
        Ok(())
    }
}

/// Takes funds out of the user's balance (the transfer itself is made by the
/// caller).
pub struct Withdraw {
    pub user: User,
}

impl Withdraw {
    pub fn process(&mut self, amount: u64) -> (r: Result<(), CustomError>)
        ensures
            amount > old(self).user.balance ==> r == Err::<(), CustomError>(
                CustomError::InsufficientBalance,
            ) && final(self).user == old(self).user,
            amount <= old(self).user.balance ==> r is Ok && final(self).user == (User {
                balance: (old(self).user.balance - amount) as u64,
                ..old(self).user
            }),
    {
        if !self.user.has_sufficient(amount) {
            return Err(CustomError::InsufficientBalance);
        }
        self.user.decrease_balance(amount);
        Ok(())
    }
}

/// Plays a move for the side to move.
pub struct MovePiece {
    /// The mover's user account.
    pub user: AccountKey,
    /// The opponent's user account.
    pub adversary_user: AccountKey,
    pub game: Game,
    /// The time of the move.
    pub now: i64,
}

impl MovePiece {
    /// Why a move from `from` to `to` is refused, checked in this order, or
    /// `None` when it is accepted.
    pub open spec fn refusal(self, from: Square, to: Square) -> Option<CustomError> {
        let g = self.game;
        let c = g.game_state.mover();
        if !g.game_state.in_play() {
            Some(CustomError::InvalidGameState)
        } else if !g.time_control.time_left(c, self.now) {
            Some(CustomError::TimeHasRunOut)
        } else if !seat_holds(g.seat(c), self.user) {
            Some(CustomError::NotUsersTurn)
        } else if !seat_holds(g.seat(c.opposite()), self.adversary_user) {
            Some(CustomError::InvalidAdversaryUserAccount)
        } else if !(from.valid() && to.valid() && g.destination(c, from, to)) {
            Some(CustomError::InvalidMove)
        } else if !king_safe(g.board_after(c, from, to), c) {
            Some(CustomError::KingInCheck)
        } else {
            None
        }
    }

    /// Plays the move from `from` to `to`: the side to move must have time
    /// left, be the caller, name its opponent, make a move its piece can make,
    /// and not leave its own king attacked. The move is then played, the turn
    /// passes, a pending draw offer lapses, a checkmate ends the game, and the
    /// mover's clock is charged. A refused move changes nothing. A side left
    /// without a move while not in check is not declared drawn: only
    /// checkmate, resignation, time and agreement end a game.
    pub fn process(&mut self, from: Square, to: Square) -> (r: Result<Option<Outcome>, CustomError>)
        ensures
            match old(self).refusal(from, to) {
                Some(e) => r == Err::<Option<Outcome>, CustomError>(e) && *final(self) == *old(
                    self,
                ),
                None => {
                    let g = old(self).game;
                    let c = g.game_state.mover();
                    let n = final(self).game;
                    let mate = has_king(n.board@, c.opposite()) && n.checkmated(c.opposite());
                    &&& n.board@ == g.board_after(c, from, to)
                    &&& n.enpassant == g.enpassant_after(c, from, to)
                    &&& n.castling_right == g.castling_right.after_move(c, from, to)
                    &&& n.draw_state == DrawState::Neither
                    &&& n.time_control == g.time_control.charged(c, old(self).now)
                    &&& n.game_state == (if mate {
                        GameState::won_by(c)
                    } else {
                        GameState::turn_of(c.opposite())
                    })
                    &&& n == (Game {
                        board: n.board,
                        enpassant: n.enpassant,
                        castling_right: n.castling_right,
                        draw_state: n.draw_state,
                        time_control: n.time_control,
                        game_state: n.game_state,
                        ..g
                    })
                    &&& king_safe(n.board@, c)
                    &&& r == Ok::<Option<Outcome>, CustomError>(
                        if mate {
                            Some(win_for(g, c))
                        } else {
                            None
                        },
                    )
                    &&& final(self).user == old(self).user
                    &&& final(self).adversary_user == old(self).adversary_user
                    &&& final(self).now == old(self).now
                },
            },
    {
        let game = self.game;
        if !game.is_still_going() {
            return Err(CustomError::InvalidGameState);
        }
        let color = game.get_current_player_color();
        if !game.has_time(color, self.now) {
            return Err(CustomError::TimeHasRunOut);
        }
        if !self.user.held_by(&seat(&game, color)) {
            return Err(CustomError::NotUsersTurn);
        }
        let opponent = color.get_opposite();
        if !self.adversary_user.held_by(&seat(&game, opponent)) {
            return Err(CustomError::InvalidAdversaryUserAccount);
        }
        if !(on_board(from) && on_board(to)) || !game.is_valid_move(color, from, to) {
            return Err(CustomError::InvalidMove);
        }

        let mut next = game;
        next.move_piece(color, from, to);
        if !next.king_is_safe(color) {
            return Err(CustomError::KingInCheck);
        }
        next.next_turn();
        next.reset_draw_state();

        let ghost turned = next;
        let mut outcome: Option<Outcome> = None;
        if next.board.get_king(opponent).is_some() {
            if next.in_checkmate(opponent) {
                next.set_winner(color);
                outcome = Some(win(&next, color));
            }
        }
        next.update_time_control(color, self.now);
        proof {
            crate::game::lemma_checkmate_of_position(turned, next, opponent);
        }
        self.game = next;
        Ok(outcome)
    }
}

/// Gives the game up: the opponent wins.
pub struct Resign {
    pub user: AccountKey,
    pub adversary_user: AccountKey,
    pub game: Game,
}

impl Resign {
    /// Why a resignation is refused, checked in this order, or `None`.
    pub open spec fn refusal(self) -> Option<CustomError> {
        let g = self.game;
        let c = side_of(g, self.user);
        if !g.seated(self.user) {
            Some(CustomError::NotInGame)
        } else if !g.game_state.in_play() {
            Some(CustomError::InvalidGameState)
        } else if !seat_holds(g.seat(c.opposite()), self.adversary_user) {
            Some(CustomError::InvalidAdversaryUserAccount)
        } else {
            None
        }
    }

    pub fn process(&mut self) -> (r: Result<Option<Outcome>, CustomError>)
        ensures
            match old(self).refusal() {
                Some(e) => r == Err::<Option<Outcome>, CustomError>(e) && *final(self) == *old(
                    self,
                ),
                None => {
                    let g = old(self).game;
                    let winner = side_of(g, old(self).user).opposite();
                    &&& final(self).game == (Game { game_state: GameState::won_by(winner), ..g })
                    &&& r == Ok::<Option<Outcome>, CustomError>(Some(win_for(g, winner)))
                    &&& final(self).user == old(self).user
                    &&& final(self).adversary_user == old(self).adversary_user
                },
            },
    {
        let color = self.game.get_player_color(self.user);
        if !self.game.is_in_game(self.user) {
            return Err(CustomError::NotInGame);
        }
        if !self.game.is_still_going() {
            return Err(CustomError::InvalidGameState);
        }
        let opponent = color.get_opposite();
        if !self.adversary_user.held_by(&seat(&self.game, opponent)) {
            return Err(CustomError::InvalidAdversaryUserAccount);
        }
        self.game.set_winner(opponent);
        Ok(Some(win(&self.game, opponent)))
    }
}

/// Offers a draw, or accepts the opponent's offer.
pub struct OfferDraw {
    pub user: AccountKey,
    pub adversary_user: AccountKey,
    pub game: Game,
}

impl OfferDraw {
    /// Why an offer is refused, checked in this order, or `None`.
    pub open spec fn refusal(self) -> Option<CustomError> {
        let g = self.game;
        let c = side_of(g, self.user);
        if !g.seated(self.user) {
            Some(CustomError::NotInGame)
        } else if !g.game_state.in_play() {
            Some(CustomError::InvalidGameState)
        } else if !seat_holds(g.seat(c.opposite()), self.adversary_user) {
            Some(CustomError::InvalidAdversaryUserAccount)
        } else if g.draw_state == DrawState::offer_of(c) {
            Some(CustomError::AlreadyOfferedDraw)
        } else {
            None
        }
    }

    /// Records the offer; when the opponent had offered already, the game is
    /// drawn.
    pub fn process(&mut self) -> (r: Result<Option<Outcome>, CustomError>)
        ensures
            match old(self).refusal() {
                Some(e) => r == Err::<Option<Outcome>, CustomError>(e) && *final(self) == *old(
                    self,
                ),
                None => {
                    let g = old(self).game;
                    let d = g.draw_state.after_offer(side_of(g, old(self).user));
                    &&& final(self).game == (if d == DrawState::Draw {
                        Game { draw_state: d, game_state: GameState::Draw, ..g }
                    } else {
                        Game { draw_state: d, ..g }
                    })
                    &&& r == Ok::<Option<Outcome>, CustomError>(
                        if d == DrawState::Draw {
                            Some(
                                Outcome {
                                    winner: None,
                                    is_draw: true,
                                    wager_present: g.game_config.wager is Some,
                                    is_rated: g.game_config.is_rated,
                                },
                            )
                        } else {
                            None
                        },
                    )
                    &&& final(self).user == old(self).user
                    &&& final(self).adversary_user == old(self).adversary_user
                },
            },
    {
        let color = self.game.get_player_color(self.user);
        if !self.game.is_in_game(self.user) {
            return Err(CustomError::NotInGame);
        }
        if !self.game.is_still_going() {
            return Err(CustomError::InvalidGameState);
        }
        if !self.adversary_user.held_by(&seat(&self.game, color.get_opposite())) {
            return Err(CustomError::InvalidAdversaryUserAccount);
        }
        if !self.game.has_not_offered_draw(color) {
            return Err(CustomError::AlreadyOfferedDraw);
        }
        self.game.update_draw_state(color);
        if self.game.is_draw() {
            self.game.set_draw();
            return Ok(
                Some(
                    Outcome {
                        winner: None,
                        is_draw: true,
                        wager_present: self.game.has_wager(),
                        is_rated: self.game.is_rated(),
                    },
                ),
            );
        }
        Ok(None)
    }
}

/// Ends the game on time when the side to move has run out of it.
pub struct ClockworkCheckTimer {
    /// The user account of the side to move.
    pub user: AccountKey,
    /// The opponent's user account.
    pub adversary_user: AccountKey,
    pub game: Game,
    /// The time of the check.
    pub now: i64,
}

impl ClockworkCheckTimer {
    /// Why the check is refused, checked in this order, or `None` when the
    /// side to move has lost on time.
    pub open spec fn refusal(self) -> Option<CustomError> {
        let g = self.game;
        let c = g.game_state.mover();
        if !g.game_state.in_play() {
            Some(CustomError::InvalidGameState)
        } else if !seat_holds(g.seat(c.opposite()), self.adversary_user) {
            Some(CustomError::InvalidAdversaryUserAccount)
        } else if !seat_holds(g.seat(c), self.user) {
            Some(CustomError::NotUsersTurn)
        } else if g.time_control.time_left(c, self.now) {
            Some(CustomError::StillHasTime)
        } else {
            None
        }
    }

    pub fn process(&mut self) -> (r: Result<Option<Outcome>, CustomError>)
        ensures
            match old(self).refusal() {
                Some(e) => r == Err::<Option<Outcome>, CustomError>(e) && *final(self) == *old(
                    self,
                ),
                None => {
                    let g = old(self).game;
                    let winner = g.game_state.mover().opposite();
                    &&& final(self).game == (Game { game_state: GameState::won_by(winner), ..g })
                    &&& r == Ok::<Option<Outcome>, CustomError>(Some(win_for(g, winner)))
                    &&& final(self).user == old(self).user
                    &&& final(self).adversary_user == old(self).adversary_user
                    &&& final(self).now == old(self).now
                },
            },
    {
        if !self.game.is_still_going() {
            return Err(CustomError::InvalidGameState);
        }
        let color = self.game.get_current_player_color();
        let opponent = color.get_opposite();
        if !self.adversary_user.held_by(&seat(&self.game, opponent)) {
            return Err(CustomError::InvalidAdversaryUserAccount);
        }
        if !self.user.held_by(&seat(&self.game, color)) {
            return Err(CustomError::NotUsersTurn);
        }
        if !self.game.has_no_time(color, self.now) {
            return Err(CustomError::StillHasTime);
        }
        self.game.set_winner(opponent);
        Ok(Some(win(&self.game, opponent)))
    }
}

} // verus!
