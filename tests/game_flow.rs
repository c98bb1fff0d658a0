use sol_chess::board::Board;
use sol_chess::color::Color;
use sol_chess::contexts::{
    ClockworkCheckTimer, Deposit, InitializeGame, InitializeUser, JoinGame, LeaveGame, MovePiece,
    OfferDraw, Outcome, Resign, Withdraw,
};
use sol_chess::draw_state::DrawState;
use sol_chess::error::CustomError;
use sol_chess::game::Game;
use sol_chess::game_config::GameConfig;
use sol_chess::game_state::GameState;
use sol_chess::key::AccountKey;
use sol_chess::piece::Piece;
use sol_chess::square::Square;
use sol_chess::user::User;

const WHITE: AccountKey = AccountKey { bytes: [1; 32] };
const BLACK: AccountKey = AccountKey { bytes: [2; 32] };
const OTHER: AccountKey = AccountKey { bytes: [3; 32] };

fn sq(rank: u8, file: u8) -> Square {
    Square { rank, file }
}

fn config(wager: Option<u64>) -> GameConfig {
    GameConfig { timer: 600, increment: 5, is_rated: true, wager }
}

fn fresh_user() -> User {
    User { current_game: None, elo: 800, games: 0, balance: 0 }
}

fn started_game() -> Game {
    let mut game = Game::create_game(config(None), 0, WHITE, 0, 255);
    game.join_game(WHITE, Color::White);
    game.join_game(BLACK, Color::Black);
    game.start_game();
    game
}

fn play(game: Game, from: Square, to: Square, now: i64) -> (Game, Result<Option<Outcome>, CustomError>) {
    let (user, adversary) = if game.game_state == GameState::White { (WHITE, BLACK) } else { (BLACK, WHITE) };
    let mut ctx = MovePiece { user, adversary_user: adversary, game, now };
    let r = ctx.process(from, to);
    (ctx.game, r)
}

fn play_ok(game: Game, from: Square, to: Square, now: i64) -> Game {
    let (game, r) = play(game, from, to, now);
    assert!(r.is_ok(), "move {:?} -> {:?} refused: {:?}", from, to, r);
    game
}

#[test]
fn fools_mate_ends_with_black_winning() {
    let mut game = started_game();
    game = play_ok(game, sq(6, 5), sq(5, 5), 1); // f3
    game = play_ok(game, sq(1, 4), sq(3, 4), 2); // e5
    game = play_ok(game, sq(6, 6), sq(4, 6), 3); // g4
    let (mut game, r) = play(game, sq(0, 3), sq(4, 7), 4); // Qh4#
    assert_eq!(
        r,
        Ok(Some(Outcome { winner: Some(Color::Black), is_draw: false, wager_present: false, is_rated: true }))
    );
    assert_eq!(game.game_state, GameState::BlackWon);
    assert!(game.in_check(Color::White));
    assert!(game.in_checkmate(Color::White));
    // a finished game takes no more moves
    let (_, r) = play(game, sq(6, 0), sq(5, 0), 5);
    assert_eq!(r, Err(CustomError::InvalidGameState));
}

#[test]
fn en_passant_right_after_double_step() {
    let mut game = started_game();
    game = play_ok(game, sq(6, 4), sq(4, 4), 1); // e4
    game = play_ok(game, sq(1, 0), sq(2, 0), 2); // a6
    game = play_ok(game, sq(4, 4), sq(3, 4), 3); // e5
    game = play_ok(game, sq(1, 3), sq(3, 3), 4); // d5
    assert_eq!(game.enpassant, Some(sq(2, 3)));
    assert!(game.is_valid_move(Color::White, sq(3, 4), sq(2, 3)));
    game = play_ok(game, sq(3, 4), sq(2, 3), 5); // exd6 e.p.
    assert_eq!(game.board.get_piece(sq(2, 3)), Piece::WhitePawn);
    assert_eq!(game.board.get_piece(sq(3, 3)), Piece::Empty);
    assert_eq!(game.board.get_piece(sq(3, 4)), Piece::Empty);
    assert_eq!(game.enpassant, None);
}

#[test]
fn en_passant_refused_one_ply_late() {
    let mut game = started_game();
    game = play_ok(game, sq(6, 4), sq(4, 4), 1); // e4
    game = play_ok(game, sq(1, 0), sq(2, 0), 2); // a6
    game = play_ok(game, sq(4, 4), sq(3, 4), 3); // e5
    game = play_ok(game, sq(1, 3), sq(3, 3), 4); // d5
    game = play_ok(game, sq(6, 7), sq(5, 7), 5); // h3
    game = play_ok(game, sq(2, 0), sq(3, 0), 6); // a5
    assert_eq!(game.enpassant, None);
    let before = game;
    let (after, r) = play(game, sq(3, 4), sq(2, 3), 7);
    assert_eq!(r, Err(CustomError::InvalidMove));
    assert_eq!(after.board.board, before.board.board);
}

fn castling_position() -> Game {
    let mut game = started_game();
    game = play_ok(game, sq(6, 4), sq(4, 4), 1); // e4
    game = play_ok(game, sq(1, 0), sq(2, 0), 2); // a6
    game = play_ok(game, sq(7, 5), sq(4, 2), 3); // Bc4
    game = play_ok(game, sq(2, 0), sq(3, 0), 4); // a5
    game = play_ok(game, sq(7, 6), sq(5, 5), 5); // Nf3
    game = play_ok(game, sq(3, 0), sq(4, 0), 6); // a4
    game
}

#[test]
fn kingside_castle_moves_the_rook() {
    let game = castling_position();
    assert!(game.is_valid_move(Color::White, sq(7, 4), sq(7, 6)));
    let game = play_ok(game, sq(7, 4), sq(7, 6), 7);
    assert_eq!(game.board.get_piece(sq(7, 6)), Piece::WhiteKing);
    assert_eq!(game.board.get_piece(sq(7, 5)), Piece::WhiteRook);
    assert_eq!(game.board.get_piece(sq(7, 7)), Piece::Empty);
    assert_eq!(game.board.get_piece(sq(7, 4)), Piece::Empty);
    assert!(!game.castling_right.white_kingside);
    assert!(!game.castling_right.white_queenside);
    assert!(game.castling_right.black_kingside);
}

#[test]
fn castle_refused_after_rook_moved() {
    let mut game = castling_position();
    game = play_ok(game, sq(7, 7), sq(7, 6), 7); // Rg1
    game = play_ok(game, sq(1, 7), sq(2, 7), 8); // h6
    game = play_ok(game, sq(7, 6), sq(7, 7), 9); // Rh1
    game = play_ok(game, sq(2, 7), sq(3, 7), 10); // h5
    assert!(!game.castling_right.white_kingside);
    let (_, r) = play(game, sq(7, 4), sq(7, 6), 11);
    assert_eq!(r, Err(CustomError::InvalidMove));
}

#[test]
fn castle_refused_through_attacked_square() {
    let mut game = castling_position();
    // a black bishop on d4 sees g1 once the f2 pawn is gone
    game.board.set_piece(Piece::Empty, sq(6, 5));
    game.board.set_piece(Piece::BlackBishop, sq(4, 3));
    assert!(game.board.is_square_attacked(sq(7, 6), Color::White));
    assert!(!game.in_check(Color::White));
    assert!(!game.board.can_kingside_castle(Color::White));
    assert!(!game.is_valid_move(Color::White, sq(7, 4), sq(7, 6)));
}

#[test]
fn castle_refused_when_transit_occupied() {
    let game = started_game();
    assert!(!game.board.can_kingside_castle(Color::White));
    assert!(!game.is_valid_move(Color::White, sq(7, 4), sq(7, 6)));
}

#[test]
fn castle_refused_out_of_check() {
    let mut game = castling_position();
    game.board.set_piece(Piece::Empty, sq(6, 4));
    game.board.set_piece(Piece::Empty, sq(4, 4));
    game.board.set_piece(Piece::BlackRook, sq(3, 4));
    assert!(game.in_check(Color::White));
    assert!(game.board.can_kingside_castle(Color::White));
    assert!(!game.is_valid_move(Color::White, sq(7, 4), sq(7, 6)));
}

#[test]
fn time_forfeit_gives_the_win_to_the_side_not_to_move() {
    let game = started_game();
    let game = play_ok(game, sq(6, 4), sq(4, 4), 1000); // clocks start
    assert_eq!(game.time_control.last_move, 1000);
    let mut early = ClockworkCheckTimer { user: BLACK, adversary_user: WHITE, game, now: 1100 };
    assert_eq!(early.process(), Err(CustomError::StillHasTime));
    let mut late = ClockworkCheckTimer { user: BLACK, adversary_user: WHITE, game, now: 1601 };
    assert_eq!(
        late.process(),
        Ok(Some(Outcome { winner: Some(Color::White), is_draw: false, wager_present: false, is_rated: true }))
    );
    assert_eq!(late.game.game_state, GameState::WhiteWon);
}

#[test]
fn moving_after_time_ran_out_is_refused() {
    let game = started_game();
    let game = play_ok(game, sq(6, 4), sq(4, 4), 1000);
    let (_, r) = play(game, sq(1, 4), sq(3, 4), 1600);
    assert_eq!(r, Err(CustomError::TimeHasRunOut));
}

#[test]
fn clocks_are_charged_with_increment() {
    let game = started_game();
    let game = play_ok(game, sq(6, 4), sq(4, 4), 1000);
    assert_eq!(game.time_control.white_timer, 600);
    let game = play_ok(game, sq(1, 4), sq(3, 4), 1030);
    assert_eq!(game.time_control.black_timer, 575);
    assert_eq!(game.time_control.white_timer, 600);
    assert_eq!(game.time_control.last_move, 1030);
}

#[test]
fn move_out_of_turn_or_by_stranger_is_refused() {
    let game = started_game();
    let mut ctx = MovePiece { user: BLACK, adversary_user: WHITE, game, now: 1 };
    assert_eq!(ctx.process(sq(1, 4), sq(3, 4)), Err(CustomError::NotUsersTurn));
    let mut ctx = MovePiece { user: WHITE, adversary_user: OTHER, game, now: 1 };
    assert_eq!(ctx.process(sq(6, 4), sq(4, 4)), Err(CustomError::InvalidAdversaryUserAccount));
}

#[test]
fn move_before_start_is_refused() {
    let game = Game::create_game(config(None), 0, WHITE, 0, 255);
    let mut ctx = MovePiece { user: WHITE, adversary_user: BLACK, game, now: 1 };
    assert_eq!(ctx.process(sq(6, 4), sq(4, 4)), Err(CustomError::InvalidGameState));
}

#[test]
fn move_leaving_king_attacked_is_refused() {
    let mut pinned = started_game();
    pinned.board.set_piece(Piece::WhiteBishop, sq(6, 4)); // a bishop on e2
    pinned.board.set_piece(Piece::BlackRook, sq(3, 4)); // a black rook on e5
    let (after, r) = play(pinned, sq(6, 4), sq(5, 3), 7); // Bd3 exposes e1
    assert_eq!(r, Err(CustomError::KingInCheck));
    assert_eq!(after.board.board, pinned.board.board);
    assert_eq!(after.game_state, GameState::White);
}

#[test]
fn illegal_piece_move_is_refused() {
    let game = started_game();
    let (_, r) = play(game, sq(7, 0), sq(5, 0), 1); // rook through its own pawn
    assert_eq!(r, Err(CustomError::InvalidMove));
    let (_, r) = play(game, sq(6, 4), sq(3, 4), 1); // pawn three squares
    assert_eq!(r, Err(CustomError::InvalidMove));
    let (_, r) = play(game, sq(4, 4), sq(3, 4), 1); // empty square
    assert_eq!(r, Err(CustomError::InvalidMove));
    let (_, r) = play(game, sq(6, 4), sq(9, 4), 1); // off the board
    assert_eq!(r, Err(CustomError::InvalidMove));
}

#[test]
fn pawn_on_last_rank_becomes_queen() {
    let mut game = started_game();
    for file in 0..8u8 {
        game.board.set_piece(Piece::Empty, sq(1, file));
        game.board.set_piece(Piece::Empty, sq(6, file));
    }
    game.board.set_piece(Piece::Empty, sq(0, 1));
    game.board.set_piece(Piece::WhitePawn, sq(1, 1));
    let game = play_ok(game, sq(1, 1), sq(0, 1), 1);
    assert_eq!(game.board.get_piece(sq(0, 1)), Piece::WhiteQueen);
    assert_eq!(game.board.get_piece(sq(1, 1)), Piece::Empty);
    for file in 0..8u8 {
        assert!(!game.board.get_piece(sq(0, file)).is_pawn());
        assert!(!game.board.get_piece(sq(7, file)).is_pawn());
    }
}

#[test]
fn resign_gives_the_opponent_the_win() {
    let game = started_game();
    let mut ctx = Resign { user: WHITE, adversary_user: BLACK, game };
    assert_eq!(
        ctx.process(),
        Ok(Some(Outcome { winner: Some(Color::Black), is_draw: false, wager_present: false, is_rated: true }))
    );
    assert_eq!(ctx.game.game_state, GameState::BlackWon);
    let mut again = Resign { user: BLACK, adversary_user: WHITE, game: ctx.game };
    assert_eq!(again.process(), Err(CustomError::InvalidGameState));
    let mut stranger = Resign { user: OTHER, adversary_user: WHITE, game };
    assert_eq!(stranger.process(), Err(CustomError::NotInGame));
}

#[test]
fn draw_needs_both_offers_and_lapses_after_a_move() {
    let game = started_game();
    let mut offer = OfferDraw { user: WHITE, adversary_user: BLACK, game };
    assert_eq!(offer.process(), Ok(None));
    assert_eq!(offer.game.draw_state, DrawState::White);
    let mut twice = OfferDraw { user: WHITE, adversary_user: BLACK, game: offer.game };
    assert_eq!(twice.process(), Err(CustomError::AlreadyOfferedDraw));
    let moved = play_ok(offer.game, sq(6, 4), sq(4, 4), 1);
    assert_eq!(moved.draw_state, DrawState::Neither);
    let mut accept = OfferDraw { user: BLACK, adversary_user: WHITE, game: offer.game };
    assert_eq!(
        accept.process(),
        Ok(Some(Outcome { winner: None, is_draw: true, wager_present: false, is_rated: true }))
    );
    assert_eq!(accept.game.game_state, GameState::Draw);
}

#[test]
fn joining_fills_seats_and_starts_the_game() {
    let game = Game::create_game(config(Some(100)), 0, WHITE, 0, 255);
    let mut rich = fresh_user();
    rich.balance = 150;
    let mut join = JoinGame { user_key: WHITE, user: rich, game_key: OTHER, game };
    assert_eq!(join.process(Color::White), Ok(()));
    assert_eq!(join.user.balance, 50);
    assert_eq!(join.user.current_game, Some(OTHER));
    assert_eq!(join.game.game_state, GameState::Waiting);
    let mut taken = JoinGame { user_key: BLACK, user: rich, game_key: OTHER, game: join.game };
    assert_eq!(taken.process(Color::White), Err(CustomError::ColorNotAvailable));
    let mut poor = JoinGame { user_key: BLACK, user: fresh_user(), game_key: OTHER, game: join.game };
    assert_eq!(poor.process(Color::Black), Err(CustomError::InsufficientBalance));
    let mut second = JoinGame { user_key: BLACK, user: rich, game_key: OTHER, game: join.game };
    assert_eq!(second.process(Color::Black), Ok(()));
    assert_eq!(second.game.game_state, GameState::White);
}

#[test]
fn leaving_returns_the_wager_before_start_only() {
    let mut game = Game::create_game(config(Some(100)), 0, WHITE, 0, 255);
    game.join_game(WHITE, Color::White);
    let mut leave = LeaveGame { user_key: WHITE, user: fresh_user(), game };
    assert_eq!(leave.process(), Ok(()));
    assert_eq!(leave.game.white, None);
    assert_eq!(leave.user.balance, 100);
    let mut stranger = LeaveGame { user_key: OTHER, user: fresh_user(), game };
    assert_eq!(stranger.process(), Err(CustomError::NotInGame));
    let mut late = LeaveGame { user_key: WHITE, user: fresh_user(), game: started_game() };
    assert_eq!(late.process(), Err(CustomError::GameAlreadyStarted));
}

#[test]
fn balances_move_with_deposit_and_withdraw() {
    let mut deposit = Deposit { user: fresh_user() };
    assert_eq!(deposit.process(70), Ok(()));
    assert_eq!(deposit.user.balance, 70);
    let mut withdraw = Withdraw { user: deposit.user };
    assert_eq!(withdraw.process(80), Err(CustomError::InsufficientBalance));
    assert_eq!(withdraw.process(30), Ok(()));
    assert_eq!(withdraw.user.balance, 40);
}

#[test]
fn setting_up_accounts() {
    let mut init_user = InitializeUser { user: User { current_game: Some(OTHER), elo: 1, games: 9, balance: 9 } };
    assert_eq!(init_user.process(), Ok(()));
    assert_eq!(init_user.user.elo, 800);
    assert_eq!(init_user.user.games, 0);
    let mut init_game = InitializeGame { user_key: WHITE, user: init_user.user, game: started_game(), now: 42 };
    assert_eq!(init_game.process(config(None), 7), Ok(()));
    assert_eq!(init_game.game.game_state, GameState::Waiting);
    assert_eq!(init_game.game.created_at, 42);
    assert_eq!(init_game.game.bump, 7);
    assert_eq!(init_game.game.white, None);
    assert_eq!(init_game.user.games, 1);
    assert_eq!(init_game.game.board.board, Board::default().board);
}

#[test]
fn a_side_cannot_move_the_opponents_pieces() {
    let game = started_game();
    assert!(game.get_piece_valid_moves(Color::White, sq(0, 1)).is_empty());
    assert!(!game.is_valid_move(Color::White, sq(0, 1), sq(2, 0)));
    assert_eq!(game.get_piece_valid_moves(Color::Black, sq(0, 1)).len(), 2);
    let (after, r) = play(game, sq(0, 1), sq(2, 0), 1);
    assert_eq!(r, Err(CustomError::InvalidMove));
    assert_eq!(after.board.board, game.board.board);
}

#[test]
fn turn_queries_outside_play_give_nothing() {
    assert_eq!(GameState::Waiting.get_current_player_turn(), None);
    assert_eq!(GameState::Draw.next_turn(), None);
    assert_eq!(GameState::White.next_turn(), Some(GameState::Black));
    assert_eq!(GameState::Black.get_current_player_turn(), Some(Color::Black));
    assert_eq!(Piece::Empty.get_color(), None);
    assert_eq!(Piece::BlackKnight.get_color(), Some(Color::Black));
    assert!(!Piece::Empty.is_white() && !Piece::Empty.is_black());
}

#[test]
fn clock_charges_are_kept_in_range() {
    let mut tc = sol_chess::time_control::TimeControl::new(60, 5);
    tc.update_time_control(Color::White, 100);
    tc.update_time_control(Color::Black, 90); // before the last move: nothing charged
    assert_eq!(tc.black_timer, 65);
    tc.update_time_control(Color::White, 1000); // far past the clock
    assert_eq!(tc.white_timer, 0);
    let mut big = sol_chess::time_control::TimeControl::new(u32::MAX, 5);
    big.update_time_control(Color::White, 0);
    big.update_time_control(Color::White, 1);
    assert_eq!(big.white_timer, u32::MAX);
}
