use sol_chess::board::Board;
use sol_chess::castling_right::CastlingRight;
use sol_chess::color::Color;
use sol_chess::draw_state::DrawState;
use sol_chess::game::Game;
use sol_chess::game_config::GameConfig;
use sol_chess::key::{program_id, to_be_bytes, AccountKey};
use sol_chess::piece::Piece;
use sol_chess::square::Square;
use sol_chess::time_control::TimeControl;
use sol_chess::user::User;

fn sq(rank: u8, file: u8) -> Square {
    Square { rank, file }
}

fn sorted(mut v: Vec<Square>) -> Vec<(u8, u8)> {
    let mut out: Vec<(u8, u8)> = v.drain(..).map(|s| (s.rank, s.file)).collect();
    out.sort();
    out
}

fn empty_board() -> Board {
    Board { board: [[Piece::Empty; 8]; 8] }
}

#[test]
fn steps_off_the_board_give_no_square() {
    assert_eq!(sq(0, 3).get_square_up(), None);
    assert_eq!(sq(7, 3).get_square_down(), None);
    assert_eq!(sq(3, 0).get_square_left(), None);
    assert_eq!(sq(3, 7).get_square_right(), None);
    assert_eq!(sq(0, 7).get_square_up_right(), None);
    assert_eq!(sq(3, 3).get_square_up_right(), Some(sq(2, 4)));
    assert_eq!(sq(3, 3).get_square_forward(Color::White), Some(sq(2, 3)));
    assert_eq!(sq(3, 3).get_square_forward(Color::Black), Some(sq(4, 3)));
    assert_eq!(sq(6, 3).get_square_double_forward(Color::White), Some(sq(4, 3)));
    assert_eq!(sq(3, 3).get_square_forward_left(Color::White), Some(sq(2, 2)));
    assert_eq!(sq(3, 3).get_square_forward_left(Color::Black), Some(sq(4, 4)));
    assert_eq!(sq(0, 0).previous_rank(), None);
    assert_eq!(sq(2, 5).previous_file(), Some(4));
}

#[test]
fn rays_run_nearest_first() {
    assert_eq!(sq(3, 3).get_upper_squares(), vec![sq(2, 3), sq(1, 3), sq(0, 3)]);
    assert_eq!(sq(5, 2).get_lower_right_squares(), vec![sq(6, 3), sq(7, 4)]);
    assert_eq!(sq(0, 0).get_upper_left_squares(), vec![]);
    assert_eq!(sq(4, 4).get_left_squares().len(), 4);
}

#[test]
fn knight_jumps_are_clipped_at_edges() {
    assert_eq!(sorted(sq(0, 0).get_knight_jumps()), vec![(1, 2), (2, 1)]);
    assert_eq!(sq(4, 4).get_knight_jumps().len(), 8);
    assert_eq!(sorted(sq(7, 6).get_knight_jumps()), vec![(5, 5), (5, 7), (6, 4)]);
}

#[test]
fn adjacent_squares_are_listed_once() {
    assert_eq!(sorted(sq(0, 0).get_adjacent_squares()), vec![(0, 1), (1, 0), (1, 1)]);
    assert_eq!(sq(3, 3).get_adjacent_squares().len(), 8);
    assert_eq!(sq(7, 4).get_adjacent_squares().len(), 5);
}

#[test]
fn pawn_attack_squares_point_forward() {
    assert_eq!(sorted(sq(6, 0).get_pawn_attack_squares(Color::White)), vec![(5, 1)]);
    assert_eq!(sorted(sq(1, 4).get_pawn_attack_squares(Color::Black)), vec![(2, 3), (2, 5)]);
}

#[test]
fn empty_runs_and_blockers() {
    let mut board = empty_board();
    board.set_piece(Piece::BlackKnight, sq(3, 6));
    assert_eq!(board.get_right_squares_empty(sq(3, 2)), vec![sq(3, 3), sq(3, 4), sq(3, 5)]);
    assert_eq!(board.get_right_piece(sq(3, 2)), Some((Piece::BlackKnight, sq(3, 6))));
    assert_eq!(board.get_left_piece(sq(3, 2)), None);
}

#[test]
fn check_agrees_with_attack_on_the_king_square() {
    let mut game = Game::create_game(
        GameConfig { timer: 60, increment: 0, is_rated: false, wager: None },
        0,
        AccountKey { bytes: [1; 32] },
        0,
        0,
    );
    game.board = empty_board();
    game.board.set_piece(Piece::WhiteKing, sq(7, 4));
    game.board.set_piece(Piece::BlackKing, sq(0, 4));
    game.board.set_piece(Piece::BlackBishop, sq(4, 1));
    assert_eq!(game.board.get_king(Color::White), Some(sq(7, 4)));
    assert!(game.board.is_square_attacked(sq(7, 4), Color::White));
    assert!(game.in_check(Color::White));
    assert!(!game.in_check(Color::Black));
    game.board.set_piece(Piece::WhitePawn, sq(6, 3));
    assert!(!game.board.is_square_attacked(sq(7, 4), Color::White));
    assert!(!game.in_check(Color::White));
    game.board.set_piece(Piece::BlackKnight, sq(5, 5));
    assert!(game.in_check(Color::White));
    assert!(!game.in_checkmate(Color::White));
}

#[test]
fn attacks_by_each_kind() {
    let mut board = empty_board();
    board.set_piece(Piece::BlackPawn, sq(3, 3));
    assert!(board.is_square_attacked(sq(4, 4), Color::White));
    assert!(!board.is_square_attacked(sq(2, 4), Color::White));
    board = empty_board();
    board.set_piece(Piece::BlackKing, sq(3, 3));
    assert!(board.is_square_attacked(sq(4, 4), Color::White));
    assert!(!board.is_square_attacked(sq(4, 4), Color::Black));
    board = empty_board();
    board.set_piece(Piece::BlackRook, sq(0, 0));
    assert!(board.is_square_attacked(sq(7, 0), Color::White));
    board.set_piece(Piece::WhitePawn, sq(4, 0));
    assert!(!board.is_square_attacked(sq(7, 0), Color::White));
    board = empty_board();
    board.set_piece(Piece::BlackQueen, sq(0, 7));
    assert!(board.is_square_attacked(sq(7, 0), Color::White));
}

#[test]
fn relocate_then_undo_restores_the_board() {
    let board = Board::default();
    let mut b = board;
    let eaten = b.get_piece(sq(1, 4));
    b.move_piece(sq(6, 4), sq(1, 4));
    assert_eq!(b.get_piece(sq(1, 4)), Piece::WhitePawn);
    b.undo_move(sq(6, 4), sq(1, 4), eaten);
    assert_eq!(b.board, board.board);
}

#[test]
fn checkmate_search_leaves_the_game_unchanged() {
    let mut game = Game::create_game(
        GameConfig { timer: 60, increment: 0, is_rated: false, wager: None },
        0,
        AccountKey { bytes: [1; 32] },
        0,
        0,
    );
    game.board.set_piece(Piece::BlackQueen, sq(4, 7));
    game.board.set_piece(Piece::Empty, sq(6, 5));
    let before = game.board.board;
    assert!(!game.in_checkmate(Color::White));
    assert_eq!(game.board.board, before);
}

#[test]
fn find_piece_scans_rank_by_rank() {
    let board = Board::default();
    assert_eq!(board.find_piece(Piece::BlackRook), Some(sq(0, 0)));
    assert_eq!(board.find_piece(Piece::WhiteKing), Some(sq(7, 4)));
    assert_eq!(empty_board().find_piece(Piece::WhiteKing), None);
    assert_eq!(board.get_color_pieces(Color::Black).len(), 16);
}

#[test]
fn castling_rights_lost_by_king_rook_and_capture() {
    let all = CastlingRight::default();
    let mut r = all;
    r.update_castling_right(Color::White, sq(7, 4), sq(7, 5));
    assert!(!r.white_kingside && !r.white_queenside && r.black_kingside && r.black_queenside);
    let mut r = all;
    r.update_castling_right(Color::Black, sq(0, 0), sq(3, 0));
    assert!(!r.black_queenside && r.black_kingside && r.white_queenside);
    let mut r = all;
    r.update_castling_right(Color::White, sq(7, 0), sq(0, 0));
    assert!(!r.white_queenside && !r.black_queenside && r.white_kingside && r.black_kingside);
    assert!(!r.has_queenside_right(Color::Black));
    assert!(r.has_right(Color::Black));
}

#[test]
fn draw_state_offers() {
    let mut d = DrawState::Neither;
    d.update_state(Color::White);
    assert_eq!(d, DrawState::White);
    assert!(d.is_draw_with(Color::Black));
    d.update_state(Color::White);
    assert_eq!(d, DrawState::White);
    d.update_state(Color::Black);
    assert_eq!(d, DrawState::Draw);
    let mut e = DrawState::Neither;
    e.set_black();
    assert_eq!(e, DrawState::Black);
}

#[test]
fn time_control_update_and_has_time() {
    let mut tc = TimeControl::new(60, 5);
    assert!(tc.is_first_move());
    assert!(tc.has_time(Color::White, 1_000_000));
    tc.update_time_control(Color::White, 100);
    assert_eq!(tc.white_timer, 60);
    assert_eq!(tc.last_move, 100);
    assert!(tc.has_time(Color::Black, 159));
    assert!(!tc.has_time(Color::Black, 160));
    tc.update_time_control(Color::Black, 130);
    assert_eq!(tc.black_timer, 35);
    assert_eq!(tc.last_move, 130);
    assert_eq!(tc.get_time_passed(150), 20);
}

#[test]
fn program_addresses_are_derived() {
    let payer = AccountKey { bytes: [7; 32] };
    let (game_address, _) = Game::pda(payer, 0).unwrap();
    assert_ne!(game_address, payer);
    assert_ne!(game_address, program_id());
    let (other_game, _) = Game::pda(payer, 1).unwrap();
    assert_ne!(game_address, other_game);
    assert_eq!(Game::pda(payer, 0).unwrap().0, game_address);
    let (user_address, _) = User::pda(payer).unwrap();
    assert_ne!(user_address, payer);
    assert_ne!(user_address, game_address);
}

#[test]
fn big_endian_bytes() {
    assert_eq!(to_be_bytes(0x0102030405060708), vec![1, 2, 3, 4, 5, 6, 7, 8]);
    assert_eq!(to_be_bytes(0), vec![0; 8]);
}

#[test]
fn account_keys_compare_by_bytes() {
    let a = AccountKey { bytes: [1; 32] };
    let mut b = a;
    assert!(a.same(&b));
    b.bytes[31] = 2;
    assert!(!a.same(&b));
    assert!(a.held_by(&Some(a)));
    assert!(!a.held_by(&None));
}

fn start_game() -> Game {
    Game::create_game(
        GameConfig { timer: 60, increment: 0, is_rated: false, wager: None },
        0,
        AccountKey { bytes: [1; 32] },
        0,
        0,
    )
}

#[test]
fn destinations_in_the_starting_position() {
    let game = start_game();
    assert_eq!(sorted(game.get_valid_pawn_moves(Color::White, sq(6, 4))), vec![(4, 4), (5, 4)]);
    assert_eq!(sorted(game.get_valid_knight_moves(Color::White, sq(7, 1))), vec![(5, 0), (5, 2)]);
    assert_eq!(game.get_valid_rook_moves(Color::White, sq(7, 0)), vec![]);
    assert_eq!(game.get_valid_bishop_moves(Color::White, sq(7, 2)), vec![]);
    assert_eq!(game.get_valid_queen_moves(Color::White, sq(7, 3)), vec![]);
    assert_eq!(game.get_valid_king_moves(Color::White, sq(7, 4)), vec![]);
    assert_eq!(game.get_piece_valid_moves(Color::White, sq(4, 4)), vec![]);
}

#[test]
fn sliders_stop_at_the_first_piece() {
    let mut game = start_game();
    game.board = empty_board();
    game.board.set_piece(Piece::WhiteQueen, sq(4, 4));
    game.board.set_piece(Piece::BlackPawn, sq(2, 4));
    game.board.set_piece(Piece::WhitePawn, sq(4, 6));
    let moves = sorted(game.get_valid_rook_moves(Color::White, sq(4, 4)));
    assert!(moves.contains(&(3, 4)) && moves.contains(&(2, 4)) && !moves.contains(&(1, 4)));
    assert!(moves.contains(&(4, 5)) && !moves.contains(&(4, 6)));
    assert_eq!(moves.len(), 2 + 3 + 1 + 4);
    assert_eq!(game.get_valid_queen_moves(Color::White, sq(4, 4)).len(), 10 + 13);
}

#[test]
fn blocker_lists_keep_their_order() {
    let mut board = empty_board();
    board.set_piece(Piece::BlackKnight, sq(1, 6)); // up-right of d4... on its diagonal
    board.set_piece(Piece::WhitePawn, sq(6, 1)); // down-left
    board.set_piece(Piece::BlackRook, sq(0, 3)); // up
    board.set_piece(Piece::WhiteKing, sq(4, 7)); // right
    let center = sq(4, 3);
    assert_eq!(
        board.get_diagonal_pieces(center),
        vec![(Piece::BlackKnight, sq(1, 6)), (Piece::WhitePawn, sq(6, 1))]
    );
    assert_eq!(
        board.get_parallel_pieces(center),
        vec![(Piece::BlackRook, sq(0, 3)), (Piece::WhiteKing, sq(4, 7))]
    );
    let pieces = Board::default().get_color_pieces(Color::White);
    assert_eq!(pieces[0], (Piece::WhitePawn, sq(6, 0)));
    assert_eq!(pieces[15], (Piece::WhiteRook, sq(7, 7)));
}
