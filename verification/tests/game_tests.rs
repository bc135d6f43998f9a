use battle_sol::commitment::{commit, GridPosition, ShipPosition};
use battle_sol::config::{initialize, pause_games, resume_games};
use battle_sol::errors::GameError;
use battle_sol::game::{
    create_game, join_game, reveal_and_finalize, GameState, GameWinner,
};

fn creator_ships() -> Vec<ShipPosition> {
    vec![ShipPosition {
        ship_id: 1,
        positions: vec![GridPosition { row: 0, col: 0 }, GridPosition { row: 0, col: 1 }],
    }]
}

fn opponent_ships() -> Vec<ShipPosition> {
    vec![ShipPosition {
        ship_id: 1,
        positions: vec![GridPosition { row: 9, col: 9 }, GridPosition { row: 9, col: 8 }],
    }]
}

const CREATOR: u64 = 5;
const OPPONENT: u64 = 6;
const CREATOR_NONCE: u64 = 42;
const OPPONENT_NONCE: u64 = 77;

#[test]
fn test_initialize_defaults() {
    let c = initialize(9);
    assert_eq!(c.authority, 9);
    assert_eq!(c.total_games, 0);
    assert_eq!(c.total_volume, 0);
    assert_eq!(c.house_edge, 250);
    assert!(!c.is_paused);
}

#[test]
fn test_pause_and_resume() {
    let mut c = initialize(9);
    pause_games(&mut c);
    assert!(c.is_paused);
    resume_games(&mut c);
    assert!(!c.is_paused);
}

#[test]
fn test_create_rejected_while_paused() {
    let mut c = initialize(9);
    pause_games(&mut c);
    let commitment = commit(&creator_ships(), CREATOR_NONCE);
    let r = create_game(&mut c, CREATOR, 1_000, commitment, 123, 77);
    assert_eq!(r.unwrap_err(), GameError::GamesPaused);
    assert_eq!(c.total_games, 0);
}

#[test]
fn test_create_rejects_zero_wager() {
    let mut c = initialize(9);
    let commitment = commit(&creator_ships(), CREATOR_NONCE);
    let r = create_game(&mut c, CREATOR, 0, commitment, 123, 77);
    assert_eq!(r.unwrap_err(), GameError::InvalidWager);
    assert_eq!(c.total_games, 0);
}

#[test]
fn test_create_fields_counter_and_known_seed() {
    let mut c = initialize(9);
    let commitment = commit(&creator_ships(), CREATOR_NONCE);
    let g = create_game(&mut c, CREATOR, 1_000, commitment.clone(), 123, 77).unwrap();
    assert_eq!(g.player, CREATOR);
    assert_eq!(g.opponent, None);
    assert_eq!(g.wager_amount, 1_000);
    assert_eq!(g.player_commitment, commitment);
    assert_eq!(g.opponent_commitment, None);
    assert_eq!(g.game_state, GameState::WaitingForOpponent);
    assert_eq!(g.winner, None);
    assert_eq!(g.created_at, 123);
    assert_eq!(g.game_id, 0);
    assert_eq!(c.total_games, 1);
    // SHA-256 of the four little-endian words (123, 77, 5, 0).
    let expected_seed: Vec<u8> = vec![
        0xaa, 0x6b, 0x53, 0xf1, 0x9d, 0xcb, 0xd8, 0xdb, 0x6f, 0x35, 0xde, 0x5b, 0xa9, 0xd9, 0x2e,
        0x8c, 0x1f, 0x63, 0x22, 0x37, 0x41, 0xcc, 0x1b, 0xf7, 0x79, 0x8c, 0x3f, 0xff, 0x1f, 0xd0,
        0x03, 0x45,
    ];
    assert_eq!(g.server_seed, expected_seed);
}

#[test]
fn test_server_seed_deterministic() {
    let mut c1 = initialize(9);
    let mut c2 = initialize(9);
    let g1 = create_game(&mut c1, CREATOR, 1_000, commit(&creator_ships(), 1), 123, 77).unwrap();
    let g2 = create_game(&mut c2, CREATOR, 1_000, commit(&creator_ships(), 1), 123, 77).unwrap();
    assert_eq!(g1.server_seed, g2.server_seed);
    assert_eq!(g1.server_seed.len(), 32);
}

#[test]
fn test_game_ids_are_sequential() {
    let mut c = initialize(9);
    let g0 = create_game(&mut c, CREATOR, 10, commit(&creator_ships(), 1), 123, 77).unwrap();
    let g1 = create_game(&mut c, CREATOR, 10, commit(&creator_ships(), 2), 124, 78).unwrap();
    assert_eq!(g0.game_id, 0);
    assert_eq!(g1.game_id, 1);
    assert_eq!(c.total_games, 2);
}

#[test]
fn test_self_join_rejected() {
    let mut c = initialize(9);
    let mut g = create_game(&mut c, CREATOR, 1_000, commit(&creator_ships(), CREATOR_NONCE), 123, 77)
        .unwrap();
    let r = join_game(&mut g, CREATOR, commit(&opponent_ships(), OPPONENT_NONCE));
    assert_eq!(r.unwrap_err(), GameError::CannotPlaySelf);
    assert_eq!(g.game_state, GameState::WaitingForOpponent);
    assert_eq!(g.opponent, None);
    assert_eq!(g.opponent_commitment, None);
}

#[test]
fn test_join_sets_identity_and_commitment_together() {
    let mut c = initialize(9);
    let mut g = create_game(&mut c, CREATOR, 1_000, commit(&creator_ships(), CREATOR_NONCE), 123, 77)
        .unwrap();
    let oc = commit(&opponent_ships(), OPPONENT_NONCE);
    assert!(join_game(&mut g, OPPONENT, oc.clone()).is_ok());
    assert_eq!(g.opponent, Some(OPPONENT));
    assert_eq!(g.opponent_commitment, Some(oc));
    assert_eq!(g.game_state, GameState::InProgress);
}

#[test]
fn test_join_after_join_rejected() {
    let mut c = initialize(9);
    let mut g = create_game(&mut c, CREATOR, 1_000, commit(&creator_ships(), CREATOR_NONCE), 123, 77)
        .unwrap();
    assert!(join_game(&mut g, OPPONENT, commit(&opponent_ships(), OPPONENT_NONCE)).is_ok());
    let r = join_game(&mut g, 8, commit(&opponent_ships(), 9));
    assert_eq!(r.unwrap_err(), GameError::InvalidGameState);
    assert_eq!(g.opponent, Some(OPPONENT));
    assert_eq!(g.game_state, GameState::InProgress);
}

#[test]
fn test_finalize_before_join_rejected() {
    let mut c = initialize(9);
    let mut g = create_game(&mut c, CREATOR, 1_000, commit(&creator_ships(), CREATOR_NONCE), 123, 77)
        .unwrap();
    let r = reveal_and_finalize(
        &mut g,
        &c,
        creator_ships(),
        CREATOR_NONCE,
        opponent_ships(),
        OPPONENT_NONCE,
        GameWinner::Player,
    );
    assert_eq!(r.unwrap_err(), GameError::InvalidGameState);
    assert_eq!(g.game_state, GameState::WaitingForOpponent);
}

fn in_progress_game() -> (battle_sol::config::GameConfig, battle_sol::game::Game) {
    let mut c = initialize(9);
    let mut g = create_game(&mut c, CREATOR, 1_000, commit(&creator_ships(), CREATOR_NONCE), 123, 77)
        .unwrap();
    join_game(&mut g, OPPONENT, commit(&opponent_ships(), OPPONENT_NONCE)).unwrap();
    (c, g)
}

#[test]
fn test_end_to_end_creator_wins() {
    // wager 1000, house edge 250 bps: pool 2000, fee 50, prize 1950.
    let (c, mut g) = in_progress_game();
    let s = reveal_and_finalize(
        &mut g,
        &c,
        creator_ships(),
        CREATOR_NONCE,
        opponent_ships(),
        OPPONENT_NONCE,
        GameWinner::Player,
    )
    .unwrap();
    assert_eq!(s.house_fee, 50);
    assert_eq!(s.prize_pool, 1_950);
    assert_eq!(s.payout_to_player, 1_950);
    assert_eq!(s.payout_to_opponent, 0);
    // The escrow held 2000; after the payout the fee is what remains.
    assert_eq!(2_000 - s.payout_to_player - s.payout_to_opponent, s.house_fee);
    assert_eq!(g.game_state, GameState::Finished);
    assert_eq!(g.winner, Some(GameWinner::Player));
    assert_eq!(g.player_ships.as_ref().map(|v| v.len()), Some(1));
    assert_eq!(g.opponent_ships.as_ref().map(|v| v.len()), Some(1));
}

#[test]
fn test_end_to_end_opponent_wins() {
    let (c, mut g) = in_progress_game();
    let s = reveal_and_finalize(
        &mut g,
        &c,
        creator_ships(),
        CREATOR_NONCE,
        opponent_ships(),
        OPPONENT_NONCE,
        GameWinner::Opponent,
    )
    .unwrap();
    assert_eq!(s.payout_to_player, 0);
    assert_eq!(s.payout_to_opponent, 1_950);
    assert_eq!(g.winner, Some(GameWinner::Opponent));
}

#[test]
fn test_draw_returns_full_stakes_regardless_of_fee() {
    let (c, mut g) = in_progress_game();
    let s = reveal_and_finalize(
        &mut g,
        &c,
        creator_ships(),
        CREATOR_NONCE,
        opponent_ships(),
        OPPONENT_NONCE,
        GameWinner::Draw,
    )
    .unwrap();
    // Each side gets its full stake back; the fee is computed but not
    // withheld in a draw.
    assert_eq!(s.payout_to_player, 1_000);
    assert_eq!(s.payout_to_opponent, 1_000);
    assert_eq!(s.payout_to_player + s.payout_to_opponent, 2_000);
    assert_eq!(s.house_fee, 50);
    assert_eq!(g.winner, Some(GameWinner::Draw));
}

#[test]
fn test_reveal_with_wrong_move_set_rejected_then_retry_succeeds() {
    let (c, mut g) = in_progress_game();
    let mut wrong = creator_ships();
    wrong[0].positions[0].row = 5;
    let r = reveal_and_finalize(
        &mut g,
        &c,
        wrong,
        CREATOR_NONCE,
        opponent_ships(),
        OPPONENT_NONCE,
        GameWinner::Player,
    );
    assert_eq!(r.unwrap_err(), GameError::InvalidCommitment);
    // The record is untouched and still in progress, so a corrected retry
    // can settle it.
    assert_eq!(g.game_state, GameState::InProgress);
    assert_eq!(g.winner, None);
    assert!(g.player_ships.is_none());
    let retry = reveal_and_finalize(
        &mut g,
        &c,
        creator_ships(),
        CREATOR_NONCE,
        opponent_ships(),
        OPPONENT_NONCE,
        GameWinner::Player,
    );
    assert!(retry.is_ok());
    assert_eq!(g.game_state, GameState::Finished);
}

#[test]
fn test_reveal_with_wrong_opponent_nonce_rejected() {
    let (c, mut g) = in_progress_game();
    let r = reveal_and_finalize(
        &mut g,
        &c,
        creator_ships(),
        CREATOR_NONCE,
        opponent_ships(),
        OPPONENT_NONCE + 1,
        GameWinner::Player,
    );
    assert_eq!(r.unwrap_err(), GameError::InvalidCommitment);
    assert_eq!(g.game_state, GameState::InProgress);
}

#[test]
fn test_finalize_after_finalize_rejected() {
    let (c, mut g) = in_progress_game();
    assert!(reveal_and_finalize(
        &mut g,
        &c,
        creator_ships(),
        CREATOR_NONCE,
        opponent_ships(),
        OPPONENT_NONCE,
        GameWinner::Draw,
    )
    .is_ok());
    let again = reveal_and_finalize(
        &mut g,
        &c,
        creator_ships(),
        CREATOR_NONCE,
        opponent_ships(),
        OPPONENT_NONCE,
        GameWinner::Player,
    );
    assert_eq!(again.unwrap_err(), GameError::InvalidGameState);
    assert_eq!(g.winner, Some(GameWinner::Draw));
}

#[test]
fn test_reveal_overflow_on_huge_wager() {
    let mut c = initialize(9);
    let mut g = create_game(&mut c, CREATOR, u64::MAX, commit(&creator_ships(), CREATOR_NONCE), 123, 77)
        .unwrap();
    join_game(&mut g, OPPONENT, commit(&opponent_ships(), OPPONENT_NONCE)).unwrap();
    // Both commitments verify, then doubling the wager overflows.
    let r = reveal_and_finalize(
        &mut g,
        &c,
        creator_ships(),
        CREATOR_NONCE,
        opponent_ships(),
        OPPONENT_NONCE,
        GameWinner::Player,
    );
    assert_eq!(r.unwrap_err(), GameError::MathOverflow);
    assert_eq!(g.game_state, GameState::InProgress);
}
