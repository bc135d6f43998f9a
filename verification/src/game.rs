use vstd::prelude::*;

use vstd::bytes::spec_u64_to_le_bytes;
use vstd::bytes::u64_to_le_bytes;

use crate::commitment::ShipPosition;
use crate::commitment::reveal_matches;
use crate::commitment::sha256;
use crate::commitment::sha256_of;
use crate::commitment::ships_wf;
use crate::commitment::verify;
use crate::config::GameConfig;
use crate::config::config_wf;
use crate::errors::GameError;
use crate::math::checked_add_u64;
use crate::math::checked_div_u64;
use crate::math::checked_mul_u64;
use crate::math::checked_sub_u64;
use crate::math::house_fee_of;
use crate::math::lemma_fee_le_total;
use crate::math::prize_pool_of;

verus! {

/// Lifecycle of a match. Transitions only move forward: a record is created
/// waiting, becomes in-progress when an opponent joins, and is finished by
/// exactly one successful reveal.
#[derive(Clone, Copy, Debug, PartialEq, Eq, Structural)]
pub enum GameState {
    WaitingForOpponent,
    InProgress,
    Finished,
}

/// The settled outcome a reveal claims and the record then stores.
#[derive(Clone, Copy, Debug, PartialEq, Eq, Structural)]
pub enum GameWinner {
    Player,
    Opponent,
    Draw,
}

/// One match: identities, stakes, commitments, and the lifecycle state.
/// The escrow holding both stakes lives with the host under this record's
/// identity; its balance is implied by the states below.
#[derive(Clone, Debug)]
pub struct Game {
    /// The creator's identity.
    pub player: u64,
    /// The opponent's identity; set exactly once, at join.
    pub opponent: Option<u64>,
    /// The per-side stake; both sides stake exactly this.
    pub wager_amount: u64,
    /// The creator's 32-byte commitment digest.
    pub player_commitment: Vec<u8>,
    /// The opponent's digest; set together with `opponent`, at join.
    pub opponent_commitment: Option<Vec<u8>>,
    /// Informational seed recorded at creation; never part of settlement.
    pub server_seed: Vec<u8>,
    /// Where in the lifecycle the record stands.
    pub game_state: GameState,
    /// The outcome; written exactly once, when the record finishes.
    pub winner: Option<GameWinner>,
    /// The creator's revealed move set; persisted only after verification.
    pub player_ships: Option<Vec<ShipPosition>>,
    /// The opponent's revealed move set; persisted only after verification.
    pub opponent_ships: Option<Vec<ShipPosition>>,
    /// Creation time, epoch seconds.
    pub created_at: i64,
    /// Sequential identifier, drawn from the configuration counter.
    pub game_id: u64,
}

/// The record invariant every reachable game satisfies: the opponent's
/// identity and commitment are present together; the outcome and the
/// revealed move sets exist only from the finished state on; the stake is
/// positive; the stored digest is 32 bytes.
pub open spec fn game_wf(g: Game) -> bool {
    &&& (g.opponent is Some) <==> (g.opponent_commitment is Some)
    &&& g.game_state == GameState::WaitingForOpponent ==> g.opponent is None && g.winner is None
        && g.player_ships is None && g.opponent_ships is None
    &&& g.game_state == GameState::InProgress ==> g.opponent is Some && g.winner is None
        && g.player_ships is None && g.opponent_ships is None
    &&& g.game_state == GameState::Finished ==> g.winner is Some && g.player_ships is Some
    &&& g.wager_amount > 0
    &&& g.player_commitment@.len() == 32
}

/// How far along the lifecycle a state is.
pub open spec fn state_index(s: GameState) -> nat {
    match s {
        GameState::WaitingForOpponent => 0,
        GameState::InProgress => 1,
        GameState::Finished => 2,
    }
}

/// The only two transitions the machine has.
pub open spec fn step_allowed(pre: GameState, post: GameState) -> bool {
    ||| pre == GameState::WaitingForOpponent && post == GameState::InProgress
    ||| pre == GameState::InProgress && post == GameState::Finished
}

/// Transitions only move forward, one state at a time: no transition skips
/// a state or reverses.
pub proof fn lemma_transitions_forward(pre: GameState, post: GameState)
    requires
        step_allowed(pre, post),
    ensures
        state_index(post) == state_index(pre) + 1,
{
}

/// Whether the opponent's reveal matches the stored opponent commitment;
/// vacuously true while no opponent commitment exists.
pub open spec fn opponent_reveal_ok(g: Game, ships: Seq<ShipPosition>, nonce: u64) -> bool {
    match g.opponent_commitment {
        Some(c) => reveal_matches(ships, nonce, c@),
        None => true,
    }
}

/// The bytes hashed into the informational server seed: creation time,
/// ledger slot, creator identity and the game counter, each as eight
/// little-endian bytes.
pub open spec fn seed_encoding(now: i64, slot: u64, player: u64, counter: u64) -> Seq<u8> {
    spec_u64_to_le_bytes(now as u64) + spec_u64_to_le_bytes(slot) + spec_u64_to_le_bytes(player)
        + spec_u64_to_le_bytes(counter)
}

/// Opens a match: checks the pause flag and the wager, draws the next game
/// identifier, records the creator's commitment and an informational seed,
/// and advances the global counter. The host must move the creator's stake
/// of `wager_amount` into the new record's escrow atomically with storing
/// the returned record; on any error nothing may move and the
/// configuration is untouched.
pub fn create_game(
    config: &mut GameConfig,
    player: u64,
    wager_amount: u64,
    player_commitment: Vec<u8>,
    now: i64,
    slot: u64,
) -> (r: Result<Game, GameError>)
    requires
        player_commitment@.len() == 32,
    ensures
        r is Err ==> *final(config) == *old(config),
        r matches Ok(g) ==> game_wf(g),
        old(config).is_paused ==> r == Err::<Game, GameError>(GameError::GamesPaused),
        !old(config).is_paused && wager_amount == 0 ==> r == Err::<Game, GameError>(
            GameError::InvalidWager,
        ),
        !old(config).is_paused && wager_amount > 0 && old(config).total_games == u64::MAX ==> r
            == Err::<Game, GameError>(GameError::MathOverflow),
        !old(config).is_paused && wager_amount > 0 && old(config).total_games < u64::MAX ==> {
            &&& r matches Ok(g)
            &&& g.player == player
            &&& g.opponent is None
            &&& g.wager_amount == wager_amount
            &&& g.player_commitment == player_commitment
            &&& g.opponent_commitment is None
            &&& g.server_seed@ == sha256_of(
                seed_encoding(now, slot, player, old(config).total_games),
            )
            &&& g.game_state == GameState::WaitingForOpponent
            &&& g.winner is None
            &&& g.player_ships is None
            &&& g.opponent_ships is None
            &&& g.created_at == now
            &&& g.game_id == old(config).total_games
            &&& final(config).total_games == old(config).total_games + 1
            &&& final(config).authority == old(config).authority
            &&& final(config).total_volume == old(config).total_volume
            &&& final(config).house_edge == old(config).house_edge
            &&& final(config).is_paused == old(config).is_paused
        },
{
    if config.is_paused {
        return Err(GameError::GamesPaused);
    }
    if wager_amount == 0 {
        return Err(GameError::InvalidWager);
    }
    let next_total = match checked_add_u64(config.total_games, 1) {
        Ok(v) => v,
        Err(e) => {
            return Err(e);
        },
    };

    let now_bits: u64 = #[verifier::truncate] (now as u64);
    let mut seed_data: Vec<u8> = Vec::new();
    let mut part = u64_to_le_bytes(now_bits);
    seed_data.append(&mut part);
    let mut part = u64_to_le_bytes(slot);
    seed_data.append(&mut part);
    let mut part = u64_to_le_bytes(player);
    seed_data.append(&mut part);
    let mut part = u64_to_le_bytes(config.total_games);
    seed_data.append(&mut part);
    let server_seed = sha256(&seed_data);

    let game = Game {
        player,
        opponent: None,
        wager_amount,
        player_commitment,
        opponent_commitment: None,
        server_seed,
        game_state: GameState::WaitingForOpponent,
        winner: None,
        player_ships: None,
        opponent_ships: None,
        created_at: now,
        game_id: config.total_games,
    };
    config.total_games = next_total;
    Ok(game)
}

/// Joins a waiting match: rejects self-play, then records the opponent's
/// identity and commitment together and moves the record forward to
/// in-progress. The host must move the opponent's stake, equal to the
/// stored `wager_amount`, into the record's escrow atomically with the
/// update; on any error the record is untouched.
pub fn join_game(game: &mut Game, opponent: u64, opponent_commitment: Vec<u8>) -> (r: Result<
    (),
    GameError,
>)
    requires
        opponent_commitment@.len() == 32,
    ensures
        r is Err ==> *final(game) == *old(game),
        game_wf(*old(game)) ==> game_wf(*final(game)),
        old(game).game_state != GameState::WaitingForOpponent ==> r == Err::<(), GameError>(
            GameError::InvalidGameState,
        ),
        old(game).game_state == GameState::WaitingForOpponent && opponent == old(game).player ==> r
            == Err::<(), GameError>(GameError::CannotPlaySelf),
        old(game).game_state == GameState::WaitingForOpponent && opponent != old(game).player ==> {
            &&& r is Ok
            &&& final(game).opponent == Some(opponent)
            &&& final(game).opponent_commitment == Some(opponent_commitment)
            &&& final(game).game_state == GameState::InProgress
            &&& step_allowed(old(game).game_state, final(game).game_state)
            &&& final(game).player == old(game).player
            &&& final(game).wager_amount == old(game).wager_amount
            &&& final(game).player_commitment == old(game).player_commitment
            &&& final(game).server_seed == old(game).server_seed
            &&& final(game).winner == old(game).winner
            &&& final(game).player_ships == old(game).player_ships
            &&& final(game).opponent_ships == old(game).opponent_ships
            &&& final(game).created_at == old(game).created_at
            &&& final(game).game_id == old(game).game_id
        },
{
    if game.game_state != GameState::WaitingForOpponent {
        return Err(GameError::InvalidGameState);
    }
    if game.player == opponent {
        return Err(GameError::CannotPlaySelf);
    }
    game.opponent = Some(opponent);
    game.opponent_commitment = Some(opponent_commitment);
    game.game_state = GameState::InProgress;
    Ok(())
}

/// What a successful settlement obliges the host to do with the record's
/// escrow of `2 * wager_amount`: pay each side its stated amount out of it;
/// whatever the payouts leave behind stays with the escrow (the fee in a
/// win, everything in the unreachable opponent-win-without-opponent case).
#[derive(Clone, Copy, Debug, PartialEq, Eq, Structural)]
pub struct Settlement {
    /// The outcome the record now stores.
    pub winner: GameWinner,
    /// The computed fee share of the pooled stake, rounded down.
    pub house_fee: u64,
    /// The pooled stake less the fee.
    pub prize_pool: u64,
    /// What the escrow owes the creator.
    pub payout_to_player: u64,
    /// What the escrow owes the opponent.
    pub payout_to_opponent: u64,
}

/// Verifies both reveals against the stored commitments, computes the fee
/// split, and finishes the record with the claimed outcome. A winner takes
/// the prize pool (stake minus fee); a draw returns each side its full
/// stake and the computed fee is not withheld. Any failure leaves the
/// record untouched, so a corrected retry sees the same in-progress state.
pub fn reveal_and_finalize(
    game: &mut Game,
    config: &GameConfig,
    player_ships: Vec<ShipPosition>,
    player_nonce: u64,
    opponent_ships: Vec<ShipPosition>,
    opponent_nonce: u64,
    winner: GameWinner,
) -> (r: Result<Settlement, GameError>)
    requires
        ships_wf(player_ships@),
        ships_wf(opponent_ships@),
        config_wf(*config),
    ensures
        r is Err ==> *final(game) == *old(game),
        game_wf(*old(game)) ==> game_wf(*final(game)),
        old(game).game_state != GameState::InProgress ==> r == Err::<Settlement, GameError>(
            GameError::InvalidGameState,
        ),
        old(game).game_state == GameState::InProgress && !reveal_matches(
            player_ships@,
            player_nonce,
            old(game).player_commitment@,
        ) ==> r == Err::<Settlement, GameError>(GameError::InvalidCommitment),
        old(game).game_state == GameState::InProgress && reveal_matches(
            player_ships@,
            player_nonce,
            old(game).player_commitment@,
        ) && !opponent_reveal_ok(*old(game), opponent_ships@, opponent_nonce) ==> r == Err::<
            Settlement,
            GameError,
        >(GameError::InvalidCommitment),
        old(game).game_state == GameState::InProgress && reveal_matches(
            player_ships@,
            player_nonce,
            old(game).player_commitment@,
        ) && opponent_reveal_ok(*old(game), opponent_ships@, opponent_nonce) && 2 * old(
            game,
        ).wager_amount > u64::MAX ==> r == Err::<Settlement, GameError>(GameError::MathOverflow),
        old(game).game_state == GameState::InProgress && reveal_matches(
            player_ships@,
            player_nonce,
            old(game).player_commitment@,
        ) && opponent_reveal_ok(*old(game), opponent_ships@, opponent_nonce) && 2 * old(
            game,
        ).wager_amount <= u64::MAX && 2 * old(game).wager_amount * config.house_edge > u64::MAX
            ==> r == Err::<Settlement, GameError>(GameError::MathOverflow),
        old(game).game_state == GameState::InProgress && reveal_matches(
            player_ships@,
            player_nonce,
            old(game).player_commitment@,
        ) && opponent_reveal_ok(*old(game), opponent_ships@, opponent_nonce) && 2 * old(
            game,
        ).wager_amount <= u64::MAX && 2 * old(game).wager_amount * config.house_edge
            <= u64::MAX ==> {
            let w = old(game).wager_amount;
            &&& r matches Ok(s)
            &&& s.winner == winner
            &&& s.house_fee == house_fee_of(w, config.house_edge)
            &&& s.prize_pool == prize_pool_of(w, config.house_edge)
            &&& s.house_fee + s.prize_pool == 2 * w
            &&& winner == GameWinner::Player ==> s.payout_to_player == prize_pool_of(
                w,
                config.house_edge,
            ) && s.payout_to_opponent == 0
            &&& winner == GameWinner::Opponent && old(game).opponent is Some
                ==> s.payout_to_opponent == prize_pool_of(w, config.house_edge)
                && s.payout_to_player == 0
            &&& winner == GameWinner::Opponent && old(game).opponent is None
                ==> s.payout_to_player == 0 && s.payout_to_opponent == 0
            &&& winner == GameWinner::Draw ==> s.payout_to_player == w && s.payout_to_opponent == (
            if old(game).opponent is Some {
                w as int
            } else {
                0
            })
            &&& winner == GameWinner::Draw && old(game).opponent is Some ==> s.payout_to_player
                + s.payout_to_opponent == 2 * w
            &&& s.payout_to_player + s.payout_to_opponent <= 2 * w
            &&& final(game).game_state == GameState::Finished
            &&& step_allowed(old(game).game_state, final(game).game_state)
            &&& final(game).winner == Some(winner)
            &&& final(game).player_ships == Some(player_ships)
            &&& final(game).opponent_ships == (if old(game).opponent is Some {
                Some(opponent_ships)
            } else {
                None::<Vec<ShipPosition>>
            })
            &&& final(game).player == old(game).player
            &&& final(game).opponent == old(game).opponent
            &&& final(game).wager_amount == old(game).wager_amount
            &&& final(game).player_commitment == old(game).player_commitment
            &&& final(game).opponent_commitment == old(game).opponent_commitment
            &&& final(game).server_seed == old(game).server_seed
            &&& final(game).created_at == old(game).created_at
            &&& final(game).game_id == old(game).game_id
        },
{
    if game.game_state != GameState::InProgress {
        return Err(GameError::InvalidGameState);
    }

    if !verify(&player_ships, player_nonce, &game.player_commitment) {
        return Err(GameError::InvalidCommitment);
    }
    match &game.opponent_commitment {
        Some(c) => {
            if !verify(&opponent_ships, opponent_nonce, c) {
                return Err(GameError::InvalidCommitment);
            }
        },
        None => {},
    }

    let total_wager = match checked_mul_u64(game.wager_amount, 2) {
        Ok(v) => v,
        Err(e) => {
            return Err(e);
        },
    };
    let fee_numerator = match checked_mul_u64(total_wager, config.house_edge as u64) {
        Ok(v) => v,
        Err(e) => {
            return Err(e);
        },
    };
    let house_fee = match checked_div_u64(fee_numerator, 10000) {
        Ok(v) => v,
        Err(e) => {
            return Err(e);
        },
    };
    proof {
        lemma_fee_le_total(game.wager_amount, config.house_edge);
    }
    let prize_pool = match checked_sub_u64(total_wager, house_fee) {
        Ok(v) => v,
        Err(e) => {
            return Err(e);
        },
    };

    let mut payout_to_player: u64 = 0;
    let mut payout_to_opponent: u64 = 0;
    match winner {
        GameWinner::Player => {
            payout_to_player = prize_pool;
        },
        GameWinner::Opponent => {
            if game.opponent.is_some() {
                payout_to_opponent = prize_pool;
            }
        },
        GameWinner::Draw => {
            payout_to_player = game.wager_amount;
            if game.opponent.is_some() {
                payout_to_opponent = game.wager_amount;
            }
        },
    }

    game.game_state = GameState::Finished;
    game.winner = Some(winner);
    game.player_ships = Some(player_ships);
    game.opponent_ships = if game.opponent.is_some() {
        Some(opponent_ships)
    } else {
        None
    };

    Ok(
        Settlement {
            winner,
            house_fee,
            prize_pool,
            payout_to_player,
            payout_to_opponent,
        },
    )
}

} // verus!
