use vstd::prelude::*;

verus! {

/// The default fee rate, in basis points, that initialization installs.
pub const DEFAULT_HOUSE_EDGE_BPS: u16 = 250;

/// The ledger-wide singleton configuration record. The authority identity
/// and the fee rate are set once at initialization; the game counter is
/// advanced only by game creation; the pause flag only by the authority.
#[derive(Clone, Copy, Debug, PartialEq, Eq, Structural)]
pub struct GameConfig {
    /// Identity allowed to pause and resume game creation.
    pub authority: u64,
    /// Monotonic counter of games ever created; also the next game id.
    pub total_games: u64,
    /// Running total of value wagered (informational).
    pub total_volume: u64,
    /// Fee rate in basis points, at most 10000.
    pub house_edge: u16,
    /// While set, no new game can be created; in-flight games are unaffected.
    pub is_paused: bool,
}

/// The record invariant: the fee rate never exceeds 100%.
pub open spec fn config_wf(c: GameConfig) -> bool {
    c.house_edge <= 10000
}

/// Builds the one-time configuration record for the given authority.
pub fn initialize(authority: u64) -> (c: GameConfig)
    ensures
        c.authority == authority,
        c.total_games == 0,
        c.total_volume == 0,
        c.house_edge == DEFAULT_HOUSE_EDGE_BPS,
        !c.is_paused,
        config_wf(c),
{
    GameConfig {
        authority,
        total_games: 0,
        total_volume: 0,
        house_edge: DEFAULT_HOUSE_EDGE_BPS,
        is_paused: false,
    }
}

/// Blocks new game creation. Gating on the caller being the authority is the
/// surrounding access-control layer's duty, not this record's.
pub fn pause_games(config: &mut GameConfig)
    ensures
        final(config).is_paused,
        final(config).authority == old(config).authority,
        final(config).total_games == old(config).total_games,
        final(config).total_volume == old(config).total_volume,
        final(config).house_edge == old(config).house_edge,
{
    config.is_paused = true;
}

/// Lifts the pause; the counterpart of `pause_games`.
pub fn resume_games(config: &mut GameConfig)
    ensures
        !final(config).is_paused,
        final(config).authority == old(config).authority,
        final(config).total_games == old(config).total_games,
        final(config).total_volume == old(config).total_volume,
        final(config).house_edge == old(config).house_edge,
{
    config.is_paused = false;
}

} // verus!
