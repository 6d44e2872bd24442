//! Game data carried between the server snapshots and the client reducer.
//!
//! Identifiers of players and pieces are UUIDs held as their 128-bit integer
//! value; the nil UUID is `0`.

use std::collections::HashMap;
use vstd::prelude::*;

verus! {

broadcast use vstd::std_specs::hash::group_hash_axioms;

/// Identifier of a player (a UUID as its integer value).
pub type PlayerId = u128;

/// Identifier of a piece (a UUID as its integer value).
pub type PieceId = u128;

/// Session secret handed out by the server (a UUID as its integer value).
pub type SessionSecret = u128;

/// Wall-clock timestamp in milliseconds since the Unix epoch.
pub type TimestampMs = i64;

/// The nil UUID, used for spectators and queue previews.
pub const NIL_ID: u128 = 0;

/// A square of the board; `(0, 0)` is the board centre.
#[derive(Clone, Copy, PartialEq, Eq, Structural, Debug, Hash)]
pub struct BoardCoord {
    pub x: i32,
    pub y: i32,
}

/// A piece on the board.
#[derive(Clone, PartialEq, Eq, Debug)]
pub struct Piece {
    pub id: PieceId,
    pub owner_id: Option<PlayerId>,
    pub piece_type: String,
    pub position: BoardCoord,
    /// When the piece last moved.
    pub last_move_time: TimestampMs,
    /// How long the piece waits after a move before it can move again, in milliseconds.
    pub cooldown_ms: i64,
}

/// A player taking part in the game.
#[derive(Clone, PartialEq, Eq, Debug)]
pub struct Player {
    pub id: PlayerId,
    pub name: String,
    pub color: String,
    pub score: u64,
    pub kills: u32,
    pub pieces_captured: u32,
    pub join_time: TimestampMs,
    pub king_id: PieceId,
}

/// A shop square on the board.
#[derive(Clone, PartialEq, Eq, Debug)]
pub struct Shop {
    pub shop_id: String,
    pub position: BoardCoord,
    pub uses_remaining: u32,
}

/// One room chat line as delivered by the server.
#[derive(Clone, PartialEq, Eq, Debug)]
pub struct ChatLine {
    pub sent_at: TimestampMs,
    pub sender_name: String,
    pub sender_color: String,
    pub message: String,
}

/// Errors reported by the server for a client request.
#[derive(Clone, PartialEq, Eq, Debug)]
pub enum GameError {
    PieceNotFound,
    NotYourPiece,
    OnCooldown,
    TargetFriendly,
    InvalidMove,
    PathBlocked,
    Custom { title: String, message: String },
}

/// Where the camera should focus when a match is won.
#[derive(Clone, Copy, PartialEq, Eq, Structural, Debug)]
pub enum VictoryFocusTarget {
    KeepCurrent,
    Square(BoardCoord),
}

/// Per-piece-type rendering configuration.
#[derive(Clone, PartialEq, Eq, Debug)]
pub struct PieceConfig {
    pub svg_path: String,
}

/// Per-shop configuration.
#[derive(Clone, PartialEq, Eq, Debug)]
pub struct ShopConfig {
    pub auto_upgrade_single_item: bool,
}

/// A selectable army kit of a mode.
#[derive(Clone, PartialEq, Eq, Debug)]
pub struct KitSummary {
    pub name: String,
    pub description: String,
}

/// A selectable game mode as listed on the landing screen.
#[derive(Clone, PartialEq, Eq, Debug)]
pub struct ModeSummary {
    pub id: String,
    pub display_name: String,
    pub players: u32,
    pub max_players: u32,
}

/// The client-facing configuration of the selected game mode.
#[derive(Clone, PartialEq, Eq, Debug)]
pub struct ModeConfig {
    pub kits: Vec<KitSummary>,
    pub queue_players: u32,
    pub respawn_cooldown_ms: i64,
    pub show_scoreboard: bool,
}

/// The authoritative world as mirrored on the client.
#[derive(Clone, PartialEq, Debug)]
pub struct GameState {
    pub players: HashMap<PlayerId, Player>,
    pub pieces: HashMap<PieceId, Piece>,
    pub shops: Vec<Shop>,
    pub board_size: i32,
}

/// Mathematical model of a [`GameState`].
pub struct GameStateModel {
    pub players: Map<PlayerId, Player>,
    pub pieces: Map<PieceId, Piece>,
    pub shops: Seq<Shop>,
    pub board_size: i32,
}

impl View for GameState {
    type V = GameStateModel;

    open spec fn view(&self) -> GameStateModel {
        GameStateModel {
            players: self.players@,
            pieces: self.pieces@,
            shops: self.shops@,
            board_size: self.board_size,
        }
    }
}

/// The empty world: no players, pieces or shops, board size zero.
pub open spec fn empty_game_state() -> GameStateModel {
    GameStateModel {
        players: Map::empty(),
        pieces: Map::empty(),
        shops: Seq::empty(),
        board_size: 0,
    }
}

impl Piece {
    /// An exact copy of this piece.
    pub fn snapshot(&self) -> (r: Piece)
        ensures
            r == *self,
    {
        Piece {
            id: self.id,
            owner_id: self.owner_id,
            piece_type: self.piece_type.clone(),
            position: self.position,
            last_move_time: self.last_move_time,
            cooldown_ms: self.cooldown_ms,
        }
    }
}

impl Player {
    /// An exact copy of this player.
    pub fn snapshot(&self) -> (r: Player)
        ensures
            r == *self,
    {
        Player {
            id: self.id,
            name: self.name.clone(),
            color: self.color.clone(),
            score: self.score,
            kills: self.kills,
            pieces_captured: self.pieces_captured,
            join_time: self.join_time,
            king_id: self.king_id,
        }
    }
}

impl ChatLine {
    /// An exact copy of this chat line.
    pub fn snapshot(&self) -> (r: ChatLine)
        ensures
            r == *self,
    {
        ChatLine {
            sent_at: self.sent_at,
            sender_name: self.sender_name.clone(),
            sender_color: self.sender_color.clone(),
            message: self.message.clone(),
        }
    }
}

impl ModeSummary {
    /// An exact copy of this summary.
    pub fn snapshot(&self) -> (r: ModeSummary)
        ensures
            r == *self,
    {
        ModeSummary {
            id: self.id.clone(),
            display_name: self.display_name.clone(),
            players: self.players,
            max_players: self.max_players,
        }
    }
}

impl Shop {
    /// An exact copy of this shop.
    pub fn snapshot(&self) -> (r: Shop)
        ensures
            r == *self,
    {
        Shop { shop_id: self.shop_id.clone(), position: self.position, uses_remaining: self.uses_remaining }
    }
}

impl GameState {
    /// The empty world.
    pub fn empty() -> (r: GameState)
        ensures
            r@ == empty_game_state(),
    {
        GameState { players: HashMap::new(), pieces: HashMap::new(), shops: Vec::new(), board_size: 0 }
    }

    /// An exact copy of this world.
    pub fn snapshot(&self) -> (r: GameState)
        ensures
            r@ == self@,
    {
        let mut shops: Vec<Shop> = Vec::new();
        let mut i: usize = 0;
        while i < self.shops.len()
            invariant
                i <= self.shops.len(),
                shops@ == self.shops@.take(i as int),
            decreases self.shops.len() - i,
        {
            shops.push(self.shops[i].snapshot());
            i = i + 1;
        }
        assert(self.shops@.take(self.shops.len() as int) =~= self.shops@);
        GameState {
            players: self.players.clone(),
            pieces: self.pieces.clone(),
            shops,
            board_size: self.board_size,
        }
    }
}

impl Default for GameState {
    /// The empty world.
    fn default() -> (r: GameState)
        ensures
            r@ == empty_game_state(),
    {
        GameState::empty()
    }
}

} // verus!
