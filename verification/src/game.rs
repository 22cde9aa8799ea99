//! Lobby, player-session and active-session data types, together with the
//! per-connection frame protocol and the disconnect-reaping rules.
//!
//! A `Lobby` holds caller-defined shared state, an ordered roster of
//! `PlayerCon` sessions (join order) and a `reset` flag.  An `InGame` value
//! owns one lobby for the duration of an active phase.  The connection
//! itself lives in the embedding application, inside each session's `data`;
//! this module holds the connected/disconnected state and every rule that
//! decides on it.

use vstd::prelude::*;

verus! {

/// Index of a player inside one lobby's roster.
///
/// It is a position in the current player sequence, valid only until the
/// next removal from that roster; it is not a stable identity.
#[derive(Clone, Copy)]
pub struct PlayerIndex(pub usize);

impl PlayerIndex {
    /// The raw position this index stands for.
    pub fn i(&self) -> (r: usize)
        ensures
            r == self.0,
    {
        self.0
    }
}

/// One inbound frame from a participant's text-message channel, as the
/// transport hands it to the application.
pub enum Frame {
    /// An application text message.
    Text(String),
    /// A binary application frame; the protocol ignores it.
    Binary(Vec<u8>),
    /// A ping control frame carrying its payload.
    Ping(Vec<u8>),
    /// A pong control frame; the protocol ignores it.
    Pong(Vec<u8>),
    /// A close control frame.
    Close,
    /// Any other raw protocol frame; the protocol ignores it.
    Raw(Vec<u8>),
}

/// What handling one inbound frame asks of the transport: at most one
/// application message to surface, and at most one pong to answer.
pub struct FrameOutcome {
    /// The text message to hand to the caller, for a text frame.
    pub message: Option<String>,
    /// The payload to answer with a pong, for a ping frame.
    pub pong: Option<Vec<u8>>,
}

/// One participant's session: caller-defined per-player data plus the
/// connected/disconnected state of its channel.
pub struct PlayerCon<D> {
    /// Caller-defined per-player data, opaque to the framework.
    pub data: D,
    /// False once a send failure, a receive failure or a close frame has
    /// been observed.
    pub connected: bool,
}

impl<D> PlayerCon<D> {
    /// A freshly joined session: connected, with the given player data.
    pub fn new(data: D) -> (r: Self)
        ensures
            r.data == data,
            r.connected,
    {
        PlayerCon { data, connected: true }
    }

    /// Marks this session disconnected.  The application closes the
    /// underlying channel when it calls this.
    pub fn force_disconnect(&mut self)
        ensures
            final(self).data == old(self).data,
            !final(self).connected,
    {
        self.connected = false;
    }

    /// True once a send failure, a receive failure or a close frame has
    /// been observed.
    pub fn disconnected(&self) -> (r: bool)
        ensures
            r == !self.connected,
    {
        !self.connected
    }

    /// Records the outcome of a best-effort send: a failed delivery marks
    /// the session disconnected, a successful one changes nothing.  The
    /// message itself is dropped either way; no error reaches the caller.
    pub fn note_send_result(&mut self, delivered: bool)
        ensures
            final(self).data == old(self).data,
            final(self).connected == (old(self).connected && delivered),
    {
        if !delivered {
            self.connected = false;
        }
    }

    /// Records a failed receive attempt: an error from the channel, or the
    /// stream ending without a close frame, marks the session disconnected.
    /// A receive that merely found nothing buffered is not a failure and is
    /// not recorded.
    pub fn note_recv_failure(&mut self)
        ensures
            final(self).data == old(self).data,
            !final(self).connected,
    {
        self.connected = false;
    }

    /// Handles one inbound frame: a text frame surfaces its message, a
    /// close frame marks the session disconnected, a ping frame asks for a
    /// pong with the same payload, and every other frame is ignored.
    pub fn respond_msg(&mut self, msg: Frame) -> (r: FrameOutcome)
        ensures
            final(self).data == old(self).data,
            final(self).connected == (old(self).connected && !(msg is Close)),
            r.message == (match msg {
                Frame::Text(m) => Some(m),
                _ => None::<String>,
            }),
            r.pong == (match msg {
                Frame::Ping(d) => Some(d),
                _ => None::<Vec<u8>>,
            }),
    {
        match msg {
            Frame::Text(m) => FrameOutcome { message: Some(m), pong: None },
            Frame::Close => {
                self.force_disconnect();
                FrameOutcome { message: None, pong: None }
            },
            Frame::Ping(d) => FrameOutcome { message: None, pong: Some(d) },
            Frame::Binary(_) => FrameOutcome { message: None, pong: None },
            Frame::Pong(_) => FrameOutcome { message: None, pong: None },
            Frame::Raw(_) => FrameOutcome { message: None, pong: None },
        }
    }
}

/// How many sessions of a roster are disconnected.
pub open spec fn count_disconnected<P>(players: Seq<PlayerCon<P>>) -> nat
    decreases players.len(),
{
    if players.len() == 0 {
        0
    } else {
        count_disconnected(players.drop_last()) + (if players.last().connected {
            0nat
        } else {
            1nat
        })
    }
}

/// A waiting-phase container: caller-defined shared state, the ordered
/// roster of player sessions (join order), and the `reset` flag.
pub struct Lobby<S, P> {
    /// Caller-defined shared state, opaque to the framework.
    pub state: S,
    /// The roster, in join order.
    pub players: Vec<PlayerCon<P>>,
    /// True exactly when the lobby was just created or just returned from
    /// an active phase; cleared only by a caller callback.
    pub reset: bool,
}

impl<S, P> Lobby<S, P> {
    /// A new lobby over the given state and roster, with `reset` set.
    pub fn new(settings: S, players: Vec<PlayerCon<P>>) -> (r: Self)
        ensures
            r.state == settings,
            r.players == players,
            r.reset,
    {
        Lobby { state: settings, players, reset: true }
    }

    /// Appends a session to the roster; its index is the old roster size.
    pub fn join(&mut self, player: PlayerCon<P>)
        ensures
            final(self).state == old(self).state,
            final(self).reset == old(self).reset,
            final(self).players@ == old(self).players@.push(player),
    {
        self.players.push(player);
    }

    /// The session at a player index, for reading and for mutation; the
    /// index is never out of bounds once its bound is established.
    pub fn get_player(&mut self, player: PlayerIndex) -> (r: &mut PlayerCon<P>)
        requires
            player.0 < old(self).players@.len(),
        ensures
            *r == old(self).players@[player.0 as int],
            final(self).state == old(self).state,
            final(self).reset == old(self).reset,
            final(self).players@ == old(self).players@.update(player.0 as int, *final(r)),
    {
        &mut self.players[player.0]
    }

    /// The roster, in join order.
    pub fn players(&self) -> (r: &Vec<PlayerCon<P>>)
        ensures
            *r == self.players,
    {
        &self.players
    }

    /// The roster, for mutation in place; the shared state and the reset
    /// flag are untouched.
    pub fn players_mut(&mut self) -> (r: &mut Vec<PlayerCon<P>>)
        ensures
            *r == old(self).players,
            final(self).players == *final(r),
            final(self).state == old(self).state,
            final(self).reset == old(self).reset,
    {
        &mut self.players
    }

    /// True when the roster is empty, which makes the lobby eligible for
    /// removal from the registry at the next sweep.
    pub fn is_empty(&self) -> (r: bool)
        ensures
            r == (self.players@.len() == 0),
    {
        self.players.len() == 0
    }

    /// One index for each current roster position: the index at position
    /// `k` is `k` itself, so all indices lie in `[0, roster size)` and are
    /// pairwise distinct.
    pub fn player_indices(&self) -> (r: Vec<PlayerIndex>)
        ensures
            r@.len() == self.players@.len(),
            forall|k: int| 0 <= k < r@.len() ==> r@[k].0 == k,
    {
        let mut r: Vec<PlayerIndex> = Vec::new();
        let mut k: usize = 0;
        while k < self.players.len()
            invariant
                k <= self.players@.len(),
                r@.len() == k,
                forall|j: int| 0 <= j < r@.len() ==> r@[j].0 == j,
            decreases self.players@.len() - k,
        {
            r.push(PlayerIndex(k));
            k = k + 1;
        }
        r
    }

    /// Removes the session at `index`; every later session shifts down by
    /// one, which invalidates previously handed-out indices.
    pub fn remove_player(&mut self, index: usize)
        requires
            index < old(self).players@.len(),
        ensures
            final(self).state == old(self).state,
            final(self).reset == old(self).reset,
            final(self).players@ == old(self).players@.remove(index as int),
    {
        self.players.remove(index);
    }

    /// The positions of all disconnected sessions, in descending order:
    /// exactly the disconnected positions, each listed once, the largest
    /// first, so that removing them in this order never invalidates an
    /// index before it is used.
    pub fn disconnected_indices(&self) -> (r: Vec<usize>)
        ensures
            forall|k: int|
                0 <= k < r@.len() ==> r@[k] < self.players@.len()
                    && !self.players@[r@[k] as int].connected,
            forall|k1: int, k2: int| 0 <= k1 < k2 < r@.len() ==> r@[k1] > r@[k2],
            forall|j: int|
                0 <= j < self.players@.len() && !self.players@[j].connected ==> r@.contains(
                    j as usize,
                ),
            r@.len() == count_disconnected(self.players@),
    {
        let ghost all = self.players@;
        let mut r: Vec<usize> = Vec::new();
        let mut idx: usize = self.players.len();
        proof {
            assert(all.subrange(0, all.len() as int) =~= all);
        }
        while idx > 0
            invariant
                idx <= self.players@.len(),
                self.players@ == all,
                forall|k: int|
                    0 <= k < r@.len() ==> idx <= r@[k] < all.len() && !all[r@[k] as int].connected,
                forall|k1: int, k2: int| 0 <= k1 < k2 < r@.len() ==> r@[k1] > r@[k2],
                forall|j: int|
                    idx <= j < all.len() && !all[j].connected ==> r@.contains(j as usize),
                r@.len() + count_disconnected(all.subrange(0, idx as int)) == count_disconnected(
                    all,
                ),
            decreases idx,
        {
            idx = idx - 1;
            proof {
                assert(all.subrange(0, idx + 1).drop_last() =~= all.subrange(0, idx as int));
                assert(all.subrange(0, idx + 1).last() == all[idx as int]);
            }
            if !self.players[idx].connected {
                let ghost r_old = r@;
                r.push(idx);
                proof {
                    assert forall|j: int|
                        idx <= j < all.len() && !all[j].connected implies r@.contains(
                        j as usize,
                    ) by {
                        if j == idx {
                            assert(r@[r@.len() - 1] == j as usize);
                        } else {
                            assert(r_old.contains(j as usize));
                            let k = choose|k: int| 0 <= k < r_old.len() && r_old[k] == j as usize;
                            assert(r@[k] == j as usize);
                        }
                    }
                }
            }
        }
        proof {
            assert(all.subrange(0, 0) =~= Seq::<PlayerCon<P>>::empty());
        }
        r
    }
}

/// A lobby that has left the waiting phase: it owns its lobby exclusively,
/// together with the caller-supplied active-phase behavior value, until the
/// behavior signals completion.
pub struct InGame<S, P, G> {
    /// The lobby, moved out of the registry for the session's duration.
    pub lobby: Lobby<S, P>,
    /// The caller-supplied active-phase behavior value, opaque here.
    pub game_state: G,
}

impl<S, P, G> InGame<S, P, G> {
    /// Starts an active session over the given lobby and behavior value.
    pub fn new(lobby: Lobby<S, P>, game_state: G) -> (r: Self)
        ensures
            r.lobby == lobby,
            r.game_state == game_state,
    {
        InGame { lobby, game_state }
    }

    /// Ends the active session: the same lobby — same state, same roster —
    /// returns, with `reset` set.
    pub fn into_lobby(self) -> (r: Lobby<S, P>)
        ensures
            r.state == self.lobby.state,
            r.players == self.lobby.players,
            r.reset,
    {
        let mut lobby = self.lobby;
        lobby.reset = true;
        lobby
    }
}

/// Strictly descending positions below `n` stay valid while they are
/// consumed one by one: when the entry at `plan[k]` is processed, `k`
/// removals have already happened, and `plan[k]` is still within the
/// shrunken roster of size `n - k`.
pub proof fn lemma_reap_indices_stay_valid(plan: Seq<usize>, n: int)
    requires
        forall|k: int| 0 <= k < plan.len() ==> plan[k] < n,
        forall|k1: int, k2: int| 0 <= k1 < k2 < plan.len() ==> plan[k1] > plan[k2],
    ensures
        forall|k: int| 0 <= k < plan.len() ==> plan[k] < n - k,
{
    assert forall|k: int| 0 <= k < plan.len() implies plan[k] < n - k by {
        lemma_descending_gap(plan, k);
    }
}

/// In a strictly descending sequence, the entry at position `k` lies at
/// least `k` below the first entry.
proof fn lemma_descending_gap(plan: Seq<usize>, k: int)
    requires
        0 <= k < plan.len(),
        forall|k1: int, k2: int| 0 <= k1 < k2 < plan.len() ==> plan[k1] > plan[k2],
    ensures
        plan[k] + k <= plan[0],
    decreases k,
{
    if k > 0 {
        lemma_descending_gap(plan, k - 1);
    }
}

/// Every index handed out by `player_indices` lies in `[0, roster size)`,
/// and no two positions hold the same index.
pub proof fn lemma_player_indices_valid_and_unique<S, P>(lobby: Lobby<S, P>, idx: Seq<PlayerIndex>)
    requires
        idx.len() == lobby.players@.len(),
        forall|k: int| 0 <= k < idx.len() ==> idx[k].0 == k,
    ensures
        forall|k: int| 0 <= k < idx.len() ==> 0 <= #[trigger] idx[k].0 < lobby.players@.len(),
        forall|k1: int, k2: int| 0 <= k1 < k2 < idx.len() ==> idx[k1].0 != idx[k2].0,
{
}

} // verus!
