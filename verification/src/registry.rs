//! The registry: an indexed collection of optional lobby slots.
//!
//! Slot indices are the lobby IDs shared with participants, so they must
//! stay stable: removing a lobby empties its slot instead of shifting, and
//! a new lobby reuses the lowest empty slot before a new one is appended.

use vstd::prelude::*;

use crate::game::{Lobby, PlayerCon, PlayerIndex};
use crate::join::JoinTarget;

verus! {

/// Inserts `lobby` at the lowest empty slot, or appends a slot when none
/// is empty, and returns the slot index.  No other slot changes.
pub fn add_lobby<S, P>(lobbies: &mut Vec<Option<Lobby<S, P>>>, lobby: Lobby<S, P>) -> (i: usize)
    ensures
        i <= old(lobbies)@.len(),
        forall|j: int| 0 <= j < i ==> old(lobbies)@[j] is Some,
        i < old(lobbies)@.len() ==> old(lobbies)@[i as int] is None && final(lobbies)@ == old(
            lobbies,
        )@.update(i as int, Some(lobby)),
        i == old(lobbies)@.len() ==> final(lobbies)@ == old(lobbies)@.push(Some(lobby)),
{
    let n = lobbies.len();
    let mut i: usize = 0;
    while i < n && lobbies[i].is_some()
        invariant
            n == lobbies@.len(),
            lobbies@ == old(lobbies)@,
            i <= n,
            forall|j: int| 0 <= j < i ==> lobbies@[j] is Some,
        decreases n - i,
    {
        i = i + 1;
    }
    if i < n {
        lobbies[i] = Some(lobby);
    } else {
        lobbies.push(Some(lobby));
    }
    i
}

/// Takes the lobby out of slot `i`, leaving the slot empty.  This is how a
/// lobby leaves the registry, whether to become an active session or to be
/// dropped once its roster is empty.
pub fn take_lobby<S, P>(lobbies: &mut Vec<Option<Lobby<S, P>>>, i: usize) -> (r: Option<
    Lobby<S, P>,
>)
    requires
        i < old(lobbies)@.len(),
    ensures
        r == old(lobbies)@[i as int],
        final(lobbies)@ == old(lobbies)@.update(i as int, None),
{
    let slot = &mut lobbies[i];
    slot.take()
}

/// Empties slot `i` exactly when it holds a lobby whose roster is empty,
/// and reports whether it did.  This is the sweep's removal rule: a lobby
/// that reaches zero participants leaves the registry, and its slot is
/// reusable from then on.
pub fn clear_if_empty<S, P>(lobbies: &mut Vec<Option<Lobby<S, P>>>, i: usize) -> (removed: bool)
    requires
        i < old(lobbies)@.len(),
    ensures
        removed == (old(lobbies)@[i as int] matches Some(l) && l.players@.len() == 0),
        removed ==> final(lobbies)@ == old(lobbies)@.update(i as int, None),
        !removed ==> final(lobbies)@ == old(lobbies)@,
{
    let empty = match &lobbies[i] {
        Some(l) => l.players.len() == 0,
        None => false,
    };
    if empty {
        lobbies[i] = None;
        true
    } else {
        false
    }
}

/// Appends the joiner to the lobby in slot `i` when that slot exists and
/// is occupied, and returns the joiner's player index — the old roster
/// size.  Otherwise nothing changes, the result is `None`, and the
/// connection inside `player` is dropped: a join to a nonexistent or
/// since-vacated slot fails silently.
pub fn join_slot<S, P>(
    lobbies: &mut Vec<Option<Lobby<S, P>>>,
    i: usize,
    player: PlayerCon<P>,
) -> (r: Option<PlayerIndex>)
    ensures
        (i < old(lobbies)@.len() && old(lobbies)@[i as int] is Some) <==> r is Some,
        i < old(lobbies)@.len() ==> (old(lobbies)@[i as int] matches Some(l0) ==> {
            &&& r == Some(PlayerIndex(l0.players@.len() as usize))
            &&& final(lobbies)@.len() == old(lobbies)@.len()
            &&& forall|j: int|
                0 <= j < old(lobbies)@.len() && j != i ==> final(lobbies)@[j] == old(lobbies)@[j]
            &&& final(lobbies)@[i as int] matches Some(l1) && l1.state == l0.state && l1.reset
                == l0.reset && l1.players@ == l0.players@.push(player)
        }),
        r is None ==> final(lobbies)@ == old(lobbies)@,
{
    if i >= lobbies.len() {
        return None;
    }
    let slot = &mut lobbies[i];
    match slot.take() {
        None => {
            proof {
                assert(lobbies@ =~= old(lobbies)@);
            }
            None
        },
        Some(mut l) => {
            let n = l.players.len();
            l.join(player);
            lobbies[i] = Some(l);
            Some(PlayerIndex(n))
        },
    }
}

/// Routes one parsed join selector.
///
/// For `New`, a lobby is created over `new_state` with the joiner as its
/// only participant and inserted by the lowest-empty-slot rule; the result
/// is its slot and player index 0.  For `Slot(i)`, the joiner is appended
/// to the lobby in slot `i` when that slot exists and is occupied, and the
/// result is `i` and the joiner's position; otherwise nothing changes, the
/// result is `None`, and the connection inside `player` is dropped.  For
/// `Invalid`, nothing changes and the result is `None`.
pub fn create_or_join<S, P>(
    lobbies: &mut Vec<Option<Lobby<S, P>>>,
    target: JoinTarget,
    new_state: S,
    player: PlayerCon<P>,
) -> (r: Option<(usize, PlayerIndex)>)
    ensures
        target is New ==> (r matches Some(p) && {
            let slot = p.0 as int;
            &&& p.1.0 == 0
            &&& 0 <= slot <= old(lobbies)@.len()
            &&& forall|j: int| 0 <= j < slot ==> old(lobbies)@[j] is Some
            &&& slot < old(lobbies)@.len() ==> old(lobbies)@[slot] is None
            &&& final(lobbies)@.len() == (if slot == old(lobbies)@.len() {
                slot + 1
            } else {
                old(lobbies)@.len() as int
            })
            &&& forall|j: int|
                0 <= j < old(lobbies)@.len() && j != slot ==> final(lobbies)@[j] == old(
                    lobbies,
                )@[j]
            &&& final(lobbies)@[slot] matches Some(l) && l.state == new_state && l.players@
                == seq![player] && l.reset
        }),
        target matches JoinTarget::Slot(i) ==> {
            &&& (i < old(lobbies)@.len() && old(lobbies)@[i as int] is Some) <==> r is Some
            &&& i < old(lobbies)@.len() ==> (old(lobbies)@[i as int] matches Some(l0) ==> {
                &&& r == Some((i, PlayerIndex(l0.players@.len() as usize)))
                &&& final(lobbies)@.len() == old(lobbies)@.len()
                &&& forall|j: int|
                    0 <= j < old(lobbies)@.len() && j != i ==> final(lobbies)@[j] == old(
                        lobbies,
                    )@[j]
                &&& final(lobbies)@[i as int] matches Some(l1) && l1.state == l0.state
                    && l1.reset == l0.reset && l1.players@ == l0.players@.push(player)
            })
            &&& r is None ==> final(lobbies)@ == old(lobbies)@
        },
        target is Invalid ==> r is None && final(lobbies)@ == old(lobbies)@,
{
    match target {
        JoinTarget::Invalid => None,
        JoinTarget::New => {
            let mut players: Vec<PlayerCon<P>> = Vec::new();
            players.push(player);
            proof {
                assert(players@ =~= seq![player]);
            }
            let lobby = Lobby::new(new_state, players);
            let i = add_lobby(lobbies, lobby);
            Some((i, PlayerIndex(0)))
        },
        JoinTarget::Slot(i) => {
            match join_slot(lobbies, i, player) {
                None => None,
                Some(pi) => Some((i, pi)),
            }
        },
    }
}

/// One lobby's round trip through an active session, as the registry sees
/// it: taking the lobby leaves its slot empty for the whole session, and
/// what returns to the registry when the session ends is that same lobby —
/// the same state and the same roster — with `reset` set.
///
/// The hypotheses are exactly what `take_lobby`, `InGame::into_lobby` and
/// `add_lobby` ensure for the three steps of the transition.
pub proof fn lemma_active_session_round_trip<S, P>(
    before: Seq<Option<Lobby<S, P>>>,
    i: int,
    lobby: Lobby<S, P>,
    during: Seq<Option<Lobby<S, P>>>,
    returned: Lobby<S, P>,
    after: Seq<Option<Lobby<S, P>>>,
    j: int,
)
    requires
        0 <= i < before.len(),
        before[i] == Some(lobby),
        during == before.update(i, None),
        returned.state == lobby.state,
        returned.players == lobby.players,
        returned.reset,
        0 <= j <= during.len(),
        j < during.len() ==> after == during.update(j, Some(returned)),
        j == during.len() ==> after == during.push(Some(returned)),
    ensures
        during[i] is None,
        after[j] matches Some(l) && l.state == lobby.state && l.players == lobby.players
            && l.reset,
{
}

} // verus!
