use vstd::prelude::*;

use crate::codec::{
    spec_button_keys, spec_decode_button, spec_decode_direction, spec_direction_keys,
    spec_valid_button_raw, spec_valid_direction_raw, InputButton, InputDirection,
};
use crate::game_state::GameState;
use crate::globals::{spec_side_of, Facing, Player};
use crate::snapshot::{FrameSnapshot, PlayerSnapshot};

verus! {

/// One primitive of the input injector: a key going down or coming up,
/// named by the ASCII code of its character.
#[derive(Clone, Copy, Debug, PartialEq, Eq, Structural)]
pub enum KeyEvent {
    Down(u8),
    Up(u8),
}

/// Which recorded input field a replay error is about.
#[derive(Clone, Copy, Debug, PartialEq, Eq, Structural)]
pub enum InputField {
    Attack,
    Direction,
}

/// Why one player's update for one replayed frame was abandoned. Recorded
/// data is assumed complete for every persisted frame, so a hole in it is
/// a hard error, as is a raw value no decoding accepts and an unreadable
/// live facing flag.
#[derive(Clone, Copy, Debug, PartialEq, Eq, Structural)]
pub enum ReplayError {
    MissingInput(Player, InputField),
    UnknownEncoding(Player, InputField, u16),
    MissingFacing(Player),
}

/// Whether a key stands in a key sequence.
pub open spec fn spec_has_key(keys: Seq<u8>, key: u8) -> bool
    decreases keys.len(),
{
    if keys.len() == 0 {
        false
    } else {
        keys.last() == key || spec_has_key(keys.drop_last(), key)
    }
}

/// `spec_has_key` agrees with sequence membership.
pub proof fn lemma_has_key_is_contains(keys: Seq<u8>, key: u8)
    ensures
        spec_has_key(keys, key) == keys.contains(key),
    decreases keys.len(),
{
    if keys.len() == 0 {
    } else {
        let head = keys.drop_last();
        lemma_has_key_is_contains(head, key);
        if keys.contains(key) {
            let i = choose|i: int| 0 <= i < keys.len() && keys[i] == key;
            if i < keys.len() - 1 {
                assert(head[i] == key);
                assert(head.contains(key));
            }
        }
        if head.contains(key) {
            let i = choose|i: int| 0 <= i < head.len() && head[i] == key;
            assert(keys[i] == key);
            assert(keys.contains(key));
        }
        if keys.last() == key {
            assert(keys[keys.len() - 1] == key);
            assert(keys.contains(key));
        }
    }
}

/// Whether an event stands in an event sequence.
pub open spec fn spec_has_event(events: Seq<KeyEvent>, event: KeyEvent) -> bool
    decreases events.len(),
{
    if events.len() == 0 {
        false
    } else {
        events.last() == event || spec_has_event(events.drop_last(), event)
    }
}

/// `spec_has_event` agrees with sequence membership.
pub proof fn lemma_has_event_is_contains(events: Seq<KeyEvent>, event: KeyEvent)
    ensures
        spec_has_event(events, event) == events.contains(event),
    decreases events.len(),
{
    if events.len() == 0 {
    } else {
        let head = events.drop_last();
        lemma_has_event_is_contains(head, event);
        if events.contains(event) {
            let i = choose|i: int| 0 <= i < events.len() && events[i] == event;
            if i < events.len() - 1 {
                assert(head[i] == event);
                assert(head.contains(event));
            }
        }
        if head.contains(event) {
            let i = choose|i: int| 0 <= i < head.len() && head[i] == event;
            assert(events[i] == event);
            assert(events.contains(event));
        }
        if events.last() == event {
            assert(events[events.len() - 1] == event);
            assert(events.contains(event));
        }
    }
}

proof fn lemma_has_event_concat(a: Seq<KeyEvent>, b: Seq<KeyEvent>, event: KeyEvent)
    ensures
        spec_has_event(a + b, event) == (spec_has_event(a, event) || spec_has_event(b, event)),
    decreases b.len(),
{
    if b.len() == 0 {
        assert(a + b =~= a);
    } else {
        lemma_has_event_concat(a, b.drop_last(), event);
        assert((a + b).drop_last() =~= a + b.drop_last());
        assert((a + b).last() == b.last());
    }
}

/// The keys released by one frame: every key held before and not wanted
/// any more, in the order they were held.
pub open spec fn spec_releases(prev: Seq<u8>, next: Seq<u8>) -> Seq<KeyEvent>
    decreases prev.len(),
{
    if prev.len() == 0 {
        Seq::<KeyEvent>::empty()
    } else {
        let rest = spec_releases(prev.drop_last(), next);
        if spec_has_key(next, prev.last()) {
            rest
        } else {
            rest.push(KeyEvent::Up(prev.last()))
        }
    }
}

/// The keys pressed by one frame: every key wanted and not already held,
/// in the order they are wanted.
pub open spec fn spec_presses(prev: Seq<u8>, next: Seq<u8>) -> Seq<KeyEvent>
    decreases next.len(),
{
    if next.len() == 0 {
        Seq::<KeyEvent>::empty()
    } else {
        let rest = spec_presses(prev, next.drop_last());
        if spec_has_key(prev, next.last()) {
            rest
        } else {
            rest.push(KeyEvent::Down(next.last()))
        }
    }
}

/// Everything one frame does to the held keys: releases of stale keys
/// first, presses of fresh keys after, keys held in both states
/// untouched.
pub open spec fn spec_key_transitions(prev: Seq<u8>, next: Seq<u8>) -> Seq<KeyEvent> {
    spec_releases(prev, next) + spec_presses(prev, next)
}

proof fn lemma_release_membership(prev: Seq<u8>, next: Seq<u8>, key: u8)
    ensures
        spec_has_event(spec_releases(prev, next), KeyEvent::Up(key)) == (spec_has_key(prev, key)
            && !spec_has_key(next, key)),
        !spec_has_event(spec_releases(prev, next), KeyEvent::Down(key)),
    decreases prev.len(),
{
    if prev.len() == 0 {
    } else {
        let head = prev.drop_last();
        lemma_release_membership(head, next, key);
        let rest = spec_releases(head, next);
        if !spec_has_key(next, prev.last()) {
            assert(spec_releases(prev, next) == rest.push(KeyEvent::Up(prev.last())));
            assert(rest.push(KeyEvent::Up(prev.last())).drop_last() =~= rest);
        }
    }
}

proof fn lemma_press_membership(prev: Seq<u8>, next: Seq<u8>, key: u8)
    ensures
        spec_has_event(spec_presses(prev, next), KeyEvent::Down(key)) == (spec_has_key(next, key)
            && !spec_has_key(prev, key)),
        !spec_has_event(spec_presses(prev, next), KeyEvent::Up(key)),
    decreases next.len(),
{
    if next.len() == 0 {
    } else {
        let head = next.drop_last();
        lemma_press_membership(prev, head, key);
        let rest = spec_presses(prev, head);
        if !spec_has_key(prev, next.last()) {
            assert(spec_presses(prev, next) == rest.push(KeyEvent::Down(next.last())));
            assert(rest.push(KeyEvent::Down(next.last())).drop_last() =~= rest);
        }
    }
}

/// Exactly which keys one frame touches: a key is released if and only if
/// it was held and is no longer wanted, and pressed if and only if it is
/// wanted and was not held. In particular a key wanted both before and
/// after sees no event at all: the synthesized transitions are minimal, a
/// held key never flickers.
pub proof fn lemma_transitions_exact(prev: Seq<u8>, next: Seq<u8>, key: u8)
    ensures
        spec_has_event(spec_key_transitions(prev, next), KeyEvent::Up(key)) == (spec_has_key(
            prev,
            key,
        ) && !spec_has_key(next, key)),
        spec_has_event(spec_key_transitions(prev, next), KeyEvent::Down(key)) == (spec_has_key(
            next,
            key,
        ) && !spec_has_key(prev, key)),
{
    lemma_release_membership(prev, next, key);
    lemma_press_membership(prev, next, key);
    lemma_has_event_concat(
        spec_releases(prev, next),
        spec_presses(prev, next),
        KeyEvent::Up(key),
    );
    lemma_has_event_concat(
        spec_releases(prev, next),
        spec_presses(prev, next),
        KeyEvent::Down(key),
    );
}

/// A frame whose wanted keys are exactly the held keys emits no event at
/// all.
pub proof fn lemma_no_transitions_when_held(prev: Seq<u8>, next: Seq<u8>)
    requires
        forall|key: u8| spec_has_key(prev, key) == spec_has_key(next, key),
    ensures
        spec_key_transitions(prev, next) == Seq::<KeyEvent>::empty(),
{
    lemma_releases_empty(prev, next);
    lemma_presses_empty(prev, next);
    assert(spec_key_transitions(prev, next) =~= Seq::<KeyEvent>::empty());
}

proof fn lemma_releases_empty(prev: Seq<u8>, next: Seq<u8>)
    requires
        forall|key: u8| spec_has_key(prev, key) ==> spec_has_key(next, key),
    ensures
        spec_releases(prev, next) == Seq::<KeyEvent>::empty(),
    decreases prev.len(),
{
    if prev.len() == 0 {
    } else {
        let head = prev.drop_last();
        assert forall|key: u8| spec_has_key(head, key) implies spec_has_key(next, key) by {
            assert(spec_has_key(prev, key));
        }
        lemma_releases_empty(head, next);
        assert(spec_has_key(prev, prev.last()));
    }
}

proof fn lemma_presses_empty(prev: Seq<u8>, next: Seq<u8>)
    requires
        forall|key: u8| spec_has_key(next, key) ==> spec_has_key(prev, key),
    ensures
        spec_presses(prev, next) == Seq::<KeyEvent>::empty(),
    decreases next.len(),
{
    if next.len() == 0 {
    } else {
        let head = next.drop_last();
        assert forall|key: u8| spec_has_key(head, key) implies spec_has_key(prev, key) by {
            assert(spec_has_key(next, key));
        }
        lemma_presses_empty(prev, head);
        assert(spec_has_key(next, next.last()));
    }
}

fn holds_key(keys: &Vec<u8>, key: u8) -> (r: bool)
    ensures
        r == spec_has_key(keys@, key),
{
    let mut found = false;
    let mut i: usize = 0;
    while i < keys.len()
        invariant
            0 <= i <= keys@.len(),
            found == spec_has_key(keys@.take(i as int), key),
        decreases keys@.len() - i,
    {
        proof {
            assert(keys@.take(i + 1).drop_last() =~= keys@.take(i as int));
            assert(keys@.take(i + 1).last() == keys@[i as int]);
        }
        if keys[i] == key {
            found = true;
        }
        i = i + 1;
    }
    proof {
        assert(keys@.take(keys@.len() as int) =~= keys@);
    }
    found
}

/// Computes the transitions between two held-key states: releases of keys
/// no longer wanted, then presses of keys not yet held. Keys present in
/// both states are left untouched.
pub fn key_transitions(prev: &Vec<u8>, next: &Vec<u8>) -> (r: Vec<KeyEvent>)
    ensures
        r@ == spec_key_transitions(prev@, next@),
{
    let mut out: Vec<KeyEvent> = Vec::new();
    let mut i: usize = 0;
    while i < prev.len()
        invariant
            0 <= i <= prev@.len(),
            out@ == spec_releases(prev@.take(i as int), next@),
        decreases prev@.len() - i,
    {
        proof {
            assert(prev@.take(i + 1).drop_last() =~= prev@.take(i as int));
            assert(prev@.take(i + 1).last() == prev@[i as int]);
        }
        let key = prev[i];
        if !holds_key(next, key) {
            out.push(KeyEvent::Up(key));
        }
        i = i + 1;
    }
    proof {
        assert(prev@.take(prev@.len() as int) =~= prev@);
    }
    let mut j: usize = 0;
    while j < next.len()
        invariant
            0 <= j <= next@.len(),
            out@ == spec_releases(prev@, next@) + spec_presses(prev@, next@.take(j as int)),
        decreases next@.len() - j,
    {
        proof {
            assert(next@.take(j + 1).drop_last() =~= next@.take(j as int));
            assert(next@.take(j + 1).last() == next@[j as int]);
        }
        let key = next[j];
        if !holds_key(prev, key) {
            out.push(KeyEvent::Down(key));
            proof {
                assert(out@ =~= spec_releases(prev@, next@) + spec_presses(
                    prev@,
                    next@.take(j as int),
                ).push(KeyEvent::Down(key)));
            }
        }
        j = j + 1;
    }
    proof {
        assert(next@.take(next@.len() as int) =~= next@);
    }
    out
}

/// The keys the synthesizer last held down for a player's buttons.
pub open spec fn spec_prev_button_keys(prev_button: Option<InputButton>, player: Player) -> Seq<
    u8,
> {
    match prev_button {
        Some(b) => spec_button_keys(b, player),
        None => Seq::<u8>::empty(),
    }
}

/// The keys the synthesizer last held down for a player's direction. With
/// no emitted direction or no emitted side yet, nothing is held.
pub open spec fn spec_prev_direction_keys(
    prev_direction: Option<InputDirection>,
    prev_side: Option<Player>,
    player: Player,
) -> Seq<u8> {
    match (prev_direction, prev_side) {
        (Some(d), Some(s)) => spec_direction_keys(d, player, s),
        _ => Seq::<u8>::empty(),
    }
}

/// What one player's share of one replayed frame produces from the
/// recorded fields, the live facing, and the previously emitted state:
/// either the key events together with the symbolic values and side they
/// were computed against, or the error that abandons this player's
/// update.
pub open spec fn spec_replay_player_result(
    source: PlayerSnapshot,
    live_facing: Option<Facing>,
    prev_button: Option<InputButton>,
    prev_direction: Option<InputDirection>,
    prev_side: Option<Player>,
    player: Player,
) -> Result<(Seq<KeyEvent>, InputButton, InputDirection, Player), ReplayError> {
    match (source.input_attack, source.input_direction) {
        (None, _) => Err(ReplayError::MissingInput(player, InputField::Attack)),
        (Some(_), None) => Err(ReplayError::MissingInput(player, InputField::Direction)),
        (Some(raw_button), Some(raw_direction)) => if !spec_valid_button_raw(raw_button) {
            Err(ReplayError::UnknownEncoding(player, InputField::Attack, raw_button))
        } else if !(spec_valid_direction_raw(raw_direction) || raw_direction == 0) {
            Err(ReplayError::UnknownEncoding(player, InputField::Direction, raw_direction))
        } else {
            match live_facing {
                None => Err(ReplayError::MissingFacing(player)),
                Some(f) => {
                    let button = spec_decode_button(raw_button);
                    let direction = spec_decode_direction(raw_direction);
                    let side = spec_side_of(f);
                    let events = spec_key_transitions(
                        spec_prev_button_keys(prev_button, player),
                        spec_button_keys(button, player),
                    ) + spec_key_transitions(
                        spec_prev_direction_keys(prev_direction, prev_side, player),
                        spec_direction_keys(direction, player, side),
                    );
                    Ok((events, button, direction, side))
                },
            }
        },
    }
}

/// The live facing the synthesizer maps a physical player's keys against.
pub open spec fn spec_live_facing(s: GameState, player: Player) -> Option<Facing> {
    match player {
        Player::One => s.players.0.facing,
        Player::Two => s.players.1.facing,
    }
}

pub open spec fn spec_prev_button_of(s: GameState, player: Player) -> Option<InputButton> {
    match player {
        Player::One => s.p1_previous_button,
        Player::Two => s.p2_previous_button,
    }
}

pub open spec fn spec_prev_direction_of(s: GameState, player: Player) -> Option<InputDirection> {
    match player {
        Player::One => s.p1_previous_direction,
        Player::Two => s.p2_previous_direction,
    }
}

pub open spec fn spec_prev_side_of(s: GameState, player: Player) -> Option<Player> {
    match player {
        Player::One => s.p1_previous_side,
        Player::Two => s.p2_previous_side,
    }
}

/// The sampling state after one player's successful frame: the emitted
/// symbolic values and side become that player's previous state for the
/// next diff.
pub open spec fn spec_with_prev(
    s: GameState,
    player: Player,
    button: InputButton,
    direction: InputDirection,
    side: Player,
) -> GameState {
    match player {
        Player::One => GameState {
            p1_previous_button: Some(button),
            p1_previous_direction: Some(direction),
            p1_previous_side: Some(side),
            ..s
        },
        Player::Two => GameState {
            p2_previous_button: Some(button),
            p2_previous_direction: Some(direction),
            p2_previous_side: Some(side),
            ..s
        },
    }
}

/// One player's whole replay step: the state it leaves behind and the
/// events or error it returns. A failed step leaves the state untouched.
pub open spec fn spec_replay_player(s: GameState, source: PlayerSnapshot, player: Player) -> (
    GameState,
    Result<Seq<KeyEvent>, ReplayError>,
) {
    match spec_replay_player_result(
        source,
        spec_live_facing(s, player),
        spec_prev_button_of(s, player),
        spec_prev_direction_of(s, player),
        spec_prev_side_of(s, player),
        player,
    ) {
        Ok((events, button, direction, side)) => (
            spec_with_prev(s, player, button, direction, side),
            Ok(events),
        ),
        Err(e) => (s, Err(e)),
    }
}

/// The recorded player a physical player replays: with sides reversed,
/// each player replays the other's recorded data.
pub open spec fn spec_replay_source(
    frame: FrameSnapshot,
    player: Player,
    reverse_sides: bool,
) -> PlayerSnapshot {
    match (player, reverse_sides) {
        (Player::One, false) => frame.players.0,
        (Player::One, true) => frame.players.1,
        (Player::Two, false) => frame.players.1,
        (Player::Two, true) => frame.players.0,
    }
}

/// A whole frame's replay: player one's step, then player two's over the
/// state it left.
pub open spec fn spec_replay_frame(s: GameState, frame: FrameSnapshot, reverse_sides: bool) -> (
    GameState,
    Result<Seq<KeyEvent>, ReplayError>,
    Result<Seq<KeyEvent>, ReplayError>,
) {
    let (s1, r1) = spec_replay_player(
        s,
        spec_replay_source(frame, Player::One, reverse_sides),
        Player::One,
    );
    let (s2, r2) = spec_replay_player(
        s1,
        spec_replay_source(frame, Player::Two, reverse_sides),
        Player::Two,
    );
    (s2, r1, r2)
}

/// The recorded frame with the two players' data swapped.
pub open spec fn spec_swap_players(frame: FrameSnapshot) -> FrameSnapshot {
    FrameSnapshot { players: (frame.players.1, frame.players.0), ..frame }
}

/// Replaying a frame with sides reversed leaves exactly the state and
/// emits exactly the key events of replaying the same frame with the two
/// players' recorded data swapped and no reversal.
pub proof fn lemma_side_reversal(s: GameState, frame: FrameSnapshot)
    ensures
        spec_replay_frame(s, frame, true) == spec_replay_frame(s, spec_swap_players(frame), false),
{
}

/// Both players' outcomes for one replayed frame. One player's error
/// abandons that player's update alone; the other player's events still
/// stand.
pub struct FrameReplayOutcome {
    pub p1: Result<Vec<KeyEvent>, ReplayError>,
    pub p2: Result<Vec<KeyEvent>, ReplayError>,
}

impl GameState {
    /// One player's share of one replayed frame: decodes the recorded
    /// raw values, maps them to keys against the live facing, and diffs
    /// against the keys this synthesizer last emitted for that player.
    /// On success the emitted values become the player's previous state;
    /// on error nothing changes.
    pub fn replay_player(&mut self, source: &PlayerSnapshot, player: Player) -> (r: Result<
        Vec<KeyEvent>,
        ReplayError,
    >)
        ensures
            *final(self) == spec_replay_player(*old(self), *source, player).0,
            (match spec_replay_player(*old(self), *source, player).1 {
                Ok(events) => r matches Ok(v) && v@ == events,
                Err(e) => r == Err::<Vec<KeyEvent>, ReplayError>(e),
            }),
    {
        let raw_button = match source.input_attack {
            Some(raw) => raw,
            None => {
                return Err(ReplayError::MissingInput(player, InputField::Attack));
            },
        };
        let raw_direction = match source.input_direction {
            Some(raw) => raw,
            None => {
                return Err(ReplayError::MissingInput(player, InputField::Direction));
            },
        };
        let button = match crate::codec::decode_button(raw_button) {
            Ok(b) => b,
            Err(_) => {
                return Err(ReplayError::UnknownEncoding(player, InputField::Attack, raw_button));
            },
        };
        let direction = match crate::codec::decode_direction(raw_direction) {
            Ok(d) => d,
            Err(_) => {
                return Err(
                    ReplayError::UnknownEncoding(player, InputField::Direction, raw_direction),
                );
            },
        };
        let facing = match self.live_facing(player) {
            Some(f) => f,
            None => {
                return Err(ReplayError::MissingFacing(player));
            },
        };
        let side = facing.to_side();
        let prev_button_keys: Vec<u8> = match self.prev_button_of(player) {
            Some(b) => b.input_keys(&player),
            None => Vec::new(),
        };
        let next_button_keys = button.input_keys(&player);
        let prev_direction_keys: Vec<u8> = match (
            self.prev_direction_of(player),
            self.prev_side_of(player),
        ) {
            (Some(d), Some(s)) => d.input_keys(&player, s),
            _ => Vec::new(),
        };
        let next_direction_keys = direction.input_keys(&player, side);
        let mut events = key_transitions(&prev_button_keys, &next_button_keys);
        let mut direction_events = key_transitions(&prev_direction_keys, &next_direction_keys);
        events.append(&mut direction_events);
        match player {
            Player::One => {
                self.p1_previous_button = Some(button);
                self.p1_previous_direction = Some(direction);
                self.p1_previous_side = Some(side);
            },
            Player::Two => {
                self.p2_previous_button = Some(button);
                self.p2_previous_direction = Some(direction);
                self.p2_previous_side = Some(side);
            },
        }
        Ok(events)
    }

    fn live_facing(&self, player: Player) -> (r: Option<Facing>)
        ensures
            r == spec_live_facing(*self, player),
    {
        match player {
            Player::One => self.players.0.facing,
            Player::Two => self.players.1.facing,
        }
    }

    fn prev_button_of(&self, player: Player) -> (r: Option<InputButton>)
        ensures
            r == spec_prev_button_of(*self, player),
    {
        match player {
            Player::One => self.p1_previous_button,
            Player::Two => self.p2_previous_button,
        }
    }

    fn prev_direction_of(&self, player: Player) -> (r: Option<InputDirection>)
        ensures
            r == spec_prev_direction_of(*self, player),
    {
        match player {
            Player::One => self.p1_previous_direction,
            Player::Two => self.p2_previous_direction,
        }
    }

    fn prev_side_of(&self, player: Player) -> (r: Option<Player>)
        ensures
            r == spec_prev_side_of(*self, player),
    {
        match player {
            Player::One => self.p1_previous_side,
            Player::Two => self.p2_previous_side,
        }
    }

    /// Replays one recorded frame for both players: each player's raw
    /// values are decoded, mapped to keys against that player's live
    /// facing, and diffed against the keys last emitted for them. With
    /// `reverse_sides` the players replay each other's recorded data.
    /// A failing player leaves their previous state untouched and does
    /// not stop the other player's update.
    pub fn replay(&mut self, frame: &FrameSnapshot, reverse_sides: bool) -> (r:
        FrameReplayOutcome)
        ensures
            *final(self) == spec_replay_frame(*old(self), *frame, reverse_sides).0,
            (match spec_replay_frame(*old(self), *frame, reverse_sides).1 {
                Ok(events) => r.p1 matches Ok(v) && v@ == events,
                Err(e) => r.p1 == Err::<Vec<KeyEvent>, ReplayError>(e),
            }),
            (match spec_replay_frame(*old(self), *frame, reverse_sides).2 {
                Ok(events) => r.p2 matches Ok(v) && v@ == events,
                Err(e) => r.p2 == Err::<Vec<KeyEvent>, ReplayError>(e),
            }),
    {
        let source_one = if reverse_sides {
            frame.players.1
        } else {
            frame.players.0
        };
        let source_two = if reverse_sides {
            frame.players.0
        } else {
            frame.players.1
        };
        let p1 = self.replay_player(&source_one, Player::One);
        let p2 = self.replay_player(&source_two, Player::Two);
        FrameReplayOutcome { p1, p2 }
    }
}

} // verus!
