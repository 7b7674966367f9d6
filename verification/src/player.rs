use rand::RngExt;
use vstd::prelude::*;

use crate::apis::{PlayMode, PlayerCommand, PlayerConfig, PlayerEvent, Resource};

verus! {

/// Something the player asks its audio output or its listeners to do.
#[derive(Debug)]
pub enum PlayerEffect<Vol> {
    /// Set the output volume to a value.
    SetVolume(Vol),
    /// Change the output volume by a delta.
    AdjustVolume(Vol),
    /// Pause the output.
    Pause,
    /// Resume the output.
    Resume,
    /// Drop whatever the output holds and play this resource.
    Play(Resource),
    /// Stop the output and drop what it holds.
    Stop,
    /// Send this event to the listeners.
    Emit(PlayerEvent),
}

/// What the player reacts to.
#[derive(Debug)]
pub enum PlayerInput<Vol> {
    /// The periodic check of the output, with whether it has nothing left to play.
    Tick { sink_empty: bool },
    /// A command from a client.
    Command(PlayerCommand<Vol>),
}

/// The playlist state of the player.
pub struct PlayerManager<Vol> {
    resources: Vec<Resource>,
    curr_resource_index: Option<usize>,
    config: PlayerConfig<Vol>,
    /// List of resources index played in history.
    ///
    /// The most recent played resource is at the tail of history.
    play_history: Vec<usize>,
    /// The index of resource in `play_history`, used to move back and forth in
    /// shuffle mode.
    shuffle_mode_play_history_index: usize,
}

/// The abstract state of a [`PlayerManager`].
pub struct PlayerModel<Vol> {
    pub resources: Seq<Resource>,
    pub curr: Option<usize>,
    pub config: PlayerConfig<Vol>,
    pub history: Seq<usize>,
    pub cursor: usize,
}

/// A transition of the player: the next state and what it asks for.
pub type Transition<Vol> = (PlayerModel<Vol>, Seq<PlayerEffect<Vol>>);

impl<Vol> PlayerModel<Vol> {
    pub open spec fn len(self) -> int {
        self.resources.len() as int
    }

    pub open spec fn mode(self) -> PlayMode {
        self.config.play_mode
    }

    /// The invariant that every operation keeps.
    pub open spec fn wf(self) -> bool {
        &&& self.wf_shape()
        &&& self.history.len() <= usize::MAX
    }

    /// The invariant but for the bound on the history length, which a history
    /// held in memory meets by itself: the current index is a resource, with a
    /// non-empty list the history records resources only, and no resource is
    /// recorded twice in a row.
    pub open spec fn wf_shape(self) -> bool {
        &&& self.resources.len() <= usize::MAX
        &&& (self.curr matches Some(i) ==> i < self.resources.len())
        &&& (self.resources.len() > 0 ==> forall|k: int|
            0 <= k < self.history.len() ==> #[trigger] self.history[k] < self.resources.len())
        &&& forall|k: int, l: int|
            #![trigger self.history[k], self.history[l]]
            0 <= k && l == k + 1 && l < self.history.len() ==> self.history[k] != self.history[l]
    }

    /// A random draw that advancing can use: an index below the number of
    /// resources, any index when there are none.
    pub open spec fn valid_pick(self, pick: usize) -> bool {
        pick < self.resources.len() || self.resources.len() == 0
    }

    /// Advancing in shuffle mode subtracts one from the history length, which
    /// must not be zero there.
    pub open spec fn can_advance(self) -> bool {
        !(self.mode() == PlayMode::Shuffle && self.resources.len() > 1 && self.history.len() == 0)
    }

    /// Whether advancing draws a random resource.
    pub open spec fn needs_pick(self) -> bool {
        &&& self.mode() == PlayMode::Shuffle
        &&& self.resources.len() > 1
        &&& self.cursor + 1 >= self.history.len()
    }

    pub open spec fn with_curr(self, curr: Option<usize>) -> PlayerModel<Vol> {
        PlayerModel { curr, ..self }
    }

    pub open spec fn with_cursor(self, cursor: usize) -> PlayerModel<Vol> {
        PlayerModel { cursor, ..self }
    }

    /// The effects of playing the resource at `index`, if there is one.
    pub open spec fn play_effects(self, index: int) -> Seq<PlayerEffect<Vol>> {
        if 0 <= index < self.resources.len() {
            seq![PlayerEffect::Play(self.resources[index])]
        } else {
            seq![]
        }
    }

    /// Play the resource at `index`, recording it at the tail of the history
    /// unless it is already there.
    pub open spec fn play_at(self, index: usize) -> Transition<Vol> {
        let pushed = self.history.len() == 0 || self.history.last() != index;
        let history = if pushed { self.history.push(index) } else { self.history };
        let cursor = if pushed && self.mode() == PlayMode::Shuffle {
            (history.len() - 1) as usize
        } else {
            self.cursor
        };
        (PlayerModel { history, cursor, ..self }, self.play_effects(index as int))
    }

    /// Play the resource recorded at `history_index` in the history, leaving the
    /// state as it is.
    pub open spec fn play_in_history(self, history_index: int) -> Seq<PlayerEffect<Vol>> {
        if 0 <= history_index < self.history.len() {
            self.play_effects(self.history[history_index] as int)
        } else {
            seq![]
        }
    }

    pub open spec fn stop(self) -> Transition<Vol> {
        (self.with_curr(None), seq![PlayerEffect::Stop, PlayerEffect::Emit(PlayerEvent::Stopped)])
    }

    /// The index that comes after the current one in an ordered mode.
    pub open spec fn next_in_order(self) -> usize {
        let current = match self.curr {
            Some(i) => i as int,
            None => 0,
        };
        if current < self.len() - 1 {
            (current + 1) as usize
        } else if self.mode() == PlayMode::Default {
            (self.len() - 1) as usize
        } else {
            0
        }
    }

    /// Play the next resource; `pick` is the random draw, used only in shuffle
    /// mode at the end of the history.
    pub open spec fn play_next(self, pick: usize) -> Transition<Vol> {
        match self.mode() {
            PlayMode::Default | PlayMode::RepeatList => {
                if self.resources.len() == 0 {
                    self.stop()
                } else {
                    let next = self.next_in_order();
                    self.with_curr(Some(next)).play_at(next)
                }
            },
            PlayMode::RepeatTrack => {
                let index = match self.curr {
                    Some(i) => i,
                    None => 0,
                };
                let (played, effects) = self.play_at(index);
                if index < self.resources.len() {
                    (played, effects)
                } else {
                    let (stopped, stop_effects) = played.stop();
                    (stopped, effects + stop_effects)
                }
            },
            PlayMode::Shuffle => {
                if self.resources.len() == 0 {
                    (self, seq![])
                } else if self.resources.len() == 1 {
                    (self.with_cursor(0), self.play_in_history(0))
                } else if self.cursor + 1 < self.history.len() {
                    (
                        self.with_cursor((self.cursor + 1) as usize),
                        self.play_in_history(self.cursor + 1),
                    )
                } else {
                    self.play_at(pick)
                }
            },
        }
    }

    /// Play the previous resource.
    pub open spec fn play_previous(self) -> Transition<Vol> {
        match self.mode() {
            PlayMode::Shuffle => {
                if self.cursor > 0 {
                    (
                        self.with_cursor((self.cursor - 1) as usize),
                        self.play_in_history(self.cursor - 1),
                    )
                } else {
                    (self, self.play_in_history(self.cursor as int))
                }
            },
            _ => {
                match self.curr {
                    Some(v) => {
                        let previous: usize = if v > 0 {
                            (v - 1) as usize
                        } else if self.mode() == PlayMode::Default {
                            0
                        } else {
                            (self.len() - 1) as usize
                        };
                        self.with_curr(Some(previous)).play_at(previous)
                    },
                    None => self.play_at(0),
                }
            },
        }
    }

    /// Switch to another play mode, forgetting the history.
    pub open spec fn change_play_mode(self, play_mode: PlayMode) -> PlayerModel<Vol> {
        if self.mode() == play_mode {
            self
        } else {
            PlayerModel {
                history: Seq::empty(),
                config: PlayerConfig { play_mode, ..self.config },
                ..self
            }
        }
    }

    /// Whether a tick finds the current resource finished.
    pub open spec fn tick_finishes(self, sink_empty: bool) -> bool {
        sink_empty && self.curr is Some
    }

    /// The periodic check: when the output has nothing left while a resource is
    /// current, report it finished and play the next one.
    pub open spec fn tick(self, sink_empty: bool, pick: usize) -> Transition<Vol> {
        if self.tick_finishes(sink_empty) {
            let finished = PlayerEffect::Emit(PlayerEvent::Finished(self.resources[self.curr->0 as int]));
            let (next, effects) = self.play_next(pick);
            (next, seq![finished] + effects)
        } else {
            (self, seq![])
        }
    }

    /// Carry out a command.
    pub open spec fn command(self, command: PlayerCommand<Vol>, pick: usize) -> Transition<Vol> {
        match command {
            PlayerCommand::Pause => (self, seq![PlayerEffect::Pause]),
            PlayerCommand::Resume => (self, seq![PlayerEffect::Resume]),
            PlayerCommand::ChangeVolume(delta) => (self, seq![PlayerEffect::AdjustVolume(delta)]),
            PlayerCommand::ChangeVolumeTo(value) => (self, seq![PlayerEffect::SetVolume(value)]),
            PlayerCommand::SetPlayMode(play_mode) => (self.change_play_mode(play_mode), seq![]),
            PlayerCommand::PlayNext => self.play_next(pick),
            PlayerCommand::PlayPrevious => self.play_previous(),
        }
    }

    /// React to an input.
    pub open spec fn step(self, input: PlayerInput<Vol>, pick: usize) -> Transition<Vol> {
        match input {
            PlayerInput::Tick { sink_empty } => self.tick(sink_empty, pick),
            PlayerInput::Command(command) => self.command(command, pick),
        }
    }

    /// Whether reacting to the input advances the playlist.
    pub open spec fn step_advances(self, input: PlayerInput<Vol>) -> bool {
        match input {
            PlayerInput::Tick { sink_empty } => self.tick_finishes(sink_empty),
            PlayerInput::Command(command) => command is PlayNext,
        }
    }

    /// Start playing: apply the configured volume and play the current resource.
    pub open spec fn start(self) -> Transition<Vol> {
        let volume = seq![PlayerEffect::SetVolume(self.config.volume)];
        match self.curr {
            Some(i) => {
                let (next, effects) = self.play_at(i);
                (next, volume + effects)
            },
            None => (self, volume),
        }
    }
}

/// Playing a resource, one that exists when there are any, keeps the shape of
/// the invariant and records the resource at the tail of the history.
pub proof fn lemma_play_at_wf<Vol>(m: PlayerModel<Vol>, index: usize)
    requires
        m.wf_shape(),
        index < m.resources.len() || m.resources.len() == 0,
    ensures
        m.play_at(index).0.wf_shape(),
        m.play_at(index).0.resources == m.resources,
        m.play_at(index).0.curr == m.curr,
        m.play_at(index).0.config == m.config,
        m.play_at(index).0.history.last() == index,
        m.play_at(index).0.history.len() <= m.history.len() + 1,
{
    let h = m.play_at(index).0.history;
    if m.history.len() == 0 || m.history.last() != index {
        assert forall|k: int, l: int|
            #![trigger h[k], h[l]]
            0 <= k && l == k + 1 && l < h.len() implies h[k] != h[l] by {
            if l < m.history.len() {
                assert(m.history[k] != m.history[l]);
            }
        }
    }
}

/// Advancing keeps the shape of the invariant and the resources, and records at
/// most one more resource.
pub proof fn lemma_play_next_wf<Vol>(m: PlayerModel<Vol>, pick: usize)
    requires
        m.wf_shape(),
        m.can_advance(),
        m.valid_pick(pick),
    ensures
        m.play_next(pick).0.wf_shape(),
        m.play_next(pick).0.resources == m.resources,
        m.play_next(pick).0.config == m.config,
        m.play_next(pick).0.history.len() <= m.history.len() + 1,
{
    match m.mode() {
        PlayMode::Default | PlayMode::RepeatList => {
            if m.resources.len() > 0 {
                let next = m.next_in_order();
                lemma_play_at_wf(m.with_curr(Some(next)), next);
            }
        },
        PlayMode::RepeatTrack => {
            let index = match m.curr {
                Some(i) => i,
                None => 0,
            };
            lemma_play_at_wf(m, index);
        },
        PlayMode::Shuffle => {
            if m.resources.len() > 1 && m.cursor + 1 >= m.history.len() {
                lemma_play_at_wf(m, pick);
            }
        },
    }
}

/// Going back keeps the shape of the invariant and the resources, and records
/// at most one more resource.
pub proof fn lemma_play_previous_wf<Vol>(m: PlayerModel<Vol>)
    requires
        m.wf_shape(),
    ensures
        m.play_previous().0.wf_shape(),
        m.play_previous().0.resources == m.resources,
        m.play_previous().0.config == m.config,
        m.play_previous().0.history.len() <= m.history.len() + 1,
{
    if m.mode() != PlayMode::Shuffle {
        match m.curr {
            Some(v) => {
                let previous: usize = if v > 0 {
                    (v - 1) as usize
                } else if m.mode() == PlayMode::Default {
                    0
                } else {
                    (m.len() - 1) as usize
                };
                lemma_play_at_wf(m.with_curr(Some(previous)), previous);
            },
            None => lemma_play_at_wf(m, 0),
        }
    }
}

/// A random index below `len`.
///
/// Samples `rand::distr::Uniform::new(0, len)` of the `rand` crate with the
/// thread-local generator `rand::rng()`: the distribution is uniform over
/// `[0, len)`, and its construction fails only when `0 >= len`. Only the range
/// of the result is stated: which value comes back is chance.
#[verifier::external_body]
fn random_index_below(len: usize) -> (r: usize)
    requires
        len > 0,
    ensures
        r < len,
{
    rand::rng().sample(rand::distr::Uniform::new(0, len).unwrap())
}

impl<Vol> View for PlayerManager<Vol> {
    type V = PlayerModel<Vol>;

    closed spec fn view(&self) -> PlayerModel<Vol> {
        PlayerModel {
            resources: self.resources@,
            curr: self.curr_resource_index,
            config: self.config,
            history: self.play_history@,
            cursor: self.shuffle_mode_play_history_index,
        }
    }
}

impl<Vol> PlayerManager<Vol> {
    /// A history held in memory is no longer than `usize::MAX`.
    proof fn lemma_history_fits(&self)
        ensures
            self@.history.len() <= usize::MAX,
    {
        assert(self.play_history.len() == self.play_history@.len());
    }
}

impl<Vol: Copy> PlayerManager<Vol> {
    /// A player over `resources` with `config`, positioned at the first resource.
    ///
    /// The player reports the current resource as finished when its first check
    /// finds the output empty, so it needs at least one resource.
    pub fn new(resources: Vec<Resource>, config: PlayerConfig<Vol>) -> (r: Self)
        requires
            resources.len() > 0,
        ensures
            r@.wf(),
            r@ == (PlayerModel {
                resources: resources@,
                curr: Some(0usize),
                config,
                history: Seq::<usize>::empty(),
                cursor: 0usize,
            }),
    {
        PlayerManager {
            resources,
            curr_resource_index: Some(0),
            config,
            play_history: Vec::new(),
            shuffle_mode_play_history_index: 0,
        }
    }

    /// Whether advancing the playlist is defined in the current state (see
    /// [`PlayerModel::can_advance`]).
    pub fn can_advance(&self) -> (r: bool)
        ensures
            r == self@.can_advance(),
    {
        !(self.config.play_mode == PlayMode::Shuffle && self.resources.len() > 1
            && self.play_history.len() == 0)
    }

    fn stop(&mut self, effects: &mut Vec<PlayerEffect<Vol>>)
        ensures
            final(self)@ == old(self)@.stop().0,
            final(effects)@ == old(effects)@ + old(self)@.stop().1,
    {
        effects.push(PlayerEffect::Stop);
        self.curr_resource_index = None;
        effects.push(PlayerEffect::Emit(PlayerEvent::Stopped));
    }

    /// Play the resource at `index`.
    ///
    /// Return false if resource index is out of range.
    fn play_resource_at_index(&mut self, index: usize, effects: &mut Vec<PlayerEffect<Vol>>) -> (r: bool)
        ensures
            r == (index < old(self)@.resources.len()),
            final(self)@ == old(self)@.play_at(index).0,
            final(effects)@ == old(effects)@ + old(self)@.play_at(index).1,
    {
        let n = self.play_history.len();
        if n == 0 || self.play_history[n - 1] != index {
            self.play_history.push(index);
            if self.config.play_mode == PlayMode::Shuffle {
                self.shuffle_mode_play_history_index = self.play_history.len() - 1;
            }
        }
        if index < self.resources.len() {
            effects.push(PlayerEffect::Play(self.resources[index].clone()));
            true
        } else {
            false
        }
    }

    /// Play the resource at `history_index` in the play history.
    ///
    /// Does not change the play history nor the shuffle cursor.
    fn play_resource_in_history_at_index(&self, history_index: usize, effects: &mut Vec<PlayerEffect<Vol>>)
        ensures
            final(effects)@ == old(effects)@ + self@.play_in_history(history_index as int),
    {
        if history_index < self.play_history.len() {
            let index = self.play_history[history_index];
            if index < self.resources.len() {
                effects.push(PlayerEffect::Play(self.resources[index].clone()));
            }
        }
    }

    /// The random draw that advancing needs: a random index in shuffle mode at
    /// the end of the history, and no draw (index 0) otherwise.
    fn draw_pick(&self) -> (pick: usize)
        requires
            self@.wf(),
        ensures
            self@.valid_pick(pick),
            !self@.needs_pick() ==> pick == 0,
    {
        let len = self.resources.len();
        if self.config.play_mode == PlayMode::Shuffle && len > 1 && (self.play_history.len() == 0
            || self.shuffle_mode_play_history_index >= self.play_history.len() - 1) {
            random_index_below(len)
        } else {
            0
        }
    }

    fn advance_with(&mut self, pick: usize, effects: &mut Vec<PlayerEffect<Vol>>)
        requires
            old(self)@.wf(),
            old(self)@.can_advance(),
            old(self)@.valid_pick(pick),
        ensures
            final(self)@ == old(self)@.play_next(pick).0,
            final(effects)@ == old(effects)@ + old(self)@.play_next(pick).1,
    {
        match self.config.play_mode {
            PlayMode::Default | PlayMode::RepeatList => {
                if self.resources.len() == 0 {
                    self.stop(effects);
                    return;
                }
                // Play the next resource if any; at the end of the list repeat the
                // last one in default mode and go back to the first one otherwise.
                let current_index = match self.curr_resource_index {
                    Some(i) => i,
                    None => 0,
                };
                let next_index = if current_index < self.resources.len() - 1 {
                    current_index + 1
                } else if self.config.play_mode == PlayMode::Default {
                    self.resources.len() - 1
                } else {
                    0
                };
                self.curr_resource_index = Some(next_index);
                assert(self@ == old(self)@.with_curr(Some(next_index)));
                if !self.play_resource_at_index(next_index, effects) {
                    self.stop(effects);
                }
            },
            PlayMode::RepeatTrack => {
                let index = match self.curr_resource_index {
                    Some(i) => i,
                    None => 0,
                };
                if !self.play_resource_at_index(index, effects) {
                    self.stop(effects);
                }
            },
            PlayMode::Shuffle => {
                if self.resources.len() == 0 {
                    return;
                }
                if self.resources.len() == 1 {
                    self.shuffle_mode_play_history_index = 0;
                    self.play_resource_in_history_at_index(0, effects);
                    return;
                }
                if self.shuffle_mode_play_history_index < self.play_history.len() - 1 {
                    // In the middle of the history: take the next one in it.
                    self.shuffle_mode_play_history_index = self.shuffle_mode_play_history_index + 1;
                    self.play_resource_in_history_at_index(self.shuffle_mode_play_history_index, effects);
                } else {
                    // At the end of the history: play the random pick.
                    if !self.play_resource_at_index(pick, effects) {
                        self.stop(effects);
                    }
                }
            },
        }
    }

    /// Play the next resource according to the current play mode, with `pick`
    /// as the random index that shuffle mode plays at the end of its history.
    pub fn play_next_with_pick(&mut self, pick: usize) -> (effects: Vec<PlayerEffect<Vol>>)
        requires
            old(self)@.wf(),
            old(self)@.can_advance(),
            old(self)@.valid_pick(pick),
        ensures
            final(self)@.wf(),
            (final(self)@, effects@) == old(self)@.play_next(pick),
    {
        proof {
            lemma_play_next_wf(self@, pick);
        }
        let mut effects = Vec::new();
        self.advance_with(pick, &mut effects);
        proof {
            self.lemma_history_fits();
        }
        effects
    }

    /// Play the next resource according to the current play mode.
    ///
    /// In shuffle mode at the end of the history the next resource is drawn at
    /// random; the result is the transition for some index below the number of
    /// resources.
    pub fn play_next(&mut self) -> (effects: Vec<PlayerEffect<Vol>>)
        requires
            old(self)@.wf(),
            old(self)@.can_advance(),
        ensures
            final(self)@.wf(),
            exists|pick: usize|
                old(self)@.valid_pick(pick) && (final(self)@, effects@) == #[trigger] old(
                    self,
                )@.play_next(pick),
            !old(self)@.needs_pick() ==> (final(self)@, effects@) == old(self)@.play_next(0),
    {
        let pick = self.draw_pick();
        let effects = self.play_next_with_pick(pick);
        effects
    }

    fn retreat(&mut self, effects: &mut Vec<PlayerEffect<Vol>>)
        requires
            old(self)@.wf(),
        ensures
            final(self)@ == old(self)@.play_previous().0,
            final(effects)@ == old(effects)@ + old(self)@.play_previous().1,
    {
        match self.config.play_mode {
            PlayMode::Default | PlayMode::RepeatList | PlayMode::RepeatTrack => {
                match self.curr_resource_index {
                    Some(0) => {
                        let next_index = if self.config.play_mode == PlayMode::Default {
                            // Reach the head of the playlist, repeat it.
                            0
                        } else {
                            // Reach the head of the playlist, go to the last one.
                            self.resources.len() - 1
                        };
                        self.curr_resource_index = Some(next_index);
                        assert(self@ == old(self)@.with_curr(Some(next_index)));
                        let _ = self.play_resource_at_index(next_index, effects);
                    },
                    Some(v) => {
                        self.curr_resource_index = Some(v - 1);
                        assert(self@ == old(self)@.with_curr(Some((v - 1) as usize)));
                        let _ = self.play_resource_at_index(v - 1, effects);
                    },
                    None => {
                        let _ = self.play_resource_at_index(0, effects);
                    },
                }
            },
            PlayMode::Shuffle => {
                // Use the previous one in the play history, or repeat the current
                // one at the head of the history.
                if self.shuffle_mode_play_history_index > 0 {
                    self.shuffle_mode_play_history_index = self.shuffle_mode_play_history_index - 1;
                }
                self.play_resource_in_history_at_index(self.shuffle_mode_play_history_index, effects);
            },
        }
    }

    /// Play the previous resource according to the current play mode.
    pub fn play_previous(&mut self) -> (effects: Vec<PlayerEffect<Vol>>)
        requires
            old(self)@.wf(),
        ensures
            final(self)@.wf(),
            (final(self)@, effects@) == old(self)@.play_previous(),
    {
        proof {
            lemma_play_previous_wf(self@);
        }
        let mut effects = Vec::new();
        self.retreat(&mut effects);
        proof {
            self.lemma_history_fits();
        }
        effects
    }

    /// Switch to `play_mode`; switching to another mode clears the play history.
    pub fn change_play_mode(&mut self, play_mode: PlayMode)
        requires
            old(self)@.wf(),
        ensures
            final(self)@.wf(),
            final(self)@ == old(self)@.change_play_mode(play_mode),
    {
        if self.config.play_mode == play_mode {
            return;
        }
        self.play_history.clear();
        self.config.play_mode = play_mode;
    }

    /// The periodic check of the output: when it has nothing left to play while
    /// a resource is current, report that resource finished and play the next one.
    pub fn tick(&mut self, sink_empty: bool) -> (effects: Vec<PlayerEffect<Vol>>)
        requires
            old(self)@.wf(),
            old(self)@.tick_finishes(sink_empty) ==> old(self)@.can_advance(),
        ensures
            final(self)@.wf(),
            exists|pick: usize|
                old(self)@.valid_pick(pick) && (final(self)@, effects@) == #[trigger] old(
                    self,
                )@.tick(sink_empty, pick),
    {
        let mut effects = Vec::new();
        let ghost mut witness: usize = 0;
        if sink_empty && self.curr_resource_index.is_some() {
            let index = match self.curr_resource_index {
                Some(i) => i,
                None => 0,
            };
            effects.push(PlayerEffect::Emit(PlayerEvent::Finished(self.resources[index].clone())));
            let pick = self.draw_pick();
            proof {
                witness = pick;
                lemma_play_next_wf(self@, pick);
            }
            self.advance_with(pick, &mut effects);
        }
        proof {
            self.lemma_history_fits();
        }
        assert((final(self)@, effects@) == old(self)@.tick(sink_empty, witness));
        effects
    }

    /// Carry out a command from a client.
    pub fn handle_command(&mut self, command: PlayerCommand<Vol>) -> (effects: Vec<PlayerEffect<Vol>>)
        requires
            old(self)@.wf(),
            command is PlayNext ==> old(self)@.can_advance(),
        ensures
            final(self)@.wf(),
            exists|pick: usize|
                old(self)@.valid_pick(pick) && (final(self)@, effects@) == #[trigger] old(
                    self,
                )@.command(command, pick),
    {
        let mut effects = Vec::new();
        let ghost mut witness: usize = 0;
        let ghost command_copy = command;
        match command {
            PlayerCommand::Pause => effects.push(PlayerEffect::Pause),
            PlayerCommand::Resume => effects.push(PlayerEffect::Resume),
            PlayerCommand::ChangeVolume(delta) => effects.push(PlayerEffect::AdjustVolume(delta)),
            PlayerCommand::ChangeVolumeTo(value) => effects.push(PlayerEffect::SetVolume(value)),
            PlayerCommand::SetPlayMode(play_mode) => self.change_play_mode(play_mode),
            PlayerCommand::PlayNext => {
                let pick = self.draw_pick();
                proof {
                    witness = pick;
                    lemma_play_next_wf(self@, pick);
                }
                self.advance_with(pick, &mut effects);
            },
            PlayerCommand::PlayPrevious => {
                proof {
                    lemma_play_previous_wf(self@);
                }
                self.retreat(&mut effects);
            },
        }
        proof {
            self.lemma_history_fits();
        }
        assert((final(self)@, effects@) == old(self)@.command(command_copy, witness));
        effects
    }

    /// React to an input: a check of the output or a command.
    pub fn step(&mut self, input: PlayerInput<Vol>) -> (effects: Vec<PlayerEffect<Vol>>)
        requires
            old(self)@.wf(),
            old(self)@.step_advances(input) ==> old(self)@.can_advance(),
        ensures
            final(self)@.wf(),
            exists|pick: usize|
                old(self)@.valid_pick(pick) && (final(self)@, effects@) == #[trigger] old(
                    self,
                )@.step(input, pick),
    {
        let ghost start = self@;
        let ghost input_copy = input;
        match input {
            PlayerInput::Tick { sink_empty } => {
                let effects = self.tick(sink_empty);
                proof {
                    let pick = choose|pick: usize|
                        start.valid_pick(pick) && (self@, effects@) == #[trigger] start.tick(
                            sink_empty,
                            pick,
                        );
                    assert(start.step(input_copy, pick) == start.tick(sink_empty, pick));
                }
                effects
            },
            PlayerInput::Command(command) => {
                let effects = self.handle_command(command);
                proof {
                    let pick = choose|pick: usize|
                        start.valid_pick(pick) && (self@, effects@) == #[trigger] start.command(
                            command,
                            pick,
                        );
                    assert(start.step(input_copy, pick) == start.command(command, pick));
                }
                effects
            },
        }
    }

    /// Start playing: apply the configured volume, then play the current resource.
    pub fn start(&mut self) -> (effects: Vec<PlayerEffect<Vol>>)
        requires
            old(self)@.wf(),
        ensures
            final(self)@.wf(),
            (final(self)@, effects@) == old(self)@.start(),
    {
        let mut effects = Vec::new();
        effects.push(PlayerEffect::SetVolume(self.config.volume));
        if let Some(index) = self.curr_resource_index {
            proof {
                lemma_play_at_wf(self@, index);
            }
            let _ = self.play_resource_at_index(index, &mut effects);
        }
        proof {
            self.lemma_history_fits();
        }
        effects
    }

    /// The resources of the playlist.
    pub fn resources(&self) -> (r: &[Resource])
        ensures
            r@ == self@.resources,
    {
        self.resources.as_slice()
    }

    /// Index of the current resource, if any.
    pub fn curr_resource_index(&self) -> (r: Option<usize>)
        ensures
            r == self@.curr,
    {
        self.curr_resource_index
    }

    /// The configuration in effect.
    pub fn config(&self) -> (r: &PlayerConfig<Vol>)
        ensures
            *r == self@.config,
    {
        &self.config
    }

    /// Indices of the played resources, the most recent last.
    pub fn play_history(&self) -> (r: &[usize])
        ensures
            r@ == self@.history,
    {
        self.play_history.as_slice()
    }

    /// The position in the play history that shuffle mode moves back and forth.
    pub fn shuffle_mode_play_history_index(&self) -> (r: usize)
        ensures
            r == self@.cursor,
    {
        self.shuffle_mode_play_history_index
    }
}

} // verus!
