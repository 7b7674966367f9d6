use vstd::prelude::*;

use crate::apis::{PlayMode, PlayerCommand, PlayerEvent};
use crate::player::{
    PlayerEffect, PlayerInput, PlayerModel, lemma_play_at_wf, lemma_play_next_wf,
    lemma_play_previous_wf,
};

verus! {

/// Every reaction of the player keeps its invariant and its resources: current
/// index and recorded history stay within the resources, and no resource is
/// recorded twice in a row in the history. (A history of `usize::MAX` entries
/// cannot grow in memory, hence the bound on its length.)
pub proof fn law_step_preserves_invariant<Vol>(m: PlayerModel<Vol>, input: PlayerInput<Vol>, pick: usize)
    requires
        m.wf(),
        m.history.len() < usize::MAX,
        m.step_advances(input) ==> m.can_advance(),
        m.valid_pick(pick),
    ensures
        m.step(input, pick).0.wf(),
        m.step(input, pick).0.resources == m.resources,
{
    match input {
        PlayerInput::Tick { sink_empty } => {
            if m.tick_finishes(sink_empty) {
                lemma_play_next_wf(m, pick);
            }
        },
        PlayerInput::Command(command) => {
            match command {
                PlayerCommand::PlayNext => lemma_play_next_wf(m, pick),
                PlayerCommand::PlayPrevious => lemma_play_previous_wf(m),
                _ => {},
            }
        },
    }
}

/// Starting the player keeps its invariant (for a history that can still grow
/// in memory).
pub proof fn law_start_preserves_invariant<Vol>(m: PlayerModel<Vol>)
    requires
        m.wf(),
        m.history.len() < usize::MAX,
    ensures
        m.start().0.wf(),
        m.start().0.resources == m.resources,
{
    if let Some(i) = m.curr {
        lemma_play_at_wf(m, i);
    }
}

/// The most recently played resource is at the tail of the play history, and
/// playing an existing resource always plays it.
pub proof fn law_played_resource_is_latest_in_history<Vol>(m: PlayerModel<Vol>, index: usize)
    requires
        m.wf(),
        index < m.resources.len(),
    ensures
        m.play_at(index).0.history == (if m.history.len() > 0 && m.history.last() == index {
            m.history
        } else {
            m.history.push(index)
        }),
        m.play_at(index).0.history.last() == index,
        forall|k: int|
            0 <= k && k + 1 < m.play_at(index).0.history.len() ==> #[trigger] m.play_at(
                index,
            ).0.history[k] != m.play_at(index).0.history[k + 1],
        m.play_at(index).1 == seq![PlayerEffect::<Vol>::Play(m.resources[index as int])],
{
    lemma_play_at_wf(m, index);
    let h = m.play_at(index).0.history;
    assert forall|k: int| 0 <= k && k + 1 < h.len() implies #[trigger] h[k] != h[k + 1] by {
        assert(h[k] != h[k + 1]);
    }
}

/// With an empty list, advancing in an ordered mode stops the player and
/// reports it stopped, and in shuffle mode changes nothing.
pub proof fn law_empty_playlist_next<Vol>(m: PlayerModel<Vol>, pick: usize)
    requires
        m.wf(),
        m.history.len() < usize::MAX,
        m.resources.len() == 0,
    ensures
        m.play_next(pick).0.wf(),
        m.mode() == PlayMode::Default || m.mode() == PlayMode::RepeatList ==> m.play_next(pick)
            == (m.with_curr(None), seq![PlayerEffect::<Vol>::Stop, PlayerEffect::<Vol>::Emit(PlayerEvent::Stopped)]),
        m.mode() == PlayMode::Shuffle ==> m.play_next(pick) == (m, Seq::<PlayerEffect<Vol>>::empty()),
{
    lemma_play_next_wf(m, pick);
}

/// A command is carried out by the operation of the same name: pause and
/// resume go to the output alone, and the playlist commands are the playlist
/// operations.
pub proof fn law_command_dispatch<Vol>(m: PlayerModel<Vol>, pick: usize, play_mode: PlayMode)
    ensures
        m.command(PlayerCommand::Pause, pick) == (m, seq![PlayerEffect::<Vol>::Pause]),
        m.command(PlayerCommand::Resume, pick) == (m, seq![PlayerEffect::<Vol>::Resume]),
        m.command(PlayerCommand::SetPlayMode(play_mode), pick) == (
            m.change_play_mode(play_mode),
            Seq::<PlayerEffect<Vol>>::empty(),
        ),
        m.command(PlayerCommand::PlayNext, pick) == m.play_next(pick),
        m.command(PlayerCommand::PlayPrevious, pick) == m.play_previous(),
{
}

/// When a check finds the output empty while a resource is current, the player
/// reports that resource finished and then advances as `play_next` does; when
/// the output still plays, or nothing is current, nothing happens.
pub proof fn law_tick_finishes_then_advances<Vol>(m: PlayerModel<Vol>, sink_empty: bool, pick: usize)
    requires
        m.wf(),
    ensures
        m.tick_finishes(sink_empty) ==> m.tick(sink_empty, pick).0 == m.play_next(pick).0,
        m.tick_finishes(sink_empty) ==> m.tick(sink_empty, pick).1 == seq![
            PlayerEffect::<Vol>::Emit(PlayerEvent::Finished(m.resources[m.curr->0 as int])),
        ] + m.play_next(pick).1,
        !m.tick_finishes(sink_empty) ==> m.tick(sink_empty, pick) == (m, Seq::<PlayerEffect<Vol>>::empty()),
        m.tick_finishes(sink_empty) ==> m.curr->0 < m.resources.len(),
{
}

/// In shuffle mode, going back in the history and then forward again returns to
/// exactly the same state and replays the same resource, instead of drawing a
/// new random one.
pub proof fn law_shuffle_previous_then_next_returns<Vol>(m: PlayerModel<Vol>, pick: usize)
    requires
        m.wf(),
        m.mode() == PlayMode::Shuffle,
        m.resources.len() > 1,
        0 < m.cursor < m.history.len(),
        pick < m.resources.len(),
    ensures
        m.play_previous().0.can_advance(),
        m.play_previous().0.play_next(pick).0 == m,
        m.play_previous().0.play_next(pick).1 == seq![
            PlayerEffect::<Vol>::Play(m.resources[m.history[m.cursor as int] as int]),
        ],
{
    let m1 = m.play_previous().0;
    assert(m1.with_cursor((m1.cursor + 1) as usize) =~= m);
}

/// In shuffle mode, after a new random resource is played, going back replays
/// the resource that was played before it.
pub proof fn law_shuffle_previous_after_pick_replays_last<Vol>(m: PlayerModel<Vol>, pick: usize)
    requires
        m.wf(),
        m.mode() == PlayMode::Shuffle,
        m.resources.len() > 1,
        0 < m.history.len() < usize::MAX,
        m.cursor + 1 >= m.history.len(),
        pick < m.resources.len(),
        pick != m.history.last(),
    ensures
        m.play_next(pick).0.history == m.history.push(pick),
        m.play_next(pick).0.cursor == m.history.len(),
        m.play_next(pick).0.play_previous().1 == seq![
            PlayerEffect::<Vol>::Play(m.resources[m.history.last() as int]),
        ],
{
    let m1 = m.play_next(pick).0;
    assert(m1.history[m.history.len() - 1] == m.history.last());
}

/// In the ordered modes, going back undoes going forward: the current resource
/// is again the one before, and it is played again. Default mode at the end of
/// the list is the exception, where going forward repeats the last resource.
pub proof fn law_in_order_previous_undoes_next<Vol>(m: PlayerModel<Vol>, i: usize, pick: usize)
    requires
        m.wf(),
        m.mode() == PlayMode::Default || m.mode() == PlayMode::RepeatList,
        m.curr == Some(i),
        m.mode() == PlayMode::Default ==> i + 1 < m.resources.len(),
        pick < m.resources.len(),
    ensures
        m.play_next(pick).0.play_previous().0.curr == Some(i),
        m.play_next(pick).0.play_previous().1 == seq![PlayerEffect::<Vol>::Play(m.resources[i as int])],
{
}

/// In the ordered modes, going forward undoes going back. Default mode at the
/// head of the list is the exception, where going back repeats the first
/// resource.
pub proof fn law_in_order_next_undoes_previous<Vol>(m: PlayerModel<Vol>, i: usize, pick: usize)
    requires
        m.wf(),
        m.mode() == PlayMode::Default || m.mode() == PlayMode::RepeatList,
        m.curr == Some(i),
        m.mode() == PlayMode::Default ==> i > 0,
        pick < m.resources.len(),
    ensures
        m.play_previous().0.can_advance(),
        m.play_previous().0.play_next(pick).0.curr == Some(i),
        m.play_previous().0.play_next(pick).1 == seq![PlayerEffect::<Vol>::Play(m.resources[i as int])],
{
}

/// Default mode stays at the ends of the list: forward from the last resource
/// plays it again, and so does back from the first one.
pub proof fn law_default_mode_holds_at_ends<Vol>(m: PlayerModel<Vol>, pick: usize)
    requires
        m.wf(),
        m.mode() == PlayMode::Default,
        pick < m.resources.len(),
    ensures
        m.curr == Some((m.resources.len() - 1) as usize) ==> m.play_next(pick).0.curr == m.curr,
        m.curr == Some(0usize) ==> m.play_previous().0.curr == m.curr,
{
}

/// Repeat-track mode plays the current resource again and stays on it.
pub proof fn law_repeat_track_replays_current<Vol>(m: PlayerModel<Vol>, i: usize, pick: usize)
    requires
        m.wf(),
        m.mode() == PlayMode::RepeatTrack,
        m.curr == Some(i),
        pick < m.resources.len(),
    ensures
        m.play_next(pick).0.curr == Some(i),
        m.play_next(pick).1 == seq![PlayerEffect::<Vol>::Play(m.resources[i as int])],
{
}

/// Setting the current play mode again changes nothing; setting another one
/// forgets the play history and leaves the rest of the playlist as it was.
pub proof fn law_change_play_mode<Vol>(m: PlayerModel<Vol>, play_mode: PlayMode)
    requires
        m.wf(),
    ensures
        m.change_play_mode(play_mode).wf(),
        m.change_play_mode(play_mode).mode() == play_mode,
        play_mode == m.mode() ==> m.change_play_mode(play_mode) == m,
        play_mode != m.mode() ==> m.change_play_mode(play_mode).history.len() == 0,
        m.change_play_mode(play_mode).curr == m.curr,
        m.change_play_mode(play_mode).cursor == m.cursor,
        m.change_play_mode(play_mode).resources == m.resources,
{
}

/// Commands for the audio output alone leave the playlist as it is.
pub proof fn law_output_commands_keep_playlist<Vol>(
    m: PlayerModel<Vol>,
    command: PlayerCommand<Vol>,
    pick: usize,
)
    requires
        command is Pause || command is Resume || command is ChangeVolume || command is ChangeVolumeTo,
    ensures
        m.command(command, pick).0 == m,
        m.command(command, pick).1.len() == 1,
{
}

/// Volume commands, in every play mode, go to the output as they came: a delta
/// adjusts the volume by that delta, a value sets the volume to that value, and
/// the playlist stays as it is.
pub proof fn law_volume_commands<Vol>(m: PlayerModel<Vol>, amount: Vol, pick: usize)
    ensures
        m.command(PlayerCommand::ChangeVolume(amount), pick) == (
            m,
            seq![PlayerEffect::<Vol>::AdjustVolume(amount)],
        ),
        m.command(PlayerCommand::ChangeVolumeTo(amount), pick) == (
            m,
            seq![PlayerEffect::<Vol>::SetVolume(amount)],
        ),
        m.step(PlayerInput::Command(PlayerCommand::ChangeVolume(amount)), pick) == (
            m,
            seq![PlayerEffect::<Vol>::AdjustVolume(amount)],
        ),
        m.step(PlayerInput::Command(PlayerCommand::ChangeVolumeTo(amount)), pick) == (
            m,
            seq![PlayerEffect::<Vol>::SetVolume(amount)],
        ),
{
}

/// In every mode but shuffle, going back from the resource at `v` makes the
/// resource before it current and plays it; only from the first resource does
/// it stay there (default mode) or wrap to the last one (the repeat modes).
pub proof fn law_previous_in_order<Vol>(m: PlayerModel<Vol>, v: usize)
    requires
        m.wf(),
        m.mode() != PlayMode::Shuffle,
        m.curr == Some(v),
    ensures
        v > 0 ==> m.play_previous().0.curr == Some((v - 1) as usize),
        v > 0 ==> m.play_previous().1 == seq![PlayerEffect::<Vol>::Play(m.resources[v - 1])],
        v > 0 ==> m.play_previous().0.history.last() == v - 1,
        v == 0 && m.mode() == PlayMode::Default ==> m.play_previous().0.curr == Some(0usize),
        v == 0 && m.mode() == PlayMode::Default ==> m.play_previous().1 == seq![
            PlayerEffect::<Vol>::Play(m.resources[0]),
        ],
        v == 0 && m.mode() != PlayMode::Default ==> m.play_previous().0.curr == Some(
            (m.resources.len() - 1) as usize,
        ),
        v == 0 && m.mode() != PlayMode::Default ==> m.play_previous().1 == seq![
            PlayerEffect::<Vol>::Play(m.resources[m.resources.len() - 1]),
        ],
        m.play_previous().0.resources == m.resources,
        m.play_previous().0.config == m.config,
{
    lemma_play_previous_wf(m);
}

/// Whenever the check finds the output empty while a resource is current, in
/// every play mode, the player reports that resource finished and then advances
/// exactly as `play_next` does; otherwise it does nothing.
pub proof fn law_tick_reports_finished<Vol>(m: PlayerModel<Vol>, sink_empty: bool, pick: usize)
    requires
        m.wf(),
    ensures
        sink_empty && m.curr is Some ==> m.tick(sink_empty, pick).1.len() >= 1,
        sink_empty && m.curr is Some ==> m.tick(sink_empty, pick).1[0] == PlayerEffect::<Vol>::Emit(
            PlayerEvent::Finished(m.resources[m.curr->0 as int]),
        ),
        sink_empty && m.curr is Some ==> m.tick(sink_empty, pick).1.drop_first() == m.play_next(
            pick,
        ).1,
        sink_empty && m.curr is Some ==> m.tick(sink_empty, pick).0 == m.play_next(pick).0,
        !(sink_empty && m.curr is Some) ==> m.tick(sink_empty, pick) == (
            m,
            Seq::<PlayerEffect<Vol>>::empty(),
        ),
{
    if sink_empty && m.curr is Some {
        let t = m.tick(sink_empty, pick).1;
        assert(t.drop_first() =~= m.play_next(pick).1);
    }
}

/// In repeat-track mode, when the current resource finishes it is reported
/// finished and played again, and it stays current.
pub proof fn law_tick_repeat_track<Vol>(m: PlayerModel<Vol>, i: usize, pick: usize)
    requires
        m.wf(),
        m.mode() == PlayMode::RepeatTrack,
        m.curr == Some(i),
    ensures
        m.tick(true, pick).1 == seq![
            PlayerEffect::<Vol>::Emit(PlayerEvent::Finished(m.resources[i as int])),
            PlayerEffect::<Vol>::Play(m.resources[i as int]),
        ],
        m.tick(true, pick).0.curr == Some(i),
{
    assert(m.tick(true, pick).1 =~= seq![
        PlayerEffect::<Vol>::Emit(PlayerEvent::Finished(m.resources[i as int])),
        PlayerEffect::<Vol>::Play(m.resources[i as int]),
    ]);
}

/// Starting, in every play mode, sets the configured volume and then plays the
/// current resource, recording it in the history; with no current resource it
/// only sets the volume.
pub proof fn law_start_plays_current<Vol>(m: PlayerModel<Vol>)
    requires
        m.wf(),
    ensures
        m.curr matches Some(i) ==> m.start().1 == seq![
            PlayerEffect::<Vol>::SetVolume(m.config.volume),
            PlayerEffect::<Vol>::Play(m.resources[i as int]),
        ],
        m.curr matches Some(i) ==> m.start().0.history.last() == i,
        m.start().0.curr == m.curr,
        m.start().0.resources == m.resources,
        m.curr is None ==> m.start() == (m, seq![PlayerEffect::<Vol>::SetVolume(m.config.volume)]),
{
    if let Some(i) = m.curr {
        lemma_play_at_wf(m, i);
        assert(m.start().1 =~= seq![
            PlayerEffect::<Vol>::SetVolume(m.config.volume),
            PlayerEffect::<Vol>::Play(m.resources[i as int]),
        ]);
    }
}

/// In shuffle mode at the end of the history, whichever index below the number
/// of resources is drawn, that resource is played and recorded at the tail of
/// the history: the transition admits every resource as the next one.
pub proof fn law_shuffle_draw_plays_pick<Vol>(m: PlayerModel<Vol>, k: usize)
    requires
        m.wf(),
        m.mode() == PlayMode::Shuffle,
        m.resources.len() > 1,
        m.history.len() > 0,
        m.cursor + 1 >= m.history.len(),
        k < m.resources.len(),
    ensures
        m.play_next(k).1 == seq![PlayerEffect::<Vol>::Play(m.resources[k as int])],
        m.play_next(k).0.history.last() == k,
        m.play_next(k).0.curr == m.curr,
{
    lemma_play_at_wf(m, k);
}

} // verus!
