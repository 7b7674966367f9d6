use morphlings::apis::{PlayMode, PlayerCommand, PlayerConfig, PlayerEvent, Resource};
use morphlings::player::{PlayerEffect, PlayerInput, PlayerManager};

fn resources(n: usize) -> Vec<Resource> {
    (0..n)
        .map(|i| Resource { file_path: format!("/music/{i}.mp3") })
        .collect()
}

fn manager(n: usize, mode: PlayMode) -> PlayerManager<f32> {
    PlayerManager::new(resources(n), PlayerConfig { volume: 0.5, play_mode: mode })
}

/// The paths of the resources that the effects play, in order.
fn played(effects: &[PlayerEffect<f32>]) -> Vec<String> {
    effects
        .iter()
        .filter_map(|e| match e {
            PlayerEffect::Play(r) => Some(r.file_path.clone()),
            _ => None,
        })
        .collect()
}

fn path(i: usize) -> String {
    format!("/music/{i}.mp3")
}

fn is_stop(effects: &[PlayerEffect<f32>]) -> bool {
    effects.len() == 2
        && matches!(effects[0], PlayerEffect::Stop)
        && matches!(effects[1], PlayerEffect::Emit(PlayerEvent::Stopped))
}

#[test]
fn new_player_starts_at_first_resource() {
    let p = manager(3, PlayMode::Default);
    assert_eq!(p.curr_resource_index(), Some(0));
    assert!(p.play_history().is_empty());
    assert_eq!(p.shuffle_mode_play_history_index(), 0);
    assert_eq!(p.resources().len(), 3);
    assert_eq!(p.config().play_mode, PlayMode::Default);
}

#[test]
fn start_applies_volume_then_plays_current() {
    let mut p = manager(3, PlayMode::Default);
    let effects = p.start();
    assert_eq!(effects.len(), 2);
    assert!(matches!(effects[0], PlayerEffect::SetVolume(v) if v == 0.5));
    assert_eq!(played(&effects), vec![path(0)]);
    assert_eq!(p.play_history(), &[0]);
}

#[test]
fn default_mode_plays_in_order_and_repeats_last() {
    let mut p = manager(3, PlayMode::Default);
    p.start();
    assert_eq!(played(&p.play_next()), vec![path(1)]);
    assert_eq!(played(&p.play_next()), vec![path(2)]);
    assert_eq!(p.curr_resource_index(), Some(2));
    // At the end of the list the last one is repeated.
    assert_eq!(played(&p.play_next()), vec![path(2)]);
    assert_eq!(p.curr_resource_index(), Some(2));
    // Not recorded twice in a row.
    assert_eq!(p.play_history(), &[0, 1, 2]);
}

#[test]
fn default_mode_previous_at_head_repeats_first() {
    let mut p = manager(3, PlayMode::Default);
    p.start();
    assert_eq!(played(&p.play_previous()), vec![path(0)]);
    assert_eq!(p.curr_resource_index(), Some(0));
    assert_eq!(p.play_history(), &[0]);
}

#[test]
fn repeat_list_wraps_both_ways() {
    let mut p = manager(3, PlayMode::RepeatList);
    p.start();
    assert_eq!(played(&p.play_previous()), vec![path(2)]);
    assert_eq!(p.curr_resource_index(), Some(2));
    assert_eq!(played(&p.play_next()), vec![path(0)]);
    assert_eq!(p.curr_resource_index(), Some(0));
    assert_eq!(p.play_history(), &[0, 2, 0]);
}

#[test]
fn previous_undoes_next_in_order() {
    let mut p = manager(4, PlayMode::Default);
    p.start();
    p.play_next();
    let before = p.curr_resource_index();
    p.play_next();
    let effects = p.play_previous();
    assert_eq!(p.curr_resource_index(), before);
    assert_eq!(played(&effects), vec![path(1)]);
}

#[test]
fn repeat_track_replays_current() {
    let mut p = manager(3, PlayMode::Default);
    p.start();
    p.play_next();
    p.change_play_mode(PlayMode::RepeatTrack);
    assert!(p.play_history().is_empty());
    assert_eq!(played(&p.play_next()), vec![path(1)]);
    assert_eq!(played(&p.play_next()), vec![path(1)]);
    assert_eq!(p.curr_resource_index(), Some(1));
    assert_eq!(p.play_history(), &[1]);
}

#[test]
fn repeat_track_previous_goes_back_and_wraps() {
    let mut p = manager(3, PlayMode::RepeatTrack);
    p.start();
    assert_eq!(played(&p.play_previous()), vec![path(2)]);
    assert_eq!(played(&p.play_previous()), vec![path(1)]);
}

#[test]
fn change_to_same_mode_keeps_history() {
    let mut p = manager(3, PlayMode::Default);
    p.start();
    p.play_next();
    p.change_play_mode(PlayMode::Default);
    assert_eq!(p.play_history(), &[0, 1]);
    p.change_play_mode(PlayMode::RepeatList);
    assert!(p.play_history().is_empty());
    assert_eq!(p.config().play_mode, PlayMode::RepeatList);
    assert_eq!(p.curr_resource_index(), Some(1));
}

#[test]
fn shuffle_back_and_forth_uses_history() {
    let mut p = manager(5, PlayMode::Shuffle);
    p.start();
    assert_eq!(p.play_history(), &[0]);
    assert_eq!(p.shuffle_mode_play_history_index(), 0);
    assert_eq!(played(&p.play_next_with_pick(3)), vec![path(3)]);
    assert_eq!(played(&p.play_next_with_pick(4)), vec![path(4)]);
    assert_eq!(p.play_history(), &[0, 3, 4]);
    assert_eq!(p.shuffle_mode_play_history_index(), 2);
    // Back twice.
    assert_eq!(played(&p.play_previous()), vec![path(3)]);
    assert_eq!(played(&p.play_previous()), vec![path(0)]);
    assert_eq!(p.shuffle_mode_play_history_index(), 0);
    // At the head of the history the current one is repeated.
    assert_eq!(played(&p.play_previous()), vec![path(0)]);
    assert_eq!(p.shuffle_mode_play_history_index(), 0);
    // Forward again follows the history, ignoring the pick.
    assert_eq!(played(&p.play_next_with_pick(1)), vec![path(3)]);
    assert_eq!(played(&p.play_next_with_pick(1)), vec![path(4)]);
    assert_eq!(p.play_history(), &[0, 3, 4]);
    // At the end of the history the pick is played.
    assert_eq!(played(&p.play_next_with_pick(1)), vec![path(1)]);
    assert_eq!(p.play_history(), &[0, 3, 4, 1]);
    assert_eq!(p.shuffle_mode_play_history_index(), 3);
    // The current index is not moved in shuffle mode.
    assert_eq!(p.curr_resource_index(), Some(0));
}

#[test]
fn shuffle_pick_equal_to_last_is_not_recorded() {
    let mut p = manager(3, PlayMode::Shuffle);
    p.start();
    assert_eq!(played(&p.play_next_with_pick(0)), vec![path(0)]);
    assert_eq!(p.play_history(), &[0]);
    assert_eq!(p.shuffle_mode_play_history_index(), 0);
}

#[test]
fn shuffle_with_one_resource_replays_history_head() {
    let mut p = manager(1, PlayMode::Shuffle);
    p.start();
    assert_eq!(played(&p.play_next()), vec![path(0)]);
    assert_eq!(p.shuffle_mode_play_history_index(), 0);
}

#[test]
fn shuffle_random_next_plays_an_existing_resource() {
    for _ in 0..50 {
        let mut p = manager(3, PlayMode::Shuffle);
        p.start();
        let effects = p.play_next();
        assert_eq!(effects.len(), 1);
        let paths = played(&effects);
        assert_eq!(paths.len(), 1);
        assert!((0..3).any(|i| paths[0] == path(i)));
    }
}

#[test]
fn shuffle_after_mode_change_cannot_advance() {
    let mut p = manager(3, PlayMode::Default);
    p.start();
    assert!(p.can_advance());
    p.change_play_mode(PlayMode::Shuffle);
    assert!(!p.can_advance());
    // Going back is still defined and plays nothing: the history is empty.
    assert!(p.play_previous().is_empty());
}

#[test]
fn tick_reports_finished_and_advances() {
    let mut p = manager(2, PlayMode::Default);
    p.start();
    assert!(p.tick(false).is_empty());
    let effects = p.tick(true);
    assert_eq!(effects.len(), 2);
    assert!(matches!(&effects[0], PlayerEffect::Emit(PlayerEvent::Finished(r)) if r.file_path == path(0)));
    assert_eq!(played(&effects), vec![path(1)]);
}

#[test]
fn step_dispatches_commands() {
    let mut p = manager(3, PlayMode::Default);
    p.start();
    let e = p.step(PlayerInput::Command(PlayerCommand::Pause));
    assert!(matches!(e[..], [PlayerEffect::Pause]));
    let e = p.step(PlayerInput::Command(PlayerCommand::Resume));
    assert!(matches!(e[..], [PlayerEffect::Resume]));
    let e = p.step(PlayerInput::Command(PlayerCommand::ChangeVolume(0.25)));
    assert!(matches!(e[..], [PlayerEffect::AdjustVolume(d)] if d == 0.25));
    let e = p.step(PlayerInput::Command(PlayerCommand::ChangeVolumeTo(0.75)));
    assert!(matches!(e[..], [PlayerEffect::SetVolume(v)] if v == 0.75));
    assert_eq!(p.curr_resource_index(), Some(0));
    let e = p.step(PlayerInput::Command(PlayerCommand::PlayNext));
    assert_eq!(played(&e), vec![path(1)]);
    let e = p.step(PlayerInput::Command(PlayerCommand::PlayPrevious));
    assert_eq!(played(&e), vec![path(0)]);
    let e = p.step(PlayerInput::Command(PlayerCommand::SetPlayMode(PlayMode::Shuffle)));
    assert!(e.is_empty());
    assert_eq!(p.config().play_mode, PlayMode::Shuffle);
    let e = p.step(PlayerInput::Tick { sink_empty: false });
    assert!(e.is_empty());
}

#[test]
fn no_stop_effect_for_valid_states() {
    let mut p = manager(2, PlayMode::RepeatList);
    p.start();
    for _ in 0..5 {
        let e = p.play_next();
        assert!(!is_stop(&e));
    }
}

#[test]
fn play_mode_default_is_default() {
    assert_eq!(PlayMode::default(), PlayMode::Default);
}
