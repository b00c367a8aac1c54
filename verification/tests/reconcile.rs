use partymode::config::{Config, InhibitMode, InhibitTarget, Rule};
use partymode::daemon::{plan_pass, DaemonState};
use partymode::player::{Player, PlaybackStatus};

fn config_with_default(default_rule: Rule) -> Config {
    Config { default_enabled: true, poll_interval: 5000, default_rule, rules: Vec::new() }
}

fn idle_default() -> Rule {
    Rule { always: false, mode: None, targets: vec![InhibitTarget::Idle] }
}

#[test]
fn disabled_non_always_requests_nothing() {
    let c = config_with_default(idle_default());
    let players = vec![Player::new("org.mpris.MediaPlayer2.A".to_string(), PlaybackStatus::Playing)];
    let plan = plan_pass(&c, false, &players);
    assert!(plan.is_empty());
}

#[test]
fn disabled_always_rule_still_requests() {
    let mut c = config_with_default(idle_default());
    c.rules.push((
        "A".to_string(),
        Rule { always: true, mode: None, targets: vec![InhibitTarget::Sleep] },
    ));
    let players = vec![Player::new("org.mpris.MediaPlayer2.A".to_string(), PlaybackStatus::Playing)];
    let plan = plan_pass(&c, false, &players);
    assert_eq!(plan.len(), 1);
    assert_eq!(plan[0].player, "A");
    assert_eq!(plan[0].targets, vec![InhibitTarget::Sleep]);
}

#[test]
fn empty_targets_are_skipped() {
    let c = config_with_default(Rule { always: true, mode: None, targets: vec![] });
    let players = vec![Player::new("org.mpris.MediaPlayer2.A".to_string(), PlaybackStatus::Playing)];
    let plan = plan_pass(&c, true, &players);
    assert!(plan.is_empty());
}

#[test]
fn paused_and_stopped_players_are_ignored() {
    let c = config_with_default(idle_default());
    let players = vec![
        Player::new("org.mpris.MediaPlayer2.A".to_string(), PlaybackStatus::Paused),
        Player::new("org.mpris.MediaPlayer2.B".to_string(), PlaybackStatus::Stopped),
    ];
    let plan = plan_pass(&c, true, &players);
    assert!(plan.is_empty());
}

#[test]
fn request_carries_provider_arguments() {
    let c = config_with_default(Rule {
        always: false,
        mode: None,
        targets: vec![InhibitTarget::Idle, InhibitTarget::Sleep],
    });
    let players = vec![Player::new("org.mpris.MediaPlayer2.mpv".to_string(), PlaybackStatus::Playing)];
    let plan = plan_pass(&c, true, &players);
    assert_eq!(plan.len(), 1);
    assert_eq!(plan[0].player, "mpv");
    assert_eq!(plan[0].what, "idle:sleep");
    assert_eq!(plan[0].who, "partymode");
    assert_eq!(plan[0].why, "mpv is playing media");
    // No mode set anywhere falls back to Block.
    assert_eq!(plan[0].mode, InhibitMode::Block);
}

#[test]
fn request_mode_comes_from_rule_when_set() {
    let mut c = config_with_default(idle_default());
    c.rules.push((
        "mpv".to_string(),
        Rule { always: false, mode: Some(InhibitMode::BlockWeak), targets: vec![] },
    ));
    let players = vec![Player::new("org.mpris.MediaPlayer2.mpv".to_string(), PlaybackStatus::Playing)];
    let plan = plan_pass(&c, true, &players);
    assert_eq!(plan.len(), 1);
    assert_eq!(plan[0].mode, InhibitMode::BlockWeak);
    assert_eq!(plan[0].targets, vec![InhibitTarget::Idle]);
}

#[test]
fn reconcile_two_passes_supersede_locks() {
    // First pass: A playing, B stopped, default rule inhibits idling,
    // enabled on: exactly one lock, for A. Second pass: A stopped,
    // the previous lock is released.
    let c = config_with_default(idle_default());
    let mut state = DaemonState::new(c);

    let snapshot = vec![
        Player::new("org.mpris.MediaPlayer2.A".to_string(), PlaybackStatus::Playing),
        Player::new("org.mpris.MediaPlayer2.B".to_string(), PlaybackStatus::Stopped),
    ];
    let plan = plan_pass(&state.config, state.enabled, &snapshot);
    assert_eq!(plan.len(), 1);
    assert_eq!(plan[0].player, "A");
    assert_eq!(plan[0].what, "idle");
    state.commit_pass(plan);
    assert_eq!(state.held_locks.len(), 1);
    assert_eq!(state.held_locks[0].player, "A");

    let snapshot = vec![Player::new("org.mpris.MediaPlayer2.A".to_string(), PlaybackStatus::Stopped)];
    let plan = plan_pass(&state.config, state.enabled, &snapshot);
    assert!(plan.is_empty());
    state.commit_pass(plan);
    assert!(state.held_locks.is_empty());
}

#[test]
fn zero_playing_players_empty_plan() {
    let c = config_with_default(idle_default());
    let players: Vec<Player> = Vec::new();
    let plan = plan_pass(&c, true, &players);
    assert!(plan.is_empty());
}

#[test]
fn plan_keeps_snapshot_order() {
    let c = config_with_default(idle_default());
    let players = vec![
        Player::new("org.mpris.MediaPlayer2.A".to_string(), PlaybackStatus::Playing),
        Player::new("org.mpris.MediaPlayer2.B".to_string(), PlaybackStatus::Playing),
    ];
    let plan = plan_pass(&c, true, &players);
    assert_eq!(plan.len(), 2);
    assert_eq!(plan[0].player, "A");
    assert_eq!(plan[1].player, "B");
}

#[test]
fn player_accessors() {
    let p = Player::new("org.mpris.MediaPlayer2.vlc".to_string(), PlaybackStatus::Paused);
    assert_eq!(p.name(), "org.mpris.MediaPlayer2.vlc");
    assert_eq!(p.status(), PlaybackStatus::Paused);
    assert!(partymode::player::is_mpris_name(p.name()));
    assert!(!partymode::player::is_mpris_name("org.gnome.Shell"));
}
