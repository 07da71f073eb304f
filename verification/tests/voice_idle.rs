use little_bobby_tabots::voice_idle::{
    human_listeners, EmptyChannelTimers, TimerAction, VoiceMember, EMPTY_CHANNEL_SECONDS,
};

#[test]
fn empty_channel_starts_one_timer() {
    let mut timers = EmptyChannelTimers::new();

    assert_eq!(EMPTY_CHANNEL_SECONDS, 600);
    assert_eq!(timers.refresh(7, Some(0)), TimerAction::Start(0));
    assert_eq!(timers.refresh(7, Some(0)), TimerAction::Nothing);
    assert_eq!(timers.refresh(8, Some(0)), TimerAction::Start(1));
    assert!(timers.expire(7, 0));
    assert!(timers.expire(8, 1));
}

#[test]
fn listener_cancels_the_timer() {
    let mut timers = EmptyChannelTimers::default();

    assert_eq!(timers.refresh(7, Some(2)), TimerAction::Nothing);
    assert_eq!(timers.refresh(7, Some(0)), TimerAction::Start(0));
    assert_eq!(timers.refresh(7, Some(1)), TimerAction::Cancel);
    assert!(!timers.expire(7, 0));
}

#[test]
fn leaving_voice_cancels_the_timer() {
    let mut timers = EmptyChannelTimers::new();

    assert_eq!(timers.refresh(7, None), TimerAction::Nothing);
    assert_eq!(timers.refresh(7, Some(0)), TimerAction::Start(0));
    assert_eq!(timers.refresh(7, None), TimerAction::Cancel);
    assert!(!timers.expire(7, 0));
}

#[test]
fn stale_timer_leaves_the_newer_one_alone() {
    let mut timers = EmptyChannelTimers::new();

    assert_eq!(timers.refresh(7, Some(0)), TimerAction::Start(0));
    assert_eq!(timers.refresh(7, Some(3)), TimerAction::Cancel);
    assert_eq!(timers.refresh(7, Some(0)), TimerAction::Start(1));
    assert!(!timers.expire(7, 0));
    assert!(timers.expire(7, 1));
    assert!(!timers.expire(7, 1));
}

#[test]
fn members_not_known_to_be_bots_listen() {
    let member = |channel_id: Option<u64>, is_bot: Option<bool>| VoiceMember { channel_id, is_bot };
    let members = vec![
        member(Some(5), Some(true)),
        member(Some(5), Some(false)),
        member(Some(5), None),
        member(Some(6), Some(false)),
        member(None, Some(false)),
    ];

    assert_eq!(human_listeners(&members, 5), 2);
    assert_eq!(human_listeners(&members, 6), 1);
    assert_eq!(human_listeners(&members[..1].to_vec(), 5), 0);
    assert_eq!(human_listeners(&Vec::new(), 5), 0);
}
