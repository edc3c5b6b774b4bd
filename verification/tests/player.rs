use suzumi::player::{
    MusicPlayer, PlaybackRequest, PlayerCommand, Session, StepAction, COMMAND_QUEUE_CAPACITY,
};

fn request(tenant: u64, source: &str) -> PlaybackRequest<String> {
    PlaybackRequest { tenant, source: source.to_string() }
}

/// Drives one command and, when the scheduler hands a request back to start,
/// reports the join as successful with the given handle.
fn step_and_start(p: &mut MusicPlayer<String, u32>, cmd: PlayerCommand<String>, handle: u32) {
    match p.step(cmd) {
        StepAction::Start(r) => {
            let tenant = r.tenant;
            p.started(tenant, handle);
        }
        StepAction::Idle => {}
        other => panic!("unexpected action: {:?}", other),
    }
}

#[test]
fn queue_capacity_matches_the_channel() {
    assert_eq!(COMMAND_QUEUE_CAPACITY, 64);
}

#[test]
fn three_enqueues_back_to_back() {
    let a = 1u64;
    let b = 2u64;
    let c = 3u64;
    let mut p: MusicPlayer<String, u32> = MusicPlayer::new();
    assert_eq!(p.active_tenant(), None);
    assert_eq!(p.backlog_len(), 0);

    step_and_start(&mut p, PlayerCommand::Enqueue(request(a, "first")), 10);
    step_and_start(&mut p, PlayerCommand::Enqueue(request(b, "second")), 11);
    step_and_start(&mut p, PlayerCommand::Enqueue(request(c, "third")), 12);

    assert_eq!(p.active_tenant(), Some(a));
    assert_eq!(p.backlog_len(), 2);

    // The backlog holds exactly B then C, in submission order.
    let (stopped, next) = p.stop(a);
    assert_eq!(stopped, Some(Session { tenant: a, handle: 10 }));
    let next = next.expect("front of the backlog");
    assert_eq!(next, request(b, "second"));
    p.started(next.tenant, 13);
    let (stopped, next) = p.stop(b);
    assert_eq!(stopped, Some(Session { tenant: b, handle: 13 }));
    assert_eq!(next, Some(request(c, "third")));
    assert_eq!(p.backlog_len(), 0);
}

#[test]
fn track_finished_then_fresh_enqueue() {
    let a = 1u64;
    let d = 4u64;
    let mut p: MusicPlayer<String, u32> = MusicPlayer::new();

    step_and_start(&mut p, PlayerCommand::Enqueue(request(a, "first")), 10);
    assert_eq!(p.active_tenant(), Some(a));

    let (leave, next) = p.track_finished();
    assert_eq!(leave, Some(a));
    assert_eq!(next, None);
    assert_eq!(p.active_tenant(), None);

    step_and_start(&mut p, PlayerCommand::Enqueue(request(d, "fourth")), 14);
    assert_eq!(p.active_tenant(), Some(d));
    assert_eq!(p.backlog_len(), 0);
}

#[test]
fn stop_promotes_exactly_the_front() {
    let mut p: MusicPlayer<String, u32> = MusicPlayer::new();
    step_and_start(&mut p, PlayerCommand::Enqueue(request(7, "x")), 1);
    step_and_start(&mut p, PlayerCommand::Enqueue(request(8, "y")), 2);
    step_and_start(&mut p, PlayerCommand::Enqueue(request(9, "z")), 3);

    match p.step(PlayerCommand::Stop(7)) {
        StepAction::Teardown { stop, leave, next } => {
            assert_eq!(stop, Some(1));
            assert_eq!(leave, 7);
            assert_eq!(next, Some(request(8, "y")));
        }
        other => panic!("unexpected action: {:?}", other),
    }
    assert_eq!(p.active_tenant(), None);
    assert_eq!(p.backlog_len(), 1);
}

#[test]
fn stop_of_another_tenant_is_a_no_op() {
    let mut p: MusicPlayer<String, u32> = MusicPlayer::new();
    step_and_start(&mut p, PlayerCommand::Enqueue(request(7, "x")), 1);

    assert_eq!(p.step(PlayerCommand::Stop(8)), StepAction::Idle);
    assert_eq!(p.active_tenant(), Some(7));
}

#[test]
fn track_finished_hands_back_no_handle_to_stop() {
    let mut p: MusicPlayer<String, u32> = MusicPlayer::new();
    step_and_start(&mut p, PlayerCommand::Enqueue(request(7, "x")), 1);
    step_and_start(&mut p, PlayerCommand::Enqueue(request(8, "y")), 2);

    match p.step(PlayerCommand::TrackFinished) {
        StepAction::Teardown { stop, leave, next } => {
            assert_eq!(stop, None);
            assert_eq!(leave, 7);
            assert_eq!(next, Some(request(8, "y")));
        }
        other => panic!("unexpected action: {:?}", other),
    }
}

#[test]
fn spurious_track_finished_is_ignored() {
    let mut p: MusicPlayer<String, u32> = MusicPlayer::new();
    assert_eq!(p.step(PlayerCommand::TrackFinished), StepAction::Idle);
    assert_eq!(p.active_tenant(), None);
    assert_eq!(p.backlog_len(), 0);
}

#[test]
fn shutdown_is_the_last_command_processed() {
    let mut p: MusicPlayer<String, u32> = MusicPlayer::new();
    let queued = vec![
        PlayerCommand::Enqueue(request(1, "a")),
        PlayerCommand::Shutdown,
        PlayerCommand::Enqueue(request(2, "b")),
        PlayerCommand::Stop(1),
    ];

    let mut processed = 0usize;
    for cmd in queued {
        processed += 1;
        match p.step(cmd) {
            StepAction::Start(r) => {
                let tenant = r.tenant;
                p.started(tenant, 42);
            }
            StepAction::Exit(live) => {
                // The live session is handed back for an orderly teardown.
                assert_eq!(live, Some(Session { tenant: 1, handle: 42 }));
                break;
            }
            StepAction::Idle => {}
            StepAction::Teardown { .. } => panic!("nothing should be torn down here"),
        }
    }

    assert_eq!(processed, 2);
    assert_eq!(p.active_tenant(), None);
    assert_eq!(p.backlog_len(), 0);
}
