use gcookie::restart::{LockRelease, RmAction, RmPhase, RmReply, ERROR_MORE_DATA, ERROR_SUCCESS};

const OK: RmReply = RmReply { status: ERROR_SUCCESS, holders: 0 };

fn reply(status: u32, holders: u32) -> RmReply {
    RmReply { status, holders }
}

/// Runs the coordinator against a scripted restart manager; returns the
/// actions it asked for, after the first.
fn drive(replies: &[RmReply]) -> Vec<RmAction> {
    let (mut lr, first) = LockRelease::begin();
    assert_eq!(first, RmAction::StartSession);
    let mut actions = Vec::new();
    for r in replies {
        let a = lr.on_reply(*r);
        actions.push(a);
        if let RmAction::Finish(_) = a {
            break;
        }
    }
    actions
}

fn ends(actions: &[RmAction]) -> usize {
    actions.iter().filter(|a| **a == RmAction::EndSession).count()
}

#[test]
fn zero_holders_released_without_shutdown() {
    let actions = drive(&[OK, OK, reply(ERROR_SUCCESS, 0), OK]);
    assert_eq!(
        actions,
        vec![
            RmAction::RegisterResource,
            RmAction::ListHolders,
            RmAction::EndSession,
            RmAction::Finish(true)
        ]
    );
    assert!(!actions.contains(&RmAction::ForceShutdown));
    assert_eq!(ends(&actions), 1);
}

#[test]
fn one_holder_forced_shutdown_released() {
    let actions = drive(&[OK, OK, reply(ERROR_SUCCESS, 1), OK, OK]);
    assert_eq!(
        actions,
        vec![
            RmAction::RegisterResource,
            RmAction::ListHolders,
            RmAction::ForceShutdown,
            RmAction::EndSession,
            RmAction::Finish(true)
        ]
    );
    assert_eq!(ends(&actions), 1);
}

#[test]
fn more_data_counts_as_listed() {
    let actions = drive(&[OK, OK, reply(ERROR_MORE_DATA, 3), OK, OK]);
    assert_eq!(actions[2], RmAction::ForceShutdown);
    assert_eq!(*actions.last().unwrap(), RmAction::Finish(true));
    assert_eq!(ends(&actions), 1);
}

#[test]
fn shutdown_refused_not_released() {
    let actions = drive(&[OK, OK, reply(ERROR_SUCCESS, 1), reply(5, 0), OK]);
    assert_eq!(*actions.last().unwrap(), RmAction::Finish(false));
    assert_eq!(ends(&actions), 1);
}

#[test]
fn register_or_list_failure_ends_session() {
    let a = drive(&[OK, reply(87, 0), OK]);
    assert_eq!(a, vec![RmAction::RegisterResource, RmAction::EndSession, RmAction::Finish(false)]);
    let b = drive(&[OK, OK, reply(87, 0), OK]);
    assert_eq!(
        b,
        vec![
            RmAction::RegisterResource,
            RmAction::ListHolders,
            RmAction::EndSession,
            RmAction::Finish(false)
        ]
    );
}

#[test]
fn failed_start_never_ends_session() {
    let a = drive(&[reply(1, 0)]);
    assert_eq!(a, vec![RmAction::Finish(false)]);
    assert_eq!(ends(&a), 0);
}

#[test]
fn session_open_tracks_phase() {
    let (mut lr, _) = LockRelease::begin();
    assert!(!lr.is_session_open());
    lr.on_reply(OK);
    assert!(lr.is_session_open());
    assert_eq!(lr.phase, RmPhase::Registering);
    lr.on_reply(reply(2, 0));
    assert!(!lr.is_session_open());
    assert_eq!(lr.on_reply(OK), RmAction::Finish(false));
    assert_eq!(lr.on_reply(OK), RmAction::Finish(false));
}
