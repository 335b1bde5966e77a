use ros_z_action::action::{GoalId, GoalStatus, ZAction, ZNode};
use ros_z_action::builder::{BuildProgress, ZActionServerBuilder};
use ros_z_action::messages::{GoalRequest, GoalResponse, StatusMessage};
use ros_z_action::server::{ExecutingGoal, RequestedGoal, ServerMode, ZActionServer};
use ros_z_action::time::{Duration, Instant, Reading};

struct Fibonacci;

impl ZAction for Fibonacci {
    type Goal = u32;
    type Result = Vec<u32>;
    type Feedback = u32;

    fn name() -> String {
        String::from("example_interfaces/action/Fibonacci")
    }
}

fn server_with(goal_timeout: Option<Duration>) -> ZActionServer<Fibonacci> {
    let node = ZNode { namespace: String::from("/"), name: String::from("node") };
    let mut builder = ZActionServerBuilder::new("fibonacci", &node);
    if let Some(timeout) = goal_timeout {
        builder = builder.goal_timeout(timeout);
    }
    let named = builder.build::<()>(String::from("fibonacci")).ok().unwrap();
    let mut build = named.qualified::<()>(Ok(String::from("/fibonacci"))).ok().unwrap();
    loop {
        match build.created::<()>(Ok(())).ok().unwrap() {
            BuildProgress::Creating(next) => build = next,
            BuildProgress::Built(server) => return server,
        }
    }
}

fn server() -> ZActionServer<Fibonacci> {
    server_with(None)
}

fn at(nanos: u128) -> Reading {
    Reading { now: Instant { nanos }, stamp: nanos as i64 + 1000 }
}

fn requested(
    server: &ZActionServer<Fibonacci>,
    goal_id: GoalId,
    goal: u32,
) -> RequestedGoal<Fibonacci> {
    server.recv_goal(GoalRequest { goal_id, goal }, 77, 5)
}

fn running(
    server: &mut ZActionServer<Fibonacci>,
    goal_id: GoalId,
    goal: u32,
) -> ExecutingGoal<Fibonacci> {
    let acceptance = requested(server, goal_id, goal).accept(server, at(0));
    acceptance.goal.execute(server, at(0)).goal
}

fn statuses(message: &StatusMessage) -> Vec<(GoalId, GoalStatus)> {
    let mut list: Vec<(GoalId, GoalStatus)> = message
        .status_list
        .iter()
        .map(|entry| (entry.goal_info.goal_id, entry.status))
        .collect();
    list.sort_by_key(|entry| entry.0);
    list
}

#[test]
fn a_requested_goal_holds_what_was_asked_for() {
    let server = server();
    let goal = server.recv_goal(GoalRequest { goal_id: 9, goal: 13 }, 3, -8);
    assert_eq!(*goal.goal(), 13);
    assert_eq!(goal.info().goal_id, 9);
    assert_eq!(goal.info().stamp, -8);
    assert_eq!(goal.info.goal_id, 9);
    assert_eq!(goal.goal, 13);
}

#[test]
fn accepting_answers_the_client_and_reports_the_goal() {
    let mut server = server();
    let goal = requested(&server, 9, 13);
    let sent = goal.accept_reply();
    let outcome = goal.accept(&mut server, at(4));
    assert_eq!(outcome.reply, sent);
    let reply = outcome.reply.unwrap();
    assert_eq!(reply.query, 77);
    assert_eq!(reply.response, GoalResponse { accepted: true, stamp: 5 });
    assert_eq!(statuses(&outcome.status), vec![(9, GoalStatus::Accepted)]);
    assert_eq!(outcome.status.status_list[0].goal_info.stamp, 1004);
    assert_eq!(*outcome.goal.goal(), 13);
    assert_eq!(outcome.goal.info().goal_id, 9);
    assert_eq!(outcome.goal.info().stamp, 5);
}

#[test]
fn rejecting_answers_the_client_and_leaves_the_server_alone() {
    let server = server();
    let reply = requested(&server, 9, 13).reject().unwrap();
    assert_eq!(reply.query, 77);
    assert_eq!(reply.response, GoalResponse { accepted: false, stamp: 0 });
    assert!(server.publish_status(0).status_list.is_empty());
    assert!(server.goal_result(9).is_none());
}

#[test]
fn status_follows_a_goal_through_its_life() {
    let mut server = server();
    let acceptance = requested(&server, 1, 2).accept(&mut server, at(0));
    assert_eq!(statuses(&acceptance.status), vec![(1, GoalStatus::Accepted)]);
    let execution = acceptance.goal.execute(&mut server, at(1));
    assert_eq!(statuses(&execution.status), vec![(1, GoalStatus::Executing)]);
    assert_eq!(*execution.goal.goal(), 2);
    assert_eq!(execution.goal.info().goal_id, 1);
    let end = execution.goal.succeed(&mut server, vec![0, 1, 1], at(2));
    assert_eq!(statuses(&end), vec![(1, GoalStatus::Succeeded)]);
}

#[test]
fn status_reports_every_goal_once() {
    let mut server = server();
    let _first = running(&mut server, 1, 1);
    let second = running(&mut server, 2, 1);
    let third = running(&mut server, 3, 1);
    let _fourth = requested(&server, 4, 1).accept(&mut server, at(0));
    second.abort(&mut server, vec![], at(1));
    let message = third.canceled(&mut server, vec![], at(1));
    assert_eq!(
        statuses(&message),
        vec![
            (1, GoalStatus::Executing),
            (2, GoalStatus::Aborted),
            (3, GoalStatus::Canceled),
            (4, GoalStatus::Accepted),
        ]
    );
    let again = server.publish_status(1001);
    assert_eq!(statuses(&again), statuses(&message));
    assert!(again.status_list.iter().all(|entry| entry.goal_info.stamp == 1001));
}

#[test]
fn a_result_reads_back_once_the_goal_is_terminated() {
    let mut server = server();
    assert!(server.goal_result(1).is_none());
    let acceptance = requested(&server, 1, 2).accept(&mut server, at(0));
    assert!(server.goal_result(1).is_none());
    let execution = acceptance.goal.execute(&mut server, at(0));
    assert!(server.goal_result(1).is_none());
    execution.goal.abort(&mut server, vec![0, 1], at(0));
    let response = server.goal_result(1).unwrap();
    assert_eq!(response.status, GoalStatus::Aborted);
    assert_eq!(response.result, vec![0, 1]);
    let again = server.goal_result(1).unwrap();
    assert_eq!(again.result, vec![0, 1]);
}

#[test]
fn results_survive_what_happens_to_other_goals() {
    let mut server = server();
    running(&mut server, 1, 2).succeed(&mut server, vec![7], at(10));
    let other = running(&mut server, 2, 2);
    server.request_cancel(2);
    other.canceled(&mut server, vec![8], at(11));
    server.expire_goals(Duration { nanos: 10 }, at(20));
    assert_eq!(server.goal_result(1).unwrap().result, vec![7]);
    assert_eq!(server.goal_result(2).unwrap().result, vec![8]);
}

#[test]
fn a_goal_that_is_accepted_again_has_no_result() {
    let mut server = server();
    running(&mut server, 1, 2).succeed(&mut server, vec![7], at(10));
    let _again = requested(&server, 1, 3).accept(&mut server, at(11));
    assert!(server.goal_result(1).is_none());
}

#[test]
fn feedback_names_its_goal() {
    let mut server = server();
    let goal = running(&mut server, 6, 2);
    let message = goal.publish_feedback(55);
    assert_eq!(message.goal_id, 6);
    assert_eq!(message.feedback, 55);
}

#[test]
fn a_cancel_request_reaches_the_executor() {
    let mut server = server();
    let goal = running(&mut server, 1, 2);
    let other = running(&mut server, 2, 2);
    assert!(!goal.is_cancel_requested(&server));
    assert!(server.request_cancel(1));
    assert!(goal.is_cancel_requested(&server));
    assert!(!other.is_cancel_requested(&server));
    assert!(server.request_cancel(1));
    assert!(goal.is_cancel_requested(&server));
    let message = server.publish_status(0);
    assert_eq!(
        statuses(&message),
        vec![(1, GoalStatus::Executing), (2, GoalStatus::Executing)]
    );
}

#[test]
fn only_running_goals_can_be_canceled() {
    let mut server = server();
    assert!(!server.request_cancel(1));
    let acceptance = requested(&server, 1, 2).accept(&mut server, at(0));
    assert!(!server.request_cancel(1));
    let goal = acceptance.goal.execute(&mut server, at(0)).goal;
    assert!(!goal.is_cancel_requested(&server));
    goal.succeed(&mut server, vec![], at(0));
    assert!(!server.request_cancel(1));
}

#[test]
fn a_cancel_request_is_not_forgotten() {
    let mut server = server();
    let goal = running(&mut server, 1, 2);
    server.request_cancel(1);
    let other = running(&mut server, 2, 2);
    other.succeed(&mut server, vec![], at(1));
    server.expire_goals(Duration { nanos: 0 }, at(100));
    server.set_result_timeout(Duration::from_secs(1));
    assert!(goal.is_cancel_requested(&server));
}

#[test]
fn each_execution_has_its_own_flag() {
    let mut server = server();
    let first = running(&mut server, 1, 2);
    let second = running(&mut server, 1, 3);
    assert!(server.request_cancel(1));
    assert!(!first.is_cancel_requested(&server));
    assert!(second.is_cancel_requested(&server));
    second.canceled(&mut server, vec![], at(1));
    assert!(!first.is_cancel_requested(&server));
}

#[test]
fn expiry_forgets_what_is_older_than_the_age() {
    let mut server = server();
    running(&mut server, 1, 2).succeed(&mut server, vec![], at(100));
    running(&mut server, 2, 2).abort(&mut server, vec![], at(101));
    running(&mut server, 3, 2).canceled(&mut server, vec![], at(99));
    let _running = running(&mut server, 4, 2);
    let _accepted = requested(&server, 5, 1).accept(&mut server, at(0));
    let mut outcome = server.expire_goals(Duration { nanos: 10 }, at(111));
    outcome.expired.sort();
    assert_eq!(outcome.expired, vec![1, 3]);
    let message = outcome.status.unwrap();
    assert_eq!(
        statuses(&message),
        vec![(2, GoalStatus::Aborted), (4, GoalStatus::Executing), (5, GoalStatus::Accepted)]
    );
    assert!(server.goal_result(1).is_none());
    assert!(server.goal_result(2).is_some());
    let again = server.expire_goals(Duration { nanos: 10 }, at(111));
    assert!(again.expired.is_empty());
    assert!(again.status.is_none());
    let later = server.expire_goals(Duration { nanos: 10 }, at(112));
    assert_eq!(later.expired, vec![2]);
}

#[test]
fn expiry_of_nothing_publishes_nothing() {
    let mut server = server();
    let outcome = server.expire_goals(Duration { nanos: 0 }, at(5));
    assert!(outcome.expired.is_empty());
    assert!(outcome.status.is_none());
}

#[test]
fn a_goal_that_ended_ahead_of_the_clock_has_no_age() {
    let mut server = server();
    running(&mut server, 1, 2).succeed(&mut server, vec![], at(100));
    assert!(server.expire_goals(Duration { nanos: 0 }, at(50)).expired.is_empty());
    assert!(server.expire_goals(Duration { nanos: 0 }, at(100)).expired.is_empty());
    assert_eq!(server.expire_goals(Duration { nanos: 0 }, at(101)).expired, vec![1]);
}

#[test]
fn the_result_timeout_reads_back() {
    let mut server = server();
    assert_eq!(server.result_timeout(), Duration::from_secs(10));
    server.set_result_timeout(Duration::from_secs(30));
    assert_eq!(server.result_timeout(), Duration::from_secs(30));
    running(&mut server, 1, 2).succeed(&mut server, vec![], at(1));
    assert_eq!(server.result_timeout(), Duration::from_secs(30));
}

#[test]
fn deadlines_must_fit_the_clock() {
    let server = server_with(Some(Duration { nanos: 5 }));
    assert!(server.deadline_fits(Instant { nanos: u128::MAX - 5 }));
    assert!(!server.deadline_fits(Instant { nanos: u128::MAX - 4 }));
    assert!(server.has_free_flag());
    let unlimited = server_with(None);
    assert!(unlimited.deadline_fits(Instant { nanos: u128::MAX }));
}

#[test]
fn instants_and_durations_count_nanoseconds() {
    assert_eq!(Duration::from_secs(3).nanos, 3_000_000_000);
    assert_eq!(Duration::from_secs(u64::MAX).nanos, u64::MAX as u128 * 1_000_000_000);
    assert_eq!(Duration::from_nanos(17).nanos, 17);
    let start = Instant { nanos: 5 };
    let end = start.after(Duration::from_nanos(7));
    assert_eq!(end.nanos, 12);
    assert_eq!(end.duration_since(start), Duration::from_nanos(7));
    assert_eq!(start.duration_since(end), Duration::from_nanos(0));
}

#[test]
fn a_handler_replaces_the_result_handler_only() {
    let mut server = server();
    let result_handler = server.result_handler_token();
    let shutdown = server.shutdown_token();
    let driver_stop = server.with_handler();
    assert_eq!(server.mode(), ServerMode::Automatic);
    assert!(result_handler.is_cancelled());
    assert!(!shutdown.is_cancelled());
    assert!(!driver_stop.is_cancelled());
    server.shutdown();
    assert!(shutdown.is_cancelled());
    assert!(driver_stop.is_cancelled());
}

#[test]
fn shutdown_spares_the_result_handler_token() {
    let mut server = server();
    server.shutdown();
    assert!(server.shutdown_token().is_cancelled());
    assert!(!server.result_handler_token().is_cancelled());
    assert_eq!(server.mode(), ServerMode::Manual);
    server.shutdown();
    assert!(server.shutdown_token().is_cancelled());
}

#[test]
fn goals_know_their_server() {
    let mut here = server();
    let there = server();
    let goal = requested(&here, 1, 2);
    assert!(goal.belongs_to(&here));
    assert!(!goal.belongs_to(&there));
    let goal = goal.accept(&mut here, at(0)).goal;
    assert!(goal.belongs_to(&here));
    let goal = goal.execute(&mut here, at(0)).goal;
    assert!(goal.belongs_to(&here));
    assert!(!goal.belongs_to(&there));
}

#[test]
fn goal_data_and_info_are_kept() {
    let mut server = server();
    let goal = requested(&server, 6, 21);
    assert_eq!((*goal.goal(), goal.info().goal_id, goal.info().stamp), (21, 6, 5));
    let goal = goal.accept(&mut server, at(3)).goal;
    assert_eq!((*goal.goal(), goal.info().goal_id, goal.info().stamp), (21, 6, 5));
    let goal = goal.execute(&mut server, at(4)).goal;
    assert_eq!((*goal.goal(), goal.info().goal_id, goal.info().stamp), (21, 6, 5));
}

#[test]
fn cancel_requests_over_the_life_of_a_goal() {
    let mut server = server();
    assert!(!server.request_cancel(1));
    let goal = requested(&server, 1, 2);
    assert!(!server.request_cancel(1));
    let goal = goal.accept(&mut server, at(0)).goal;
    assert!(!server.request_cancel(1));
    let goal = goal.execute(&mut server, at(0)).goal;
    let other = running(&mut server, 2, 2);
    assert!(server.request_cancel(2));
    assert!(!goal.is_cancel_requested(&server));
    other.canceled(&mut server, vec![], at(1));
    assert!(server.request_cancel(1));
    assert!(server.request_cancel(1));
    assert!(goal.is_cancel_requested(&server));
    goal.canceled(&mut server, vec![], at(2));
    assert!(!server.request_cancel(1));
}
