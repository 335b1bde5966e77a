use ros_z_action::action::{GoalId, GoalInfo, GoalStatus, ZAction, ZNode};
use ros_z_action::builder::{BuildProgress, ZActionServerBuilder};
use ros_z_action::driver::{
    handle_cancel_request, handle_goal_request, handle_result_request, next_event, Driver,
    DriverAction, DriverEvent, GoalStart, ResultHandler, ResultHandlerEvent,
};
use ros_z_action::messages::{CancelGoalRequest, GoalRequest, GoalResponse, ResultRequest};
use ros_z_action::server::ZActionServer;
use ros_z_action::time::{Instant, Reading};

struct Countdown;

impl ZAction for Countdown {
    type Goal = u8;
    type Result = String;
    type Feedback = u8;

    fn name() -> String {
        String::from("demo/action/Countdown")
    }
}

fn server() -> ZActionServer<Countdown> {
    let node = ZNode { namespace: String::from("/"), name: String::from("node") };
    let builder = ZActionServerBuilder::new("countdown", &node);
    let named = builder.build::<()>(String::from("countdown")).ok().unwrap();
    let mut build = named.qualified::<()>(Ok(String::from("/countdown"))).ok().unwrap();
    loop {
        match build.created::<()>(Ok(())).ok().unwrap() {
            BuildProgress::Creating(next) => build = next,
            BuildProgress::Built(server) => return server,
        }
    }
}

fn at(nanos: u128) -> Reading {
    Reading { now: Instant { nanos }, stamp: 50 }
}

fn cancel(goal_id: GoalId) -> CancelGoalRequest {
    CancelGoalRequest { goal_info: GoalInfo { goal_id, stamp: 3 } }
}

fn start(server: &mut ZActionServer<Countdown>, goal_id: GoalId) -> GoalStart<Countdown> {
    handle_goal_request(server, GoalRequest { goal_id, goal: 4 }, 21, at(0))
}

#[test]
fn a_goal_request_sets_the_goal_running() {
    let mut server = server();
    let started = start(&mut server, 8);
    let reply = started.reply.unwrap();
    assert_eq!(reply.query, 21);
    assert_eq!(reply.response, GoalResponse { accepted: true, stamp: 50 });
    assert_eq!(started.accepted_status.status_list.len(), 1);
    assert_eq!(started.accepted_status.status_list[0].status, GoalStatus::Accepted);
    assert_eq!(started.executing_status.status_list.len(), 1);
    assert_eq!(started.executing_status.status_list[0].status, GoalStatus::Executing);
    assert_eq!(started.executing_status.status_list[0].goal_info.goal_id, 8);
    assert_eq!(*started.goal.goal(), 4);
    assert_eq!(*started.goal.info(), GoalInfo { goal_id: 8, stamp: 50 });
}

#[test]
fn a_cancel_request_for_a_running_goal_is_granted() {
    let mut server = server();
    let started = start(&mut server, 8);
    let response = handle_cancel_request(&mut server, cancel(8));
    assert_eq!(response.return_code, 1);
    assert_eq!(response.goals_canceling, vec![GoalInfo { goal_id: 8, stamp: 3 }]);
    assert!(started.goal.is_cancel_requested(&server));
}

#[test]
fn a_cancel_request_for_another_goal_is_refused() {
    let mut server = server();
    let started = start(&mut server, 8);
    let response = handle_cancel_request(&mut server, cancel(9));
    assert_eq!(response.return_code, 0);
    assert!(response.goals_canceling.is_empty());
    assert!(!started.goal.is_cancel_requested(&server));
}

#[test]
fn a_result_request_waits_for_the_end() {
    let mut server = server();
    let started = start(&mut server, 8);
    assert!(handle_result_request(&server, ResultRequest { goal_id: 8 }).is_none());
    assert!(handle_result_request(&server, ResultRequest { goal_id: 9 }).is_none());
    started.goal.succeed(&mut server, String::from("lift-off"), at(1));
    let response = handle_result_request(&server, ResultRequest { goal_id: 8 }).unwrap();
    assert_eq!(response.status, GoalStatus::Succeeded);
    assert_eq!(response.result, "lift-off");
}

#[test]
fn the_driver_deals_with_every_request() {
    let mut server = server();
    let mut driver = Driver::new(true);
    let event = DriverEvent::Goal(Some((GoalRequest { goal_id: 1, goal: 2 }, 33)));
    let started = match driver.turn(&mut server, event, at(0)) {
        DriverAction::Start(started) => started,
        _ => panic!("the goal was not started"),
    };
    assert_eq!(started.reply.unwrap().query, 33);
    match driver.turn(&mut server, DriverEvent::Result(Some(ResultRequest { goal_id: 1 })), at(0))
    {
        DriverAction::ReplyResult(response) => assert!(response.is_none()),
        _ => panic!("no answer was considered"),
    }
    match driver.turn(&mut server, DriverEvent::Cancel(Some(cancel(1))), at(0)) {
        DriverAction::ReplyCancel(response) => assert_eq!(response.return_code, 1),
        _ => panic!("the cancel request was not answered"),
    }
    assert!(started.goal.is_cancel_requested(&server));
    started.goal.canceled(&mut server, String::from("hold"), at(2));
    match driver.turn(&mut server, DriverEvent::Result(Some(ResultRequest { goal_id: 1 })), at(3))
    {
        DriverAction::ReplyResult(Some(response)) => {
            assert_eq!(response.status, GoalStatus::Canceled);
            assert_eq!(response.result, "hold");
        }
        _ => panic!("the result request was not answered"),
    }
    assert!(driver.running);
}

#[test]
fn the_driver_waits_when_a_channel_cannot_be_read() {
    let mut server = server();
    let mut driver = Driver::new(true);
    for event in [DriverEvent::Goal(None), DriverEvent::Cancel(None), DriverEvent::Result(None)] {
        assert!(matches!(driver.turn(&mut server, event, at(0)), DriverAction::Wait));
        assert!(driver.running);
    }
    assert!(server.publish_status(0).status_list.is_empty());
}

#[test]
fn the_driver_stops_at_shutdown() {
    let mut server = server();
    let mut driver = Driver::new(true);
    let action = driver.turn(&mut server, DriverEvent::Shutdown, at(0));
    assert!(matches!(action, DriverAction::Stop));
    assert!(!driver.running);
    let event = DriverEvent::Goal(Some((GoalRequest { goal_id: 1, goal: 2 }, 33)));
    assert!(matches!(driver.turn(&mut server, event, at(0)), DriverAction::Stop));
    assert!(server.publish_status(0).status_list.is_empty());
}

#[test]
fn the_driver_serves_each_request_once_and_in_order() {
    let mut server = server();
    let mut driver = Driver::new(true);
    let mut started = Vec::new();
    let mut waited = 0;
    let events = [
        DriverEvent::Goal(Some((GoalRequest { goal_id: 4, goal: 1 }, 10))),
        DriverEvent::Cancel(None),
        DriverEvent::Goal(Some((GoalRequest { goal_id: 3, goal: 1 }, 11))),
        DriverEvent::Goal(None),
        DriverEvent::Shutdown,
        DriverEvent::Goal(Some((GoalRequest { goal_id: 2, goal: 1 }, 12))),
    ];
    for event in events {
        match driver.turn(&mut server, event, at(0)) {
            DriverAction::Start(start) => {
                started.push((start.goal.info().goal_id, start.reply.unwrap().query));
            }
            DriverAction::Wait => waited += 1,
            DriverAction::Stop => assert!(!driver.running),
            _ => panic!("nothing else was asked for"),
        }
    }
    assert_eq!(started, vec![(4, 10), (3, 11)]);
    assert_eq!(waited, 2);
    assert_eq!(server.publish_status(0).status_list.len(), 2);
}

#[test]
fn a_shutdown_goes_before_a_waiting_request() {
    let waiting = || Some(DriverEvent::<Countdown>::Cancel(Some(cancel(1))));
    assert!(matches!(next_event(true, waiting()), Some(DriverEvent::Shutdown)));
    assert!(matches!(next_event::<Countdown>(true, None), Some(DriverEvent::Shutdown)));
    assert!(matches!(next_event(false, waiting()), Some(DriverEvent::Cancel(Some(_)))));
    assert!(next_event::<Countdown>(false, None).is_none());
}

#[test]
fn the_goal_reply_can_be_sent_first() {
    let mut server = server();
    let mut driver = Driver::new(true);
    let event = DriverEvent::Goal(Some((GoalRequest { goal_id: 1, goal: 2 }, 33)));
    let reply = event.goal_reply(at(0)).unwrap();
    assert_eq!(reply.query, 33);
    assert_eq!(reply.response, GoalResponse { accepted: true, stamp: 50 });
    match driver.turn(&mut server, event, at(0)) {
        DriverAction::Start(started) => assert_eq!(started.reply, Some(reply)),
        _ => panic!("the goal was not started"),
    }
    assert!(DriverEvent::<Countdown>::Shutdown.goal_reply(at(0)).is_none());
    assert!(DriverEvent::<Countdown>::Goal(None).goal_reply(at(0)).is_none());
}

#[test]
fn the_driver_does_not_set_out_without_a_server() {
    let mut server = server();
    let mut driver = Driver::new(false);
    assert!(!driver.running);
    let event = DriverEvent::Cancel(Some(cancel(1)));
    assert!(matches!(driver.turn(&mut server, event, at(0)), DriverAction::Stop));
}

#[test]
fn the_result_handler_answers_result_requests() {
    let mut server = server();
    let started = start(&mut server, 8);
    let mut handler = ResultHandler::new();
    let ask = || ResultHandlerEvent::Request(Some(ResultRequest { goal_id: 8 }));
    assert!(handler.turn(&server, ask()).is_none());
    assert!(handler.turn(&server, ResultHandlerEvent::Request(None)).is_none());
    assert!(handler.running);
    started.goal.abort(&mut server, String::from("scrub"), at(1));
    let response = handler.turn(&server, ask()).unwrap();
    assert_eq!(response.status, GoalStatus::Aborted);
    assert_eq!(response.result, "scrub");
}

#[test]
fn the_result_handler_stops_when_it_is_replaced() {
    let mut server = server();
    let started = start(&mut server, 8);
    started.goal.succeed(&mut server, String::from("done"), at(1));
    let mut handler = ResultHandler::new();
    assert!(handler.turn(&server, ResultHandlerEvent::Replaced).is_none());
    assert!(!handler.running);
    let ask = ResultHandlerEvent::Request(Some(ResultRequest { goal_id: 8 }));
    assert!(handler.turn(&server, ask).is_none());
    let mut other = ResultHandler::new();
    assert!(other.turn(&server, ResultHandlerEvent::Shutdown).is_none());
    assert!(!other.running);
}

#[test]
fn a_stopped_result_handler_is_silent() {
    let mut server = server();
    let started = start(&mut server, 8);
    started.goal.succeed(&mut server, String::from("done"), at(5));
    let mut handler = ResultHandler::new();
    assert!(handler.turn(&server, ResultHandlerEvent::Shutdown).is_none());
    assert!(!handler.running);
    let request = ResultHandlerEvent::Request(Some(ResultRequest { goal_id: 8 }));
    assert!(handler.turn(&server, request).is_none());
    assert!(!handler.running);
}

#[test]
fn result_requests_are_answered_alike_in_both_modes() {
    let mut server = server();
    let started = start(&mut server, 8);
    started.goal.abort(&mut server, String::from("stuck"), at(5));
    let mut handler = ResultHandler::new();
    let mut driver = Driver::new(true);
    let request = ResultRequest { goal_id: 8 };
    let manual = handler.turn(&server, ResultHandlerEvent::Request(Some(request))).unwrap();
    let event = DriverEvent::Result(Some(request));
    match driver.turn(&mut server, event, at(6)) {
        DriverAction::ReplyResult(Some(automatic)) => {
            assert_eq!(automatic.status, manual.status);
            assert_eq!(automatic.status, GoalStatus::Aborted);
            assert_eq!(automatic.result, manual.result);
            assert_eq!(automatic.result, "stuck");
        }
        _ => panic!("no answer"),
    }
}
