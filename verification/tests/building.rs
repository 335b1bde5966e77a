use ros_z_action::action::{
    QosDurability, QosHistory, QosProfile, QosReliability, ZAction, ZNode,
};
use ros_z_action::builder::{
    BuildError, BuildProgress, EndpointBuild, EndpointConfig, NamedBuild, TypeHash,
    ZActionServerBuilder,
};
use ros_z_action::naming::{endpoint_name, feedback_type_name, Endpoint};
use ros_z_action::server::{ServerMode, ZActionServer};
use ros_z_action::time::Duration;

struct Fibonacci;

impl ZAction for Fibonacci {
    type Goal = u32;
    type Result = Vec<u32>;
    type Feedback = u32;

    fn name() -> String {
        String::from("example_interfaces/action/Fibonacci")
    }
}

fn node() -> ZNode {
    ZNode { namespace: String::from("/robot"), name: String::from("arm") }
}

fn profile(depth: usize) -> QosProfile {
    QosProfile {
        reliability: QosReliability::Reliable,
        durability: QosDurability::Volatile,
        history: QosHistory::KeepLast(depth),
    }
}

fn named<'a>(
    builder: ZActionServerBuilder<'a, Fibonacci>,
    name: &str,
) -> Result<NamedBuild<'a, Fibonacci>, BuildError<&'static str>> {
    builder.build(String::from(name))
}

/// Builds up to the endpoints, which the node creates one after the other until `refuse`.
fn create(
    mut build: EndpointBuild<Fibonacci>,
    refuse: Option<Endpoint>,
) -> (Vec<EndpointConfig>, Result<ZActionServer<Fibonacci>, BuildError<&'static str>>) {
    let mut asked = Vec::new();
    loop {
        let config = build.endpoint();
        let outcome = if Some(config.endpoint) == refuse { Err("refused") } else { Ok(()) };
        asked.push(config);
        match build.created(outcome) {
            Ok(BuildProgress::Creating(next)) => build = next,
            Ok(BuildProgress::Built(server)) => return (asked, Ok(server)),
            Err(error) => return (asked, Err(error)),
        }
    }
}

fn endpoints<'a>(builder: ZActionServerBuilder<'a, Fibonacci>) -> EndpointBuild<'a, Fibonacci> {
    let build = named(builder, "fibonacci").ok().unwrap();
    let outcome: Result<String, &str> = Ok(String::from("/robot/fibonacci"));
    build.qualified(outcome).ok().unwrap()
}

#[test]
fn builder_starts_with_the_defaults() {
    let node = node();
    let builder = ZActionServerBuilder::<Fibonacci>::new("fibonacci", &node);
    assert_eq!(builder.action_name, "fibonacci");
    assert_eq!(builder.node.namespace, "/robot");
    assert_eq!(builder.node.name, "arm");
    assert_eq!(builder.result_timeout, Duration { nanos: 10_000_000_000 });
    assert_eq!(builder.goal_timeout, None);
    assert_eq!(builder.goal_service_qos, None);
    assert_eq!(builder.result_service_qos, None);
    assert_eq!(builder.cancel_service_qos, None);
    assert_eq!(builder.feedback_topic_qos, None);
    assert_eq!(builder.status_topic_qos, None);
}

#[test]
fn builder_keeps_each_setting_apart() {
    let node = node();
    let builder = ZActionServerBuilder::<Fibonacci>::new("fibonacci", &node)
        .result_timeout(Duration::from_secs(1))
        .goal_timeout(Duration::from_secs(2))
        .with_goal_service_qos(profile(1))
        .with_result_service_qos(profile(2))
        .with_cancel_service_qos(profile(3))
        .with_feedback_topic_qos(profile(4))
        .with_status_topic_qos(profile(5));
    assert_eq!(builder.result_timeout, Duration::from_secs(1));
    assert_eq!(builder.goal_timeout, Some(Duration::from_secs(2)));
    assert_eq!(builder.goal_service_qos, Some(profile(1)));
    assert_eq!(builder.result_service_qos, Some(profile(2)));
    assert_eq!(builder.cancel_service_qos, Some(profile(3)));
    assert_eq!(builder.feedback_topic_qos, Some(profile(4)));
    assert_eq!(builder.status_topic_qos, Some(profile(5)));
    assert_eq!(builder.action_name, "fibonacci");
}

#[test]
fn builder_takes_the_last_setting() {
    let node = node();
    let builder = ZActionServerBuilder::<Fibonacci>::new("fibonacci", &node)
        .with_result_timeout(Duration::from_secs(30))
        .with_result_timeout(Duration::from_secs(31))
        .with_status_topic_qos(profile(1))
        .with_status_topic_qos(profile(9));
    assert_eq!(builder.result_timeout, Duration::from_secs(31));
    assert_eq!(builder.status_topic_qos, Some(profile(9)));
}

#[test]
fn an_empty_name_is_refused() {
    let node = node();
    let builder = ZActionServerBuilder::<Fibonacci>::new("fibonacci", &node);
    assert!(matches!(named(builder, ""), Err(BuildError::EmptyActionName)));
}

#[test]
fn the_remapped_name_is_qualified() {
    let node = node();
    let builder = ZActionServerBuilder::<Fibonacci>::new("", &node);
    let build = named(builder, "renamed").ok().unwrap();
    assert_eq!(build.action_name(), "renamed");
    assert_eq!(build.node().namespace, "/robot");
    assert_eq!(build.node().name, "arm");
}

#[test]
fn a_name_that_cannot_be_qualified_fails_the_build() {
    let node = node();
    let build = named(ZActionServerBuilder::new("bad name", &node), "bad name").ok().unwrap();
    let outcome = build.qualified(Err("not a name"));
    assert!(matches!(outcome, Err(BuildError::Node("not a name"))));
}

#[test]
fn endpoints_are_created_in_order() {
    let node = node();
    let builder = ZActionServerBuilder::<Fibonacci>::new("fibonacci", &node)
        .with_cancel_service_qos(profile(3))
        .with_feedback_topic_qos(profile(4));
    let (asked, outcome) = create(endpoints(builder), None);
    assert!(outcome.is_ok());
    let names: Vec<&str> = asked.iter().map(|config| config.name.as_str()).collect();
    assert_eq!(
        names,
        vec![
            "/robot/fibonacci/_action/send_goal",
            "/robot/fibonacci/_action/get_result",
            "/robot/fibonacci/_action/cancel_goal",
            "/robot/fibonacci/_action/feedback",
            "/robot/fibonacci/_action/status",
        ]
    );
    let kinds: Vec<Endpoint> = asked.iter().map(|config| config.endpoint).collect();
    assert_eq!(
        kinds,
        vec![
            Endpoint::Goal,
            Endpoint::Result,
            Endpoint::Cancel,
            Endpoint::Feedback,
            Endpoint::Status,
        ]
    );
    let qos: Vec<Option<QosProfile>> = asked.iter().map(|config| config.qos).collect();
    assert_eq!(qos, vec![None, None, Some(profile(3)), Some(profile(4)), None]);
    let attachments: Vec<Option<bool>> =
        asked.iter().map(|config| config.with_attachment).collect();
    assert_eq!(attachments, vec![None, None, None, Some(false), Some(false)]);
}

#[test]
fn only_feedback_is_announced_with_a_type() {
    let node = node();
    let (asked, _) = create(endpoints(ZActionServerBuilder::new("fibonacci", &node)), None);
    for config in &asked {
        match &config.type_info {
            Some(info) => {
                assert_eq!(config.endpoint, Endpoint::Feedback);
                assert_eq!(info.name, "example_interfaces/action/Fibonacci/_FeedbackMessage");
                assert_eq!(info.hash, TypeHash { value: [0; 32] });
            }
            None => assert_ne!(config.endpoint, Endpoint::Feedback),
        }
    }
}

#[test]
fn a_refused_endpoint_ends_the_build() {
    let node = node();
    let (asked, outcome) = create(
        endpoints(ZActionServerBuilder::new("fibonacci", &node)),
        Some(Endpoint::Cancel),
    );
    assert_eq!(asked.len(), 3);
    assert!(matches!(outcome, Err(BuildError::Node("refused"))));
}

#[test]
fn a_built_server_has_the_timeouts_of_the_builder() {
    let node = node();
    let builder =
        ZActionServerBuilder::new("fibonacci", &node).result_timeout(Duration::from_secs(42));
    let (_, outcome) = create(endpoints(builder), None);
    let server = outcome.ok().unwrap();
    assert_eq!(server.result_timeout(), Duration::from_secs(42));
    assert_eq!(server.mode(), ServerMode::Manual);
    assert!(server.publish_status(0).status_list.is_empty());
    assert!(!server.shutdown_token().is_cancelled());
    assert!(!server.result_handler_token().is_cancelled());
    assert!(server.shutdown_token() != server.result_handler_token());
    assert!(server.shutdown_token() == server.shutdown_token());
}

#[test]
fn endpoint_names_are_told_apart() {
    let actions = ["/a", "/b", "/a/_action/send_goal", ""];
    let kinds = [
        Endpoint::Goal,
        Endpoint::Result,
        Endpoint::Cancel,
        Endpoint::Feedback,
        Endpoint::Status,
    ];
    let mut names = Vec::new();
    for action in actions {
        for kind in kinds {
            names.push(endpoint_name(action, kind));
        }
    }
    for i in 0..names.len() {
        for j in 0..i {
            assert_ne!(names[i], names[j]);
        }
    }
    assert_eq!(endpoint_name("/b", Endpoint::Result), "/b/_action/get_result");
}

#[test]
fn every_endpoint_has_its_turn() {
    let mut visited = vec![Endpoint::Goal];
    while let Some(next) = visited[visited.len() - 1].following() {
        visited.push(next);
    }
    assert_eq!(
        visited,
        vec![
            Endpoint::Goal,
            Endpoint::Result,
            Endpoint::Cancel,
            Endpoint::Feedback,
            Endpoint::Status,
        ]
    );
}

#[test]
fn feedback_types_are_named_after_the_action() {
    assert_eq!(feedback_type_name("pkg/action/Go"), "pkg/action/Go/_FeedbackMessage");
}
