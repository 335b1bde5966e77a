//! Configuring and building a server.

use std::marker::PhantomData;
use vstd::prelude::*;

use crate::action::{QosProfile, ZAction, ZNode};
use crate::naming::{endpoint_name, feedback_type_name, Endpoint};
use crate::server::ZActionServer;
use crate::time::{Duration, NANOS_PER_SEC};

verus! {

/// How long results are kept, in seconds, unless the builder is told otherwise.
pub const DEFAULT_RESULT_TIMEOUT_SECS: u64 = 10;

/// Builds an action server.
///
/// The builder holds the timeouts and the quality of service of the channels of the action.
pub struct ZActionServerBuilder<'a, A: ZAction> {
    /// The name of the action.
    pub action_name: String,
    /// The node that will own the server.
    pub node: &'a ZNode,
    /// Timeout for result requests.
    pub result_timeout: Duration,
    /// Optional timeout for goal execution.
    pub goal_timeout: Option<Duration>,
    /// QoS profile for the goal service.
    pub goal_service_qos: Option<QosProfile>,
    /// QoS profile for the result service.
    pub result_service_qos: Option<QosProfile>,
    /// QoS profile for the cancel service.
    pub cancel_service_qos: Option<QosProfile>,
    /// QoS profile for the feedback topic.
    pub feedback_topic_qos: Option<QosProfile>,
    /// QoS profile for the status topic.
    pub status_topic_qos: Option<QosProfile>,
    pub _phantom: PhantomData<A>,
}

/// Why a server could not be built.
#[derive(Debug)]
pub enum BuildError<E> {
    /// The action name is empty after remapping.
    EmptyActionName,
    /// The node could not qualify the name or create an endpoint.
    Node(E),
}

/// The hash that identifies the definition of a type.
#[derive(Clone, Copy, Debug, PartialEq, Eq)]
pub struct TypeHash {
    pub value: [u8; 32],
}

impl TypeHash {
    /// Tells whether all bytes are zero.
    pub open spec fn is_zero(self) -> bool {
        forall|i: int| 0 <= i < 32 ==> #[trigger] self.value@[i] == 0
    }

    /// The hash of a type whose definition is not hashed.
    pub fn zero() -> (hash: TypeHash)
        ensures
            hash.is_zero(),
            forall|i: int| 0 <= i < 32 ==> #[trigger] hash.value@[i] == 0,
    {
        TypeHash { value: [0; 32] }
    }
}

/// The type that a channel is announced with.
#[derive(Debug)]
pub struct TypeInfo {
    pub name: String,
    pub hash: TypeHash,
}

/// An endpoint that the node is to create.
#[derive(Debug)]
pub struct EndpointConfig {
    pub endpoint: Endpoint,
    pub name: String,
    /// The type to announce, where the node does not derive it from the messages.
    pub type_info: Option<TypeInfo>,
    /// The quality of service, where it is not the default of the node.
    pub qos: Option<QosProfile>,
    /// Whether messages carry an attachment, where it is not the default of the node.
    pub with_attachment: Option<bool>,
}

/// A build whose action name has been remapped. The node is to qualify the name next.
pub struct NamedBuild<'a, A: ZAction> {
    action_name: String,
    builder: ZActionServerBuilder<'a, A>,
}

/// The mathematical content of a [`NamedBuild`].
pub struct NamedView<'a, A: ZAction> {
    /// The name to be qualified.
    pub action_name: Seq<char>,
    pub builder: ZActionServerBuilder<'a, A>,
}

impl<'a, A: ZAction> View for NamedBuild<'a, A> {
    type V = NamedView<'a, A>;

    closed spec fn view(&self) -> NamedView<'a, A> {
        NamedView { action_name: self.action_name@, builder: self.builder }
    }
}

/// A build whose action name has been qualified. The node is to create the endpoints next.
pub struct EndpointBuild<'a, A: ZAction> {
    action_name: String,
    next: Endpoint,
    builder: ZActionServerBuilder<'a, A>,
}

/// The mathematical content of an [`EndpointBuild`].
pub struct EndpointView<'a, A: ZAction> {
    /// The qualified name of the action.
    pub action_name: Seq<char>,
    /// The endpoint to be created.
    pub next: Endpoint,
    pub builder: ZActionServerBuilder<'a, A>,
}

impl<'a, A: ZAction> View for EndpointBuild<'a, A> {
    type V = EndpointView<'a, A>;

    closed spec fn view(&self) -> EndpointView<'a, A> {
        EndpointView { action_name: self.action_name@, next: self.next, builder: self.builder }
    }
}

/// What comes of an attempt to create an endpoint.
pub enum CreationStep<E> {
    /// The given endpoint is created next.
    Next(Endpoint),
    /// All endpoints are created.
    Complete,
    /// The node refused, and the build fails.
    Refused(E),
}

/// What comes of an attempt to create `endpoint`.
pub open spec fn creation_step<E>(
    endpoint: Endpoint,
    created: Result<(), E>,
) -> CreationStep<E> {
    match created {
        Err(error) => CreationStep::Refused(error),
        Ok(_) => match endpoint.spec_following() {
            Some(next) => CreationStep::Next(next),
            None => CreationStep::Complete,
        },
    }
}

/// How far a build has come.
pub enum BuildProgress<'a, A: ZAction> {
    /// Another endpoint is to be created.
    Creating(EndpointBuild<'a, A>),
    /// The server is built. Result requests are to be answered in the background.
    Built(ZActionServer<A>),
}

impl<'a, A: ZAction> ZActionServerBuilder<'a, A> {
    /// The quality of service that is asked for at an endpoint.
    pub open spec fn spec_qos(self, endpoint: Endpoint) -> Option<QosProfile> {
        match endpoint {
            Endpoint::Goal => self.goal_service_qos,
            Endpoint::Result => self.result_service_qos,
            Endpoint::Cancel => self.cancel_service_qos,
            Endpoint::Feedback => self.feedback_topic_qos,
            Endpoint::Status => self.status_topic_qos,
        }
    }

    /// A builder with the default settings.
    pub fn new(action_name: &str, node: &'a ZNode) -> (builder: Self)
        ensures
            builder.action_name@ == action_name@,
            builder.node == node,
            builder.result_timeout@ == DEFAULT_RESULT_TIMEOUT_SECS * NANOS_PER_SEC,
            builder.goal_timeout is None,
            builder.goal_service_qos is None,
            builder.result_service_qos is None,
            builder.cancel_service_qos is None,
            builder.feedback_topic_qos is None,
            builder.status_topic_qos is None,
            forall|endpoint: Endpoint| #[trigger] builder.spec_qos(endpoint) is None,
    {
        ZActionServerBuilder {
            action_name: action_name.to_owned(),
            node,
            result_timeout: Duration::from_secs(DEFAULT_RESULT_TIMEOUT_SECS),
            goal_timeout: None,
            goal_service_qos: None,
            result_service_qos: None,
            cancel_service_qos: None,
            feedback_topic_qos: None,
            status_topic_qos: None,
            _phantom: PhantomData,
        }
    }

    /// Sets the timeout for result requests.
    pub fn result_timeout(self, timeout: Duration) -> (builder: Self)
        ensures
            builder == (Self { result_timeout: timeout, ..self }),
    {
        Self { result_timeout: timeout, ..self }
    }

    /// Sets the timeout for result requests.
    pub fn with_result_timeout(self, timeout: Duration) -> (builder: Self)
        ensures
            builder == (Self { result_timeout: timeout, ..self }),
    {
        self.result_timeout(timeout)
    }

    /// Sets the timeout for goal execution.
    pub fn goal_timeout(self, timeout: Duration) -> (builder: Self)
        ensures
            builder == (Self { goal_timeout: Some(timeout), ..self }),
    {
        Self { goal_timeout: Some(timeout), ..self }
    }

    /// Sets the QoS profile for the goal service.
    pub fn with_goal_service_qos(self, qos: QosProfile) -> (builder: Self)
        ensures
            builder == (Self { goal_service_qos: Some(qos), ..self }),
            builder.spec_qos(Endpoint::Goal) == Some(qos),
            forall|other: Endpoint|
                other != Endpoint::Goal ==> #[trigger] builder.spec_qos(other) == self.spec_qos(other),
    {
        Self { goal_service_qos: Some(qos), ..self }
    }

    /// Sets the QoS profile for the result service.
    pub fn with_result_service_qos(self, qos: QosProfile) -> (builder: Self)
        ensures
            builder == (Self { result_service_qos: Some(qos), ..self }),
            builder.spec_qos(Endpoint::Result) == Some(qos),
            forall|other: Endpoint|
                other != Endpoint::Result ==> #[trigger] builder.spec_qos(other) == self.spec_qos(other),
    {
        Self { result_service_qos: Some(qos), ..self }
    }

    /// Sets the QoS profile for the cancel service.
    pub fn with_cancel_service_qos(self, qos: QosProfile) -> (builder: Self)
        ensures
            builder == (Self { cancel_service_qos: Some(qos), ..self }),
            builder.spec_qos(Endpoint::Cancel) == Some(qos),
            forall|other: Endpoint|
                other != Endpoint::Cancel ==> #[trigger] builder.spec_qos(other) == self.spec_qos(other),
    {
        Self { cancel_service_qos: Some(qos), ..self }
    }

    /// Sets the QoS profile for the feedback topic.
    pub fn with_feedback_topic_qos(self, qos: QosProfile) -> (builder: Self)
        ensures
            builder == (Self { feedback_topic_qos: Some(qos), ..self }),
            builder.spec_qos(Endpoint::Feedback) == Some(qos),
            forall|other: Endpoint|
                other != Endpoint::Feedback ==> #[trigger] builder.spec_qos(other) == self.spec_qos(other),
    {
        Self { feedback_topic_qos: Some(qos), ..self }
    }

    /// Sets the QoS profile for the status topic.
    pub fn with_status_topic_qos(self, qos: QosProfile) -> (builder: Self)
        ensures
            builder == (Self { status_topic_qos: Some(qos), ..self }),
            builder.spec_qos(Endpoint::Status) == Some(qos),
            forall|other: Endpoint|
                other != Endpoint::Status ==> #[trigger] builder.spec_qos(other) == self.spec_qos(other),
    {
        Self { status_topic_qos: Some(qos), ..self }
    }

    /// The quality of service that is asked for at an endpoint.
    fn qos(&self, endpoint: Endpoint) -> (qos: Option<QosProfile>)
        ensures
            qos == self.spec_qos(endpoint),
    {
        match endpoint {
            Endpoint::Goal => self.goal_service_qos,
            Endpoint::Result => self.result_service_qos,
            Endpoint::Cancel => self.cancel_service_qos,
            Endpoint::Feedback => self.feedback_topic_qos,
            Endpoint::Status => self.status_topic_qos,
        }
    }

    /// Begins to build the server, once the node has applied its remapping rules to the action name.
    /// A name that is empty after that is refused.
    pub fn build<E>(self, remapped_name: String) -> (outcome: Result<
        NamedBuild<'a, A>,
        BuildError<E>,
    >)
        ensures
            match outcome {
                Ok(build) => remapped_name@.len() > 0 && build@ == (NamedView {
                    action_name: remapped_name@,
                    builder: self,
                }),
                Err(error) => remapped_name@.len() == 0 && error is EmptyActionName,
            },
    {
        if remapped_name.as_str().is_empty() {
            Err(BuildError::EmptyActionName)
        } else {
            Ok(NamedBuild { action_name: remapped_name, builder: self })
        }
    }
}

impl<'a, A: ZAction> NamedBuild<'a, A> {
    /// The name to be qualified.
    pub fn action_name(&self) -> (name: &str)
        ensures
            name@ == self@.action_name,
    {
        self.action_name.as_str()
    }

    /// The node, in whose namespace and under whose name the action name is to be qualified.
    pub fn node(&self) -> (node: &'a ZNode)
        ensures
            node == self@.builder.node,
    {
        self.builder.node
    }

    /// Goes on with what came of qualifying [`NamedBuild::action_name`] in the namespace and under
    /// the name of the node.
    pub fn qualified<E>(self, qualified_name: Result<String, E>) -> (outcome: Result<
        EndpointBuild<'a, A>,
        BuildError<E>,
    >)
        ensures
            match qualified_name {
                Ok(action_name) => outcome matches Ok(build) && build@ == (EndpointView {
                    action_name: action_name@,
                    next: Endpoint::Goal,
                    builder: self@.builder,
                }),
                Err(error) => outcome == Err::<EndpointBuild<'a, A>, _>(BuildError::Node(error)),
            },
    {
        match qualified_name {
            Ok(action_name) => Ok(
                EndpointBuild { action_name, next: Endpoint::Goal, builder: self.builder },
            ),
            Err(error) => Err(BuildError::Node(error)),
        }
    }
}

impl<'a, A: ZAction> EndpointBuild<'a, A> {
    /// The endpoint that the node is to create now.
    ///
    /// The feedback topic is announced with a type that is named after the action, and the topics
    /// carry no attachments.
    pub fn endpoint(&self) -> (config: EndpointConfig)
        ensures
            config.endpoint == self@.next,
            config.name@ == crate::naming::spec_endpoint_name(self@.action_name, self@.next),
            match config.type_info {
                Some(info) => self@.next == Endpoint::Feedback && info.hash.is_zero()
                    && exists|action_type: String| #[trigger]
                    call_ensures(A::name, (), action_type) && info.name@ == action_type@
                        + crate::naming::feedback_type_suffix(),
                None => self@.next != Endpoint::Feedback,
            },
            config.qos == self@.builder.spec_qos(self@.next),
            match self@.next {
                Endpoint::Goal => config.qos == self@.builder.goal_service_qos,
                Endpoint::Result => config.qos == self@.builder.result_service_qos,
                Endpoint::Cancel => config.qos == self@.builder.cancel_service_qos,
                Endpoint::Feedback => config.qos == self@.builder.feedback_topic_qos,
                Endpoint::Status => config.qos == self@.builder.status_topic_qos,
            },
            config.with_attachment == if self@.next.is_topic() {
                Some(false)
            } else {
                None
            },
    {
        let type_info = match self.next {
            Endpoint::Feedback => {
                let action_type = A::name();
                Some(
                    TypeInfo {
                        name: feedback_type_name(action_type.as_str()),
                        hash: TypeHash::zero(),
                    },
                )
            },
            _ => None,
        };
        let with_attachment = match self.next {
            Endpoint::Feedback | Endpoint::Status => Some(false),
            _ => None,
        };
        EndpointConfig {
            endpoint: self.next,
            name: endpoint_name(self.action_name.as_str(), self.next),
            type_info,
            qos: self.builder.qos(self.next),
            with_attachment,
        }
    }

    /// Goes on with what came of creating [`EndpointBuild::endpoint`]. After the last endpoint the
    /// server is built.
    pub fn created<E>(self, created: Result<(), E>) -> (outcome: Result<
        BuildProgress<'a, A>,
        BuildError<E>,
    >)
        ensures
            match creation_step(self@.next, created) {
                CreationStep::Refused(error) => {
                    outcome == Err::<BuildProgress<'a, A>, _>(BuildError::Node(error))
                },
                CreationStep::Next(next) => {
                    &&& outcome matches Ok(BuildProgress::Creating(build))
                    &&& build@ == (EndpointView { next, ..self@ })
                },
                CreationStep::Complete => {
                    &&& outcome matches Ok(BuildProgress::Built(server))
                    &&& server@.is_new(self@.builder.result_timeout, self@.builder.goal_timeout)
                },
            },
    {
        if let Err(error) = created {
            return Err(BuildError::Node(error));
        }
        match self.next.following() {
            Some(next) => Ok(BuildProgress::Creating(EndpointBuild { next, ..self })),
            None => Ok(
                BuildProgress::Built(
                    ZActionServer::new(self.builder.result_timeout, self.builder.goal_timeout),
                ),
            ),
        }
    }
}

} // verus!
