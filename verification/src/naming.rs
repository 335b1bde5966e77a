//! The endpoints of an action and their names.

use vstd::prelude::*;
use vstd::string::*;

verus! {

/// The endpoints through which an action is offered.
#[derive(Clone, Copy, Debug, PartialEq, Eq, Structural)]
pub enum Endpoint {
    /// The service that takes goal requests.
    Goal,
    /// The service that takes result requests.
    Result,
    /// The service that takes cancel requests.
    Cancel,
    /// The topic on which feedback is published.
    Feedback,
    /// The topic on which status is published.
    Status,
}

/// What is added to the qualified name of an action to name one of its endpoints.
pub open spec fn endpoint_suffix(endpoint: Endpoint) -> Seq<char> {
    match endpoint {
        Endpoint::Goal => "/_action/send_goal"@,
        Endpoint::Result => "/_action/get_result"@,
        Endpoint::Cancel => "/_action/cancel_goal"@,
        Endpoint::Feedback => "/_action/feedback"@,
        Endpoint::Status => "/_action/status"@,
    }
}

/// The name of an endpoint of the action with the given qualified name.
pub open spec fn spec_endpoint_name(action_name: Seq<char>, endpoint: Endpoint) -> Seq<char> {
    action_name + endpoint_suffix(endpoint)
}

/// What is added to the type name of an action to name the type of its feedback messages.
pub open spec fn feedback_type_suffix() -> Seq<char> {
    "/_FeedbackMessage"@
}

/// The endpoints of an action in the order in which they are created.
pub open spec fn creation_order() -> Seq<Endpoint> {
    seq![
        Endpoint::Goal,
        Endpoint::Result,
        Endpoint::Cancel,
        Endpoint::Feedback,
        Endpoint::Status,
    ]
}

impl Endpoint {
    /// The endpoint that is created after this one.
    pub open spec fn spec_following(self) -> Option<Endpoint> {
        match self {
            Endpoint::Goal => Some(Endpoint::Result),
            Endpoint::Result => Some(Endpoint::Cancel),
            Endpoint::Cancel => Some(Endpoint::Feedback),
            Endpoint::Feedback => Some(Endpoint::Status),
            Endpoint::Status => None,
        }
    }

    /// The endpoint that is created after this one.
    pub fn following(self) -> (next: Option<Endpoint>)
        ensures
            next == self.spec_following(),
    {
        match self {
            Endpoint::Goal => Some(Endpoint::Result),
            Endpoint::Result => Some(Endpoint::Cancel),
            Endpoint::Cancel => Some(Endpoint::Feedback),
            Endpoint::Feedback => Some(Endpoint::Status),
            Endpoint::Status => None,
        }
    }

    /// Whether the endpoint is a topic, and not a service.
    pub open spec fn is_topic(self) -> bool {
        self == Endpoint::Feedback || self == Endpoint::Status
    }
}

/// The name of an endpoint of the action with the given qualified name.
pub fn endpoint_name(action_name: &str, endpoint: Endpoint) -> (name: String)
    ensures
        name@ == spec_endpoint_name(action_name@, endpoint),
        action_name@.is_prefix_of(name@),
{
    let mut name = action_name.to_owned();
    name.append(
        match endpoint {
            Endpoint::Goal => "/_action/send_goal",
            Endpoint::Result => "/_action/get_result",
            Endpoint::Cancel => "/_action/cancel_goal",
            Endpoint::Feedback => "/_action/feedback",
            Endpoint::Status => "/_action/status",
        },
    );
    name
}

/// The name of the type of the feedback messages of the action with the given type name.
pub fn feedback_type_name(action_type: &str) -> (name: String)
    ensures
        name@ == action_type@ + feedback_type_suffix(),
        name@ == action_type@ + "/_FeedbackMessage"@,
{
    let mut name = action_type.to_owned();
    name.append("/_FeedbackMessage");
    name
}

/// No endpoint is named like another one, be it of the same action or of two actions.
pub proof fn endpoint_names_never_collide(
    action: Seq<char>,
    endpoint: Endpoint,
    other_action: Seq<char>,
    other_endpoint: Endpoint,
)
    ensures
        spec_endpoint_name(action, endpoint) == spec_endpoint_name(other_action, other_endpoint)
            <==> action == other_action && endpoint == other_endpoint,
{
    reveal_strlit("/_action/send_goal");
    reveal_strlit("/_action/get_result");
    reveal_strlit("/_action/cancel_goal");
    reveal_strlit("/_action/feedback");
    reveal_strlit("/_action/status");
    let name = spec_endpoint_name(action, endpoint);
    let other = spec_endpoint_name(other_action, other_endpoint);
    if name == other {
        let suffix = endpoint_suffix(endpoint);
        let other_suffix = endpoint_suffix(other_endpoint);
        assert(name.last() == suffix.last());
        assert(other.last() == other_suffix.last());
        assert(name[name.len() - 6] == suffix[suffix.len() - 6]);
        assert(other[other.len() - 6] == other_suffix[other_suffix.len() - 6]);
        assert(endpoint == other_endpoint);
        assert(action == name.take(action.len() as int));
        assert(other_action == other.take(other_action.len() as int));
    }
}

/// A build that sets out with the goal service comes by every endpoint once, in the order of
/// [`creation_order`], and ends after the last.
pub proof fn creation_visits_every_endpoint_once()
    ensures
        creation_order().no_duplicates(),
        forall|endpoint: Endpoint| #[trigger] creation_order().contains(endpoint),
        creation_order()[0] == Endpoint::Goal,
        forall|i: int|
            0 <= i < creation_order().len() ==> (#[trigger] creation_order()[i]).spec_following()
                == if i + 1 < creation_order().len() {
                Some(creation_order()[i + 1])
            } else {
                None
            },
{
    assert forall|endpoint: Endpoint| #[trigger] creation_order().contains(endpoint) by {
        let order = creation_order();
        assert(order[0] == Endpoint::Goal && order[1] == Endpoint::Result && order[2]
            == Endpoint::Cancel && order[3] == Endpoint::Feedback && order[4] == Endpoint::Status);
    }
}

} // verus!
