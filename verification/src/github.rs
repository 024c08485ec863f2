//! The trigger events a hosting service's webhooks deliver, and their
//! dispatch.
//!
//! The HTTP layer around the library extracts the values of the event-name
//! header and the deserialized payload; the decision of what the request
//! is — and whether the pipeline is invoked at all — is taken here, over
//! plain values. Dispatch is an explicit match over the finite set of
//! trigger kinds; a kind that is not the one asked about is handed back as
//! not-handled, so the layer above can try the next registered kind.

use core::marker::PhantomData;

use vstd::prelude::*;
use vstd::string::*;

verus! {

/// The author identity a push payload reports for one commit.
pub struct Author {
    pub name: String,
    pub email: String,
}

/// One upstream commit as a push payload describes it.
pub struct Commit {
    pub tree_id: String,
    pub message: String,
    pub author: Author,
    pub url: String,
    pub distinct: bool,
}

/// The payload of a push event: the moved ref, its old and new tips, and
/// the commits the push carried.
pub struct PushData {
    pub git_ref: String,
    pub before: String,
    pub after: String,
    pub commits: Vec<Commit>,
}

/// The payload of a ping event.
pub struct PingData {
    pub zen: String,
    pub hook_id: u64,
}

/// The finite set of trigger kinds a request can carry.
#[derive(Clone, Copy, PartialEq, Eq, Structural, Debug)]
pub enum TriggerKind {
    Push,
    Ping,
    Other,
}

/// An event kind the dispatcher can match a request against: the name the
/// event header carries for it, and its place among the trigger kinds.
pub trait EventType {
    spec fn name_spec() -> Seq<char>;

    spec fn kind_spec() -> TriggerKind;

    fn name() -> (r: String)
        ensures
            r@ == Self::name_spec(),
    ;
}

/// The push event kind: upstream content moved.
pub struct Push;

/// The ping event kind: the hook checking in.
pub struct Ping;

impl EventType for Push {
    open spec fn name_spec() -> Seq<char> {
        "push"@
    }

    open spec fn kind_spec() -> TriggerKind {
        TriggerKind::Push
    }

    fn name() -> (r: String) {
        String::from_str("push")
    }
}

impl EventType for Ping {
    open spec fn name_spec() -> Seq<char> {
        "ping"@
    }

    open spec fn kind_spec() -> TriggerKind {
        TriggerKind::Ping
    }

    fn name() -> (r: String) {
        String::from_str("ping")
    }
}

/// A request recognised as one event kind.
pub struct Event<T> {
    pub marker: PhantomData<T>,
}

/// How the dispatcher answers a request for one event kind: recognised,
/// rejected as malformed, or handed on for the next kind to try.
pub enum Dispatch<E> {
    Success(E),
    Failure,
    Forward,
}

impl<T: EventType> Event<T> {
    /// Classifies a request by the values of its event-name header: other
    /// than exactly one value is a malformed request; one value naming
    /// another kind is handed on; one value naming this kind is
    /// recognised.
    pub fn from_header_values(values: &Vec<String>) -> (r: Dispatch<Event<T>>)
        ensures
            values@.len() != 1 ==> r is Failure,
            values@.len() == 1 && values@[0]@ != T::name_spec() ==> r is Forward,
            values@.len() == 1 && values@[0]@ == T::name_spec() ==> r is Success,
    {
        if values.len() != 1 {
            return Dispatch::Failure;
        }
        let n = T::name();
        if values[0].eq(&n) {
            Dispatch::Success(Event { marker: PhantomData })
        } else {
            Dispatch::Forward
        }
    }
}

/// The explicit classification of a request over the finite set of trigger
/// kinds: not exactly one header value is a malformed request; an unknown
/// name is `Other`, never an error.
pub fn classify_event(values: &Vec<String>) -> (r: Option<TriggerKind>)
    ensures
        r is None <==> values@.len() != 1,
        values@.len() == 1 && values@[0]@ == "push"@ ==> r == Some(TriggerKind::Push),
        values@.len() == 1 && values@[0]@ == "ping"@ ==> r == Some(TriggerKind::Ping),
        values@.len() == 1 && values@[0]@ != "push"@ && values@[0]@ != "ping"@ ==> r == Some(
            TriggerKind::Other,
        ),
{
    if values.len() != 1 {
        return None;
    }
    proof {
        reveal_strlit("push");
        reveal_strlit("ping");
        assert("push"@ != "ping"@) by {
            assert("push"@[1] == 'u');
            assert("ping"@[1] == 'i');
        }
    }
    let push_name = String::from_str("push");
    let ping_name = String::from_str("ping");
    if values[0].eq(&push_name) {
        Some(TriggerKind::Push)
    } else if values[0].eq(&ping_name) {
        Some(TriggerKind::Ping)
    } else {
        Some(TriggerKind::Other)
    }
}

} // verus!
