//! The state of the connection actor and the decisions it takes: which
//! identifier a request is sent under, where a frame from the server goes,
//! and when a route is given up.
//!
//! The actor owns one socket and a table of routes, one for each request
//! that was written to the socket and whose caller still listens. Reading
//! and writing the socket, and pushing into a sink, are the caller's part:
//! each function here takes what happened and says what follows from it.

use crate::message::{decode, DeserializeError, Message, MessageView};
use crate::types::{Request, Response, ResponseView};
use std::collections::HashMap;
use std::str::FromStr;
use vstd::prelude::*;

verus! {

/// How many commands the queue between the handles and the actor holds.
pub const COMMAND_QUEUE_CAPACITY: usize = 64;

/// How many responses the sink of a request holds unless its caller asks
/// for another size.
pub const RESPONSE_BUFFER: usize = 64;

/// What a handle gives to the actor: the message of a request, and the sink
/// that is to receive the responses.
pub struct Command<S> {
    pub msg: Message,
    pub response: S,
}

impl<S> Command<S> {
    /// The command that asks for `request` and answers into `response`.
    /// The message does not yet have its identifier.
    pub fn new(request: Request, response: S) -> (command: Result<Command<S>, DeserializeError>)
        ensures
            command matches Ok(c) && c.msg@ == request@.message() && c.response == response,
    {
        let msg = Message::try_from(request)?;
        Ok(Command { msg, response })
    }
}

/// A request on its way out: the identifier it was given, and its line.
pub struct Outbound {
    pub id: usize,
    pub line: String,
}

/// What becomes of a frame from the server.
pub enum Inbound<'a, S> {
    /// The frame answers the request `id`: `response` goes into `sink`.
    Deliver { id: usize, response: Response, sink: &'a S },
    /// The frame answers a request that has no route; it is dropped.
    Unrouted { id: usize },
    /// The frame holds a message that is no response; it is dropped.
    Invalid(DeserializeError),
    /// The frame holds no message; it is dropped.
    Malformed(DeserializeError),
}

/// The fate of a frame as a mathematical value.
pub enum InboundView<S> {
    Deliver { id: usize, response: ResponseView, sink: S },
    Unrouted { id: usize },
    Invalid(DeserializeError),
    Malformed(DeserializeError),
}

impl<'a, S> View for Inbound<'a, S> {
    type V = InboundView<S>;

    open spec fn view(&self) -> InboundView<S> {
        match self {
            Inbound::Deliver { id, response, sink } => InboundView::Deliver {
                id: *id,
                response: response@,
                sink: **sink,
            },
            Inbound::Unrouted { id } => InboundView::Unrouted { id: *id },
            Inbound::Invalid(err) => InboundView::Invalid(*err),
            Inbound::Malformed(err) => InboundView::Malformed(*err),
        }
    }
}

/// The identifier after `id`. After the largest comes zero again.
pub open spec fn next_after(id: usize) -> usize {
    if id == usize::MAX {
        0
    } else {
        (id + 1) as usize
    }
}

/// The actor as a mathematical value: the identifier of the next request,
/// and the sink of each request that has a route.
pub struct ActorView<S> {
    pub next_id: usize,
    pub routes: Map<usize, S>,
}

impl<S> ActorView<S> {
    /// The actor of a fresh connection.
    pub open spec fn fresh() -> Self {
        ActorView { next_id: 0, routes: Map::empty() }
    }

    /// The actor after it gave out one identifier.
    pub open spec fn advanced(self) -> Self {
        ActorView { next_id: next_after(self.next_id), routes: self.routes }
    }

    /// The identifier of the request that is sent after `count` others.
    pub open spec fn id_after(self, count: nat) -> usize
        decreases count,
    {
        if count == 0 {
            self.next_id
        } else {
            self.advanced().id_after((count - 1) as nat)
        }
    }

    /// The actor after `sink` became the route of `id`.
    pub open spec fn registered(self, id: usize, sink: S) -> Self {
        ActorView { next_id: self.next_id, routes: self.routes.insert(id, sink) }
    }

    /// The actor after the route of `id` was given up.
    pub open spec fn forgotten(self, id: usize) -> Self {
        ActorView { next_id: self.next_id, routes: self.routes.remove(id) }
    }

    /// What becomes of the frame `text`. A frame that holds no message, or a
    /// message that is no response, is dropped; so is one whose identifier
    /// has no route. Any other goes to the sink of its identifier.
    pub open spec fn inbound(self, text: Seq<char>) -> InboundView<S> {
        match decode(text) {
            Err(err) => InboundView::Malformed(err),
            Ok(message) => match ResponseView::of_message(message) {
                Err(err) => InboundView::Invalid(err),
                Ok(response) => if self.routes.contains_key(message.id) {
                    InboundView::Deliver {
                        id: message.id,
                        response,
                        sink: self.routes[message.id],
                    }
                } else {
                    InboundView::Unrouted { id: message.id }
                },
            },
        }
    }
}

/// The message `message` under the identifier `id`.
pub open spec fn stamped(message: MessageView, id: usize) -> MessageView {
    MessageView { id, cmd: message.cmd, key: message.key, payload: message.payload }
}

/// The state of the actor of one connection.
pub struct Actor<S> {
    next_id: usize,
    routes: HashMap<usize, S>,
}

impl<S> View for Actor<S> {
    type V = ActorView<S>;

    closed spec fn view(&self) -> ActorView<S> {
        ActorView { next_id: self.next_id, routes: self.routes@ }
    }
}

impl<S> Actor<S> {
    /// The actor of a fresh connection: identifiers start at zero, and no
    /// request has a route.
    pub fn new() -> (actor: Self)
        ensures
            actor@ == ActorView::<S>::fresh(),
    {
        Actor { next_id: 0, routes: HashMap::new() }
    }

    /// How many requests have a route.
    pub fn outstanding(&self) -> (count: usize)
        ensures
            count == self@.routes.len(),
    {
        self.routes.len()
    }

    /// Gives the message of a request its identifier and writes its line.
    /// The request has no route yet: it gets one when the line was written
    /// to the socket.
    pub fn prepare(&mut self, msg: Message) -> (outbound: Outbound)
        ensures
            outbound.id == old(self)@.next_id,
            outbound.line@ == stamped(msg@, outbound.id).line(),
            final(self)@ == old(self)@.advanced(),
    {
        let id = self.next_id;
        self.next_id = id.wrapping_add(1);
        let stamped = Message { id, cmd: msg.cmd, key: msg.key, payload: msg.payload };
        let line: String = String::from(stamped);
        Outbound { id, line }
    }

    /// Makes `sink` the route of the request `id`, once its line was
    /// written to the socket.
    pub fn register(&mut self, id: usize, sink: S)
        ensures
            final(self)@ == old(self)@.registered(id, sink),
    {
        broadcast use vstd::std_specs::hash::group_hash_axioms;

        let _ = self.routes.insert(id, sink);
    }

    /// Decides what becomes of a frame from the server.
    pub fn receive<'a>(&'a self, text: &str) -> (inbound: Inbound<'a, S>)
        ensures
            inbound@ == self@.inbound(text@),
    {
        broadcast use vstd::std_specs::hash::group_hash_axioms;

        let message = match Message::from_str(text) {
            Ok(message) => message,
            Err(err) => {
                return Inbound::Malformed(err);
            },
        };
        let id = message.id;
        let response = match Response::try_from(message) {
            Ok(response) => response,
            Err(err) => {
                return Inbound::Invalid(err);
            },
        };
        match self.routes.get(&id) {
            Some(sink) => Inbound::Deliver { id, response, sink },
            None => Inbound::Unrouted { id },
        }
    }

    /// Gives up the route of the request `id`, whose caller no longer
    /// listens. Frames that answer it are dropped from now on.
    pub fn forget(&mut self, id: usize)
        ensures
            final(self)@ == old(self)@.forgotten(id),
    {
        broadcast use vstd::std_specs::hash::group_hash_axioms;

        let _ = self.routes.remove(&id);
    }

    /// Ends the actor, after the socket failed or closed. All routes are
    /// given up with it; the result is their number.
    pub fn terminate(self) -> (closed: usize)
        ensures
            closed == self@.routes.len(),
    {
        let mut routes = self.routes;
        let closed = routes.len();
        routes.clear();
        closed
    }
}

/// Where the identifiers stand after `count` requests: they count up from
/// the next identifier, and go on from zero behind the largest.
pub proof fn lemma_id_after<S>(actor: ActorView<S>, count: nat)
    requires
        count <= usize::MAX,
    ensures
        actor.id_after(count) == if actor.next_id + count <= usize::MAX {
            actor.next_id + count
        } else {
            actor.next_id + count - usize::MAX - 1
        },
    decreases count,
{
    if count > 0 {
        lemma_id_after(actor.advanced(), (count - 1) as nat);
    }
}

/// Requests get different identifiers: of as many requests in a row as
/// there are identifiers, no two are sent under the same one.
pub proof fn lemma_ids_distinct<S>(actor: ActorView<S>, earlier: nat, later: nat)
    requires
        earlier < later <= usize::MAX,
    ensures
        actor.id_after(earlier) != actor.id_after(later),
{
    lemma_id_after(actor, earlier);
    lemma_id_after(actor, later);
}

/// Identifiers rise in the order in which the requests are sent, as long
/// as the largest identifier is not passed.
pub proof fn lemma_ids_increase<S>(actor: ActorView<S>, earlier: nat, later: nat)
    requires
        earlier < later,
        actor.next_id + later <= usize::MAX,
    ensures
        actor.id_after(earlier) < actor.id_after(later),
{
    lemma_id_after(actor, earlier);
    lemma_id_after(actor, later);
}

/// On a fresh connection the requests are numbered from zero in the order
/// in which they are sent.
pub proof fn lemma_fresh_ids<S>(count: nat)
    requires
        count <= usize::MAX,
    ensures
        ActorView::<S>::fresh().id_after(count) == count,
{
    lemma_id_after(ActorView::<S>::fresh(), count);
}

/// A request that was given an identifier and not yet written takes no
/// place in the table of routes.
pub proof fn lemma_unsent_request_has_no_route<S>(actor: ActorView<S>)
    ensures
        actor.advanced().routes == actor.routes,
{
}

/// A route that was given up is gone: its identifier is no longer in the
/// table, no frame is delivered under it any more, and every other route
/// stays as it was.
pub proof fn lemma_forgotten_route<S>(actor: ActorView<S>, id: usize, text: Seq<char>)
    ensures
        !actor.forgotten(id).routes.contains_key(id),
        !(actor.forgotten(id).inbound(text) matches InboundView::Deliver { id: to, .. } && to
            == id),
        forall|other: usize|
            other != id ==> (#[trigger] actor.forgotten(id).routes.contains_key(other)
                <==> actor.routes.contains_key(other)),
        forall|other: usize|
            other != id && actor.routes.contains_key(other) ==> #[trigger] actor.forgotten(
                id,
            ).routes[other] == actor.routes[other],
{
}

/// A frame is delivered only under its own identifier, and only into the
/// sink that was registered under it.
pub proof fn lemma_delivery_follows_route<S>(actor: ActorView<S>, text: Seq<char>)
    ensures
        actor.inbound(text) matches InboundView::Deliver { id, response, sink } ==> {
            &&& decode(text) matches Ok(message)
            &&& message.id == id
            &&& ResponseView::of_message(message) == Ok::<ResponseView, DeserializeError>(
                response,
            )
            &&& actor.routes.contains_key(id)
            &&& actor.routes[id] == sink
        },
{
}

/// A frame that answers a request goes into the sink that was registered
/// for it: where the frame holds a response under the identifier `id`, it
/// is delivered into `sink` once `sink` is the route of `id`.
pub proof fn lemma_registered_route_delivers<S>(
    actor: ActorView<S>,
    id: usize,
    sink: S,
    text: Seq<char>,
)
    requires
        decode(text) matches Ok(message) && message.id == id && ResponseView::of_message(message)
            is Ok,
    ensures
        actor.registered(id, sink).inbound(text) == (InboundView::Deliver {
            id,
            response: ResponseView::of_message(decode(text)->Ok_0)->Ok_0,
            sink,
        }),
{
}

/// Two requests with different identifiers do not share a route: the
/// second registration leaves the sink of the first in place.
pub proof fn lemma_routes_apart<S>(
    actor: ActorView<S>,
    first: usize,
    first_sink: S,
    second: usize,
    second_sink: S,
)
    requires
        first != second,
    ensures
        actor.registered(first, first_sink).registered(second, second_sink).routes[first]
            == first_sink,
        actor.registered(first, first_sink).registered(second, second_sink).routes[second]
            == second_sink,
{
}

} // verus!
