//! The message layer stacked on the framing layer.
//!
//! The stack is itself a task. Inside, it drives one task per layer and
//! routes between them: a response from outside goes to the layer it is
//! meant for, and what that layer requests goes to the other layer or back
//! outside, until a request reaches the outside. No layer performs I/O.

use crate::pingpong;
use crate::pingpong::client_step;
use crate::pingpong::message_text;
use crate::pingpong::received;
use crate::pingpong::server_step;
use crate::tlv::extend;
use crate::tlv::packet;
use crate::tlv::record_len;
use crate::tlv::tlv_step;
use crate::tlv::Tlv;
use crate::tlv::TlvRequest;
use crate::tlv::TlvRequestView;
use crate::tlv::TlvResponse;
use crate::tlv::TlvResponseView;
use crate::view_of;
use crate::IoRequest;
use crate::Sans;
use crate::SansHandle;
use crate::SansResponse;
use crate::Task;
use vstd::prelude::*;

verus! {

/// What the client stack asks of its driver.
#[derive(Debug, PartialEq, Eq)]
pub enum ClientRequest {
    /// More bytes from the stream.
    ReadPayload,
    /// These bytes are to be written to the stream.
    WritePayload { payload: Vec<u8> },
    /// This text has arrived from the server.
    Message { msg: String },
    /// A record with a tag that the client does not know has arrived.
    Error,
}

/// What the driver answers the client stack.
#[derive(Debug, PartialEq, Eq)]
pub enum ClientResponse {
    /// Bytes that were read from the stream, possibly none.
    ReadPayload { payload: Vec<u8> },
    /// A text to send to the server.
    Message { msg: String },
    /// A time for which the server is to sleep.
    Sleep { millis: u128 },
}

/// A request of the client stack, with its bytes and its text as sequences.
pub enum ClientRequestView {
    ReadPayload,
    WritePayload { payload: Seq<u8> },
    Message { msg: Seq<char> },
    Error,
}

/// A response to the client stack, with its bytes and its text as sequences.
pub enum ClientResponseView {
    ReadPayload { payload: Seq<u8> },
    Message { msg: Seq<char> },
    Sleep { millis: u128 },
}

impl View for ClientRequest {
    type V = ClientRequestView;

    open spec fn view(&self) -> ClientRequestView {
        match *self {
            ClientRequest::ReadPayload => ClientRequestView::ReadPayload,
            ClientRequest::WritePayload { payload } => ClientRequestView::WritePayload {
                payload: payload@,
            },
            ClientRequest::Message { msg } => ClientRequestView::Message { msg: msg@ },
            ClientRequest::Error => ClientRequestView::Error,
        }
    }
}

impl View for ClientResponse {
    type V = ClientResponseView;

    open spec fn view(&self) -> ClientResponseView {
        match *self {
            ClientResponse::ReadPayload { payload } => ClientResponseView::ReadPayload {
                payload: payload@,
            },
            ClientResponse::Message { msg } => ClientResponseView::Message { msg: msg@ },
            ClientResponse::Sleep { millis } => ClientResponseView::Sleep { millis },
        }
    }
}

/// Where the client stack's next move goes.
#[derive(Debug, PartialEq, Eq)]
pub enum Client {
    /// A response for the framing layer.
    Tlv(TlvResponse),
    /// A response for the message layer.
    Pp(pingpong::ClientResponse),
    /// A request for the outside.
    Request(ClientRequest),
}

/// A move of the client stack, with its bytes and its text as sequences.
pub enum ClientView {
    Tlv(TlvResponseView),
    Pp(pingpong::ClientResponseView),
    Request(ClientRequestView),
}

impl View for Client {
    type V = ClientView;

    open spec fn view(&self) -> ClientView {
        match *self {
            Client::Tlv(response) => ClientView::Tlv(response@),
            Client::Pp(response) => ClientView::Pp(response@),
            Client::Request(request) => ClientView::Request(request@),
        }
    }
}

/// Where a request of the framing layer goes. A record with tag 0 is a text
/// message; one with any other tag is a decode error.
pub open spec fn client_tlv_request_spec(request: TlvRequestView) -> ClientView {
    match request {
        TlvRequestView::WritePayload { payload } => ClientView::Request(
            ClientRequestView::WritePayload { payload },
        ),
        TlvRequestView::Read { tag, val } => if tag == 0 {
            ClientView::Pp(pingpong::ClientResponseView::ReadMessage { payload: val })
        } else {
            ClientView::Request(ClientRequestView::Error)
        },
        TlvRequestView::ReadPayload => ClientView::Request(ClientRequestView::ReadPayload),
    }
}

/// Where a request of the message layer goes. A text message is framed with
/// tag 0, a sleep order with tag 1.
pub open spec fn client_pp_request_spec(request: pingpong::ClientRequestView) -> ClientView {
    match request {
        pingpong::ClientRequestView::WriteMessage { payload } => ClientView::Tlv(
            TlvResponseView::Write { tag: 0, val: payload },
        ),
        pingpong::ClientRequestView::WriteSleep { payload } => ClientView::Tlv(
            TlvResponseView::Write { tag: 1, val: payload },
        ),
        pingpong::ClientRequestView::Message { msg } => ClientView::Request(
            ClientRequestView::Message { msg },
        ),
        pingpong::ClientRequestView::Ready => ClientView::Tlv(
            TlvResponseView::ReadPayload { payload: Seq::empty() },
        ),
    }
}

/// Where a response from outside goes.
pub open spec fn client_response_spec(response: ClientResponseView) -> ClientView {
    match response {
        ClientResponseView::ReadPayload { payload } => ClientView::Tlv(
            TlvResponseView::ReadPayload { payload },
        ),
        ClientResponseView::Message { msg } => ClientView::Pp(
            pingpong::ClientResponseView::Message { msg },
        ),
        ClientResponseView::Sleep { millis } => ClientView::Pp(
            pingpong::ClientResponseView::Sleep { millis },
        ),
    }
}

/// What the stack's layers hold between two steps.
pub struct StackView {
    /// The bytes that the framing layer holds and that belong to no record yet.
    pub pending: Seq<u8>,
    /// How many responses the message layer has been handed.
    pub delivered: nat,
}

/// The bytes that a move still has to get through the framing layer.
pub open spec fn client_bytes(pending: Seq<u8>, hop: ClientView) -> nat {
    match hop {
        ClientView::Tlv(TlvResponseView::ReadPayload { payload }) => pending.len() + payload.len(),
        _ => pending.len(),
    }
}

/// How far a move is from the outside.
pub open spec fn client_rank(hop: ClientView) -> nat {
    match hop {
        ClientView::Request(_) => 0,
        ClientView::Tlv(_) => 1,
        ClientView::Pp(_) => 2,
    }
}

/// Runs the layers from the move `hop` until a request reaches the outside:
/// what the layers hold then, and that request.
pub open spec fn client_settle(layers: StackView, hop: ClientView) -> (StackView, ClientRequestView)
    decreases client_bytes(layers.pending, hop), client_rank(hop),
{
    match hop {
        ClientView::Request(request) => (layers, request),
        ClientView::Tlv(response) => {
            let (pending, request) = tlv_step(layers.pending, Some(response));
            client_settle(
                StackView { pending, delivered: layers.delivered },
                client_tlv_request_spec(request),
            )
        },
        ClientView::Pp(response) => client_settle(
            StackView { pending: layers.pending, delivered: layers.delivered + 1 },
            client_pp_request_spec(client_step(Some(response))),
        ),
    }
}

/// One step of the client stack. The first step starts both layers and asks
/// for bytes; a later step settles the response that it is resumed with; a
/// later step that is resumed with nothing ends the stack.
pub open spec fn client_stack_step(
    layers: Option<StackView>,
    response: Option<ClientResponseView>,
) -> (Option<StackView>, Option<ClientRequestView>) {
    match (layers, response) {
        (None, _) => (
            Some(StackView { pending: Seq::empty(), delivered: 0 }),
            Some(ClientRequestView::ReadPayload),
        ),
        (Some(_), None) => (None, None),
        (Some(layers), Some(response)) => (
            Some(client_settle(layers, client_response_spec(response)).0),
            Some(client_settle(layers, client_response_spec(response)).1),
        ),
    }
}

/// A copy of `bytes`.
fn copy_of(bytes: &Vec<u8>) -> (copy: Vec<u8>)
    ensures
        copy@ == bytes@,
{
    let mut copy: Vec<u8> = Vec::new();
    extend(&mut copy, bytes.as_slice());
    copy
}

/// Where a request of the framing layer goes.
pub fn client_tlv_request(request: TlvRequest) -> (hop: Client)
    ensures
        hop@ == client_tlv_request_spec(request@),
{
    match request {
        TlvRequest::WritePayload { payload } => Client::Request(
            ClientRequest::WritePayload { payload },
        ),
        TlvRequest::Read { tag, val } => if tag == 0 {
            Client::Pp(pingpong::ClientResponse::ReadMessage { payload: val })
        } else {
            Client::Request(ClientRequest::Error)
        },
        TlvRequest::ReadPayload => Client::Request(ClientRequest::ReadPayload),
    }
}

/// Where a request of the message layer goes.
pub fn client_pp_request(request: pingpong::ClientRequest) -> (hop: Client)
    ensures
        hop@ == client_pp_request_spec(request@),
{
    match request {
        pingpong::ClientRequest::WriteMessage { payload } => Client::Tlv(
            TlvResponse::Write { tag: 0, val: payload },
        ),
        pingpong::ClientRequest::WriteSleep { payload } => Client::Tlv(
            TlvResponse::Write { tag: 1, val: payload },
        ),
        pingpong::ClientRequest::Message { msg } => Client::Request(
            ClientRequest::Message { msg },
        ),
        pingpong::ClientRequest::Ready => Client::Tlv(
            TlvResponse::ReadPayload { payload: Vec::new() },
        ),
    }
}

/// Where a response from outside goes.
pub fn client_response(response: &ClientResponse) -> (hop: Client)
    ensures
        hop@ == client_response_spec(response@),
{
    match response {
        ClientResponse::ReadPayload { payload } => Client::Tlv(
            TlvResponse::ReadPayload { payload: copy_of(payload) },
        ),
        ClientResponse::Message { msg } => Client::Pp(
            pingpong::ClientResponse::Message { msg: msg.clone() },
        ),
        ClientResponse::Sleep { millis } => Client::Pp(
            pingpong::ClientResponse::Sleep { millis: *millis },
        ),
    }
}

/// The two layers of a running client stack, each suspended in a call.
struct ClientLayers {
    tlv: IoRequest<TlvRequest, Tlv>,
    pp: IoRequest<pingpong::ClientRequest, pingpong::Client>,
    delivered: Ghost<nat>,
}

/// The client stack's task.
pub struct ClientStack {
    sans: Sans<ClientRequest, ClientResponse>,
    layers: Option<ClientLayers>,
}

impl View for ClientStack {
    type V = Option<StackView>;

    /// What the layers hold; `None` as long as they have not been started.
    closed spec fn view(&self) -> Option<StackView> {
        match self.layers {
            Some(layers) => Some(
                StackView { pending: layers.tlv.task()@, delivered: layers.delivered@ },
            ),
            None => None,
        }
    }
}

impl ClientStack {
    /// The stack before its first step: no layer runs yet.
    pub fn new(sans: Sans<ClientRequest, ClientResponse>) -> (task: Self)
        ensures
            task@ is None,
    {
        ClientStack { sans, layers: None }
    }

    /// Starts both layers. Where one ends at once, the stack does not start;
    /// neither of these two does.
    fn start_layers() -> (layers: Option<ClientLayers>)
        ensures
            layers is Some,
            layers.unwrap().tlv.task()@ == Seq::<u8>::empty(),
            layers.unwrap().delivered@ == 0,
    {
        let (pp_sans, pp_io) = crate::new::<pingpong::ClientRequest, pingpong::ClientResponse>();
        let pp = match pp_io.start(pingpong::Client::new(pp_sans)) {
            Some(pp) => pp,
            None => { return None; },
        };
        let (tlv_sans, tlv_io) = crate::new::<TlvRequest, TlvResponse>();
        let tlv = match tlv_io.start(Tlv::new(tlv_sans)) {
            Some(tlv) => tlv,
            None => { return None; },
        };
        Some(ClientLayers { tlv, pp, delivered: Ghost(0) })
    }

    /// Runs the layers from the move `hop` until a request reaches the
    /// outside. Where a layer ends, the stack ends with it and `None` comes
    /// back; with these two layers, neither of which ever ends, it never
    /// does.
    fn settle(layers: ClientLayers, hop: Client) -> (r: Option<(ClientLayers, ClientRequest)>)
        ensures
            r is Some,
            (
                StackView { pending: r.unwrap().0.tlv.task()@, delivered: r.unwrap().0.delivered@ },
                r.unwrap().1@,
            ) == client_settle(
                StackView { pending: layers.tlv.task()@, delivered: layers.delivered@ },
                hop@,
            ),
    {
        let (_, tlv_io) = crate::new::<TlvRequest, TlvResponse>();
        let (_, pp_io) = crate::new::<pingpong::ClientRequest, pingpong::ClientResponse>();
        let mut tlv = layers.tlv;
        let mut pp = layers.pp;
        let mut delivered = layers.delivered;
        let mut at = hop;
        loop
            invariant
                client_settle(StackView { pending: tlv.task()@, delivered: delivered@ }, at@)
                    == client_settle(
                    StackView { pending: layers.tlv.task()@, delivered: layers.delivered@ },
                    hop@,
                ),
            decreases client_bytes(tlv.task()@, at@), client_rank(at@),
        {
            match at {
                Client::Request(request) => {
                    return Some((ClientLayers { tlv, pp, delivered }, request));
                },
                Client::Tlv(response) => {
                    let mut next = match tlv_io.handle(tlv, &response) {
                        Some(next) => next,
                        None => { return None; },
                    };
                    at = match next.take() {
                        Some(request) => client_tlv_request(request),
                        None => { return None; },
                    };
                    tlv = next;
                },
                Client::Pp(response) => {
                    let mut next = match pp_io.handle(pp, &response) {
                        Some(next) => next,
                        None => { return None; },
                    };
                    at = match next.take() {
                        Some(request) => client_pp_request(request),
                        None => { return None; },
                    };
                    pp = next;
                    delivered = Ghost(delivered@ + 1);
                },
            }
        }
    }
}

impl Task<ClientRequest, ClientResponse> for ClientStack {
    /// The stack makes the step that `client_stack_step` describes.
    open spec fn step(
        &self,
        response: Option<ClientResponse>,
        next: Self,
        request: Option<ClientRequest>,
    ) -> bool {
        (next@, view_of(request)) == client_stack_step(self@, view_of(response))
    }

    fn resume(&mut self, response: SansResponse<'_, ClientResponse>) -> (call: Option<
        SansHandle<ClientRequest, ClientResponse>,
    >) {
        match self.layers.take() {
            None => {
                self.layers = Self::start_layers();
                if self.layers.is_none() {
                    return None;
                }
                Some(self.sans.start(ClientRequest::ReadPayload))
            },
            Some(layers) => match response.response() {
                None => None,
                Some(outside) => match Self::settle(layers, client_response(outside)) {
                    Some((layers, request)) => {
                        self.layers = Some(layers);
                        Some(self.sans.handle(response, request))
                    },
                    None => None,
                },
            },
        }
    }
}

/// Bytes that complete no record make the framing layer ask for more bytes:
/// they are kept, and the message layer is handed nothing.
pub proof fn law_client_partial_record_waits(layers: StackView, payload: Seq<u8>)
    requires
        record_len(layers.pending + payload) is None,
    ensures
        client_stack_step(Some(layers), Some(ClientResponseView::ReadPayload { payload })) == (
            Some(StackView { pending: layers.pending + payload, delivered: layers.delivered }),
            Some(ClientRequestView::ReadPayload),
        ),
{
    reveal_with_fuel(client_settle, 3);
}

/// Bytes that complete a record with the tag of a text message hand the
/// message layer exactly one response, the record's value, and the text that
/// it spells reaches the outside. The record's bytes leave the framing layer.
pub proof fn law_client_text_is_delivered_once(layers: StackView, payload: Seq<u8>)
    requires
        record_len(layers.pending + payload) is Some,
        (layers.pending + payload)[0] == 0,
    ensures
        ({
            let buf = layers.pending + payload;
            let n = record_len(buf).unwrap();
            client_stack_step(Some(layers), Some(ClientResponseView::ReadPayload { payload })) == (
                Some(
                    StackView {
                        pending: buf.subrange(n, buf.len() as int),
                        delivered: layers.delivered + 1,
                    },
                ),
                Some(ClientRequestView::Message { msg: message_text(buf.subrange(2, n)) }),
            )
        }),
{
    reveal_with_fuel(client_settle, 4);
}

/// Bytes that complete a record with a tag that the client does not know end
/// in the decode error, and the message layer is handed nothing.
pub proof fn law_client_unknown_tag_is_error(layers: StackView, payload: Seq<u8>)
    requires
        record_len(layers.pending + payload) is Some,
        (layers.pending + payload)[0] != 0,
    ensures
        ({
            let buf = layers.pending + payload;
            let n = record_len(buf).unwrap();
            client_stack_step(Some(layers), Some(ClientResponseView::ReadPayload { payload })) == (
                Some(
                    StackView {
                        pending: buf.subrange(n, buf.len() as int),
                        delivered: layers.delivered,
                    },
                ),
                Some(ClientRequestView::Error),
            )
        }),
{
    reveal_with_fuel(client_settle, 3);
}

/// What the server stack asks of its driver.
#[derive(Debug, PartialEq, Eq)]
pub enum ServerRequest {
    /// More bytes from the stream.
    ReadPayload,
    /// These bytes are to be written to the stream.
    WritePayload { payload: Vec<u8> },
    /// Sleep for this time.
    Sleep { millis: u64 },
    /// A record with a tag that the server does not know has arrived.
    Error,
}

/// What the driver answers the server stack.
#[derive(Debug, PartialEq, Eq)]
pub enum ServerResponse {
    /// Bytes that were read from the stream, possibly none.
    ReadPayload { payload: Vec<u8> },
}

/// A request of the server stack, with its bytes as sequences.
pub enum ServerRequestView {
    ReadPayload,
    WritePayload { payload: Seq<u8> },
    Sleep { millis: u64 },
    Error,
}

/// A response to the server stack, with its bytes as sequences.
pub enum ServerResponseView {
    ReadPayload { payload: Seq<u8> },
}

impl View for ServerRequest {
    type V = ServerRequestView;

    open spec fn view(&self) -> ServerRequestView {
        match *self {
            ServerRequest::ReadPayload => ServerRequestView::ReadPayload,
            ServerRequest::WritePayload { payload } => ServerRequestView::WritePayload {
                payload: payload@,
            },
            ServerRequest::Sleep { millis } => ServerRequestView::Sleep { millis },
            ServerRequest::Error => ServerRequestView::Error,
        }
    }
}

impl View for ServerResponse {
    type V = ServerResponseView;

    open spec fn view(&self) -> ServerResponseView {
        match *self {
            ServerResponse::ReadPayload { payload } => ServerResponseView::ReadPayload {
                payload: payload@,
            },
        }
    }
}

/// Where the server stack's next move goes.
#[derive(Debug, PartialEq, Eq)]
pub enum Server {
    /// A response for the framing layer.
    Tlv(TlvResponse),
    /// A response for the message layer.
    Pp(pingpong::ServerResponse),
    /// A request for the outside.
    Request(ServerRequest),
}

/// A move of the server stack, with its bytes as sequences.
pub enum ServerView {
    Tlv(TlvResponseView),
    Pp(pingpong::ServerResponseView),
    Request(ServerRequestView),
}

impl View for Server {
    type V = ServerView;

    open spec fn view(&self) -> ServerView {
        match *self {
            Server::Tlv(response) => ServerView::Tlv(response@),
            Server::Pp(response) => ServerView::Pp(response@),
            Server::Request(request) => ServerView::Request(request@),
        }
    }
}

/// Where a request of the framing layer goes. A record with tag 0 is a text
/// message, one with tag 1 a sleep order; one with any other tag is a decode
/// error.
pub open spec fn server_tlv_request_spec(request: TlvRequestView) -> ServerView {
    match request {
        TlvRequestView::WritePayload { payload } => ServerView::Request(
            ServerRequestView::WritePayload { payload },
        ),
        TlvRequestView::Read { tag, val } => if tag == 0 {
            ServerView::Pp(pingpong::ServerResponseView::ReadMessage { payload: val })
        } else if tag == 1 {
            ServerView::Pp(pingpong::ServerResponseView::ReadSleep { payload: val })
        } else {
            ServerView::Request(ServerRequestView::Error)
        },
        TlvRequestView::ReadPayload => ServerView::Request(ServerRequestView::ReadPayload),
    }
}

/// Where a request of the message layer goes. A text message is framed with
/// tag 0; to read on, the framing layer is handed no new bytes.
pub open spec fn server_pp_request_spec(request: pingpong::ServerRequestView) -> ServerView {
    match request {
        pingpong::ServerRequestView::WriteMessage { payload } => ServerView::Tlv(
            TlvResponseView::Write { tag: 0, val: payload },
        ),
        pingpong::ServerRequestView::Sleep { millis } => ServerView::Request(
            ServerRequestView::Sleep { millis },
        ),
        pingpong::ServerRequestView::Read => ServerView::Tlv(
            TlvResponseView::ReadPayload { payload: Seq::empty() },
        ),
    }
}

/// Where a response from outside goes.
pub open spec fn server_response_spec(response: ServerResponseView) -> ServerView {
    match response {
        ServerResponseView::ReadPayload { payload } => ServerView::Tlv(
            TlvResponseView::ReadPayload { payload },
        ),
    }
}

/// The bytes that a move still has to get through the framing layer.
pub open spec fn server_bytes(pending: Seq<u8>, hop: ServerView) -> nat {
    match hop {
        ServerView::Tlv(TlvResponseView::ReadPayload { payload }) => pending.len() + payload.len(),
        _ => pending.len(),
    }
}

/// How far a move is from the outside.
pub open spec fn server_rank(hop: ServerView) -> nat {
    match hop {
        ServerView::Request(_) => 0,
        ServerView::Tlv(_) => 1,
        ServerView::Pp(_) => 2,
    }
}

/// Runs the layers from the move `hop` until a request reaches the outside:
/// what the layers hold then, and that request. A sleep order that the
/// message layer passes over makes the framing layer look for the next record
/// among the bytes it holds.
pub open spec fn server_settle(layers: StackView, hop: ServerView) -> (StackView, ServerRequestView)
    decreases server_bytes(layers.pending, hop), server_rank(hop),
{
    match hop {
        ServerView::Request(request) => (layers, request),
        ServerView::Tlv(response) => {
            let (pending, request) = tlv_step(layers.pending, Some(response));
            server_settle(
                StackView { pending, delivered: layers.delivered },
                server_tlv_request_spec(request),
            )
        },
        ServerView::Pp(response) => server_settle(
            StackView { pending: layers.pending, delivered: layers.delivered + 1 },
            server_pp_request_spec(server_step(Some(response))),
        ),
    }
}

/// One step of the server stack. The first step starts both layers and asks
/// for bytes; a later step settles the response that it is resumed with; a
/// later step that is resumed with nothing ends the stack.
pub open spec fn server_stack_step(
    layers: Option<StackView>,
    response: Option<ServerResponseView>,
) -> (Option<StackView>, Option<ServerRequestView>) {
    match (layers, response) {
        (None, _) => (
            Some(StackView { pending: Seq::empty(), delivered: 0 }),
            Some(ServerRequestView::ReadPayload),
        ),
        (Some(_), None) => (None, None),
        (Some(layers), Some(response)) => (
            Some(server_settle(layers, server_response_spec(response)).0),
            Some(server_settle(layers, server_response_spec(response)).1),
        ),
    }
}

/// Where a request of the framing layer goes.
pub fn server_tlv_request(request: TlvRequest) -> (hop: Server)
    ensures
        hop@ == server_tlv_request_spec(request@),
{
    match request {
        TlvRequest::WritePayload { payload } => Server::Request(
            ServerRequest::WritePayload { payload },
        ),
        TlvRequest::Read { tag, val } => if tag == 0 {
            Server::Pp(pingpong::ServerResponse::ReadMessage { payload: val })
        } else if tag == 1 {
            Server::Pp(pingpong::ServerResponse::ReadSleep { payload: val })
        } else {
            Server::Request(ServerRequest::Error)
        },
        TlvRequest::ReadPayload => Server::Request(ServerRequest::ReadPayload),
    }
}

/// Where a request of the message layer goes.
pub fn server_pp_request(request: pingpong::ServerRequest) -> (hop: Server)
    ensures
        hop@ == server_pp_request_spec(request@),
{
    match request {
        pingpong::ServerRequest::WriteMessage { payload } => Server::Tlv(
            TlvResponse::Write { tag: 0, val: payload },
        ),
        pingpong::ServerRequest::Sleep { millis } => Server::Request(
            ServerRequest::Sleep { millis },
        ),
        pingpong::ServerRequest::Read => Server::Tlv(
            TlvResponse::ReadPayload { payload: Vec::new() },
        ),
    }
}

/// Where a response from outside goes.
pub fn server_response(response: &ServerResponse) -> (hop: Server)
    ensures
        hop@ == server_response_spec(response@),
{
    match response {
        ServerResponse::ReadPayload { payload } => Server::Tlv(
            TlvResponse::ReadPayload { payload: copy_of(payload) },
        ),
    }
}

/// The two layers of a running server stack, each suspended in a call.
struct ServerLayers {
    tlv: IoRequest<TlvRequest, Tlv>,
    pp: IoRequest<pingpong::ServerRequest, pingpong::Server>,
    delivered: Ghost<nat>,
}

/// The server stack's task.
pub struct ServerStack {
    sans: Sans<ServerRequest, ServerResponse>,
    layers: Option<ServerLayers>,
}

impl View for ServerStack {
    type V = Option<StackView>;

    /// What the layers hold; `None` as long as they have not been started.
    closed spec fn view(&self) -> Option<StackView> {
        match self.layers {
            Some(layers) => Some(
                StackView { pending: layers.tlv.task()@, delivered: layers.delivered@ },
            ),
            None => None,
        }
    }
}

impl ServerStack {
    /// The stack before its first step: no layer runs yet.
    pub fn new(sans: Sans<ServerRequest, ServerResponse>) -> (task: Self)
        ensures
            task@ is None,
    {
        ServerStack { sans, layers: None }
    }

    /// Starts both layers. Where one ends at once, the stack does not start;
    /// neither of these two does.
    fn start_layers() -> (layers: Option<ServerLayers>)
        ensures
            layers is Some,
            layers.unwrap().tlv.task()@ == Seq::<u8>::empty(),
            layers.unwrap().delivered@ == 0,
    {
        let (pp_sans, pp_io) = crate::new::<pingpong::ServerRequest, pingpong::ServerResponse>();
        let pp = match pp_io.start(pingpong::Server::new(pp_sans)) {
            Some(pp) => pp,
            None => { return None; },
        };
        let (tlv_sans, tlv_io) = crate::new::<TlvRequest, TlvResponse>();
        let tlv = match tlv_io.start(Tlv::new(tlv_sans)) {
            Some(tlv) => tlv,
            None => { return None; },
        };
        Some(ServerLayers { tlv, pp, delivered: Ghost(0) })
    }

    /// Runs the layers from the move `hop` until a request reaches the
    /// outside. Where a layer ends, the stack ends with it and `None` comes
    /// back; with these two layers, neither of which ever ends, it never
    /// does.
    fn settle(layers: ServerLayers, hop: Server) -> (r: Option<(ServerLayers, ServerRequest)>)
        ensures
            r is Some,
            (
                StackView { pending: r.unwrap().0.tlv.task()@, delivered: r.unwrap().0.delivered@ },
                r.unwrap().1@,
            ) == server_settle(
                StackView { pending: layers.tlv.task()@, delivered: layers.delivered@ },
                hop@,
            ),
    {
        let (_, tlv_io) = crate::new::<TlvRequest, TlvResponse>();
        let (_, pp_io) = crate::new::<pingpong::ServerRequest, pingpong::ServerResponse>();
        let mut tlv = layers.tlv;
        let mut pp = layers.pp;
        let mut delivered = layers.delivered;
        let mut at = hop;
        loop
            invariant
                server_settle(StackView { pending: tlv.task()@, delivered: delivered@ }, at@)
                    == server_settle(
                    StackView { pending: layers.tlv.task()@, delivered: layers.delivered@ },
                    hop@,
                ),
            decreases server_bytes(tlv.task()@, at@), server_rank(at@),
        {
            match at {
                Server::Request(request) => {
                    return Some((ServerLayers { tlv, pp, delivered }, request));
                },
                Server::Tlv(response) => {
                    let mut next = match tlv_io.handle(tlv, &response) {
                        Some(next) => next,
                        None => { return None; },
                    };
                    at = match next.take() {
                        Some(request) => server_tlv_request(request),
                        None => { return None; },
                    };
                    tlv = next;
                },
                Server::Pp(response) => {
                    let mut next = match pp_io.handle(pp, &response) {
                        Some(next) => next,
                        None => { return None; },
                    };
                    at = match next.take() {
                        Some(request) => server_pp_request(request),
                        None => { return None; },
                    };
                    pp = next;
                    delivered = Ghost(delivered@ + 1);
                },
            }
        }
    }
}

impl Task<ServerRequest, ServerResponse> for ServerStack {
    /// The stack makes the step that `server_stack_step` describes.
    open spec fn step(
        &self,
        response: Option<ServerResponse>,
        next: Self,
        request: Option<ServerRequest>,
    ) -> bool {
        (next@, view_of(request)) == server_stack_step(self@, view_of(response))
    }

    fn resume(&mut self, response: SansResponse<'_, ServerResponse>) -> (call: Option<
        SansHandle<ServerRequest, ServerResponse>,
    >) {
        match self.layers.take() {
            None => {
                self.layers = Self::start_layers();
                if self.layers.is_none() {
                    return None;
                }
                Some(self.sans.start(ServerRequest::ReadPayload))
            },
            Some(layers) => match response.response() {
                None => None,
                Some(outside) => match Self::settle(layers, server_response(outside)) {
                    Some((layers, request)) => {
                        self.layers = Some(layers);
                        Some(self.sans.handle(response, request))
                    },
                    None => None,
                },
            },
        }
    }
}

/// Bytes that complete no record make the framing layer ask for more bytes:
/// they are kept, and the message layer is handed nothing.
pub proof fn law_server_partial_record_waits(layers: StackView, payload: Seq<u8>)
    requires
        record_len(layers.pending + payload) is None,
    ensures
        server_stack_step(Some(layers), Some(ServerResponseView::ReadPayload { payload })) == (
            Some(StackView { pending: layers.pending + payload, delivered: layers.delivered }),
            Some(ServerRequestView::ReadPayload),
        ),
{
    reveal_with_fuel(server_settle, 3);
}

/// Bytes that complete a record with the tag of a text message hand the
/// message layer exactly one response, the record's value, and the framed
/// acknowledgement goes to the outside to be written. The record's bytes
/// leave the framing layer.
pub proof fn law_server_text_is_answered_once(layers: StackView, payload: Seq<u8>)
    requires
        record_len(layers.pending + payload) is Some,
        (layers.pending + payload)[0] == 0,
    ensures
        ({
            let buf = layers.pending + payload;
            let n = record_len(buf).unwrap();
            server_stack_step(Some(layers), Some(ServerResponseView::ReadPayload { payload })) == (
                Some(
                    StackView {
                        pending: buf.subrange(n, buf.len() as int),
                        delivered: layers.delivered + 1,
                    },
                ),
                Some(
                    ServerRequestView::WritePayload {
                        payload: packet(0, received() + buf.subrange(2, n)),
                    },
                ),
            )
        }),
{
    reveal_with_fuel(server_settle, 5);
}

/// Bytes that complete a sleep order of one byte hand the message layer
/// exactly one response, and the sleep of that many milliseconds goes to the
/// outside.
pub proof fn law_server_sleep_order_is_obeyed_once(layers: StackView, payload: Seq<u8>)
    requires
        record_len(layers.pending + payload) == Some(3int),
        (layers.pending + payload)[0] == 1,
    ensures
        ({
            let buf = layers.pending + payload;
            server_stack_step(Some(layers), Some(ServerResponseView::ReadPayload { payload })) == (
                Some(
                    StackView {
                        pending: buf.subrange(3, buf.len() as int),
                        delivered: layers.delivered + 1,
                    },
                ),
                Some(ServerRequestView::Sleep { millis: buf[2] as u64 }),
            )
        }),
{
    reveal_with_fuel(server_settle, 4);
    let buf = layers.pending + payload;
    assert(buf.subrange(2, 3).len() == 1);
    assert(buf.subrange(2, 3)[0] == buf[2]);
}

/// Bytes that complete a record with a tag that the server does not know end
/// in the decode error, and the message layer is handed nothing.
pub proof fn law_server_unknown_tag_is_error(layers: StackView, payload: Seq<u8>)
    requires
        record_len(layers.pending + payload) is Some,
        (layers.pending + payload)[0] > 1,
    ensures
        ({
            let buf = layers.pending + payload;
            let n = record_len(buf).unwrap();
            server_stack_step(Some(layers), Some(ServerResponseView::ReadPayload { payload })) == (
                Some(
                    StackView {
                        pending: buf.subrange(n, buf.len() as int),
                        delivered: layers.delivered,
                    },
                ),
                Some(ServerRequestView::Error),
            )
        }),
{
    reveal_with_fuel(server_settle, 3);
}

} // verus!
