//! A message layer: a client that sends text and sleep orders, and a server
//! that acknowledges the text and sleeps as ordered.
//!
//! Neither side touches a stream: each turns what it is handed into the next
//! thing to do. Durations are counted in milliseconds.

use crate::tlv::extend;
use crate::view_of;
use crate::Sans;
use crate::SansHandle;
use crate::SansResponse;
use crate::Task;
use vstd::prelude::*;
use vstd::string::StringSliceAdditionalSpecFns;
use vstd::utf8::decode_utf8;
use vstd::utf8::encode_utf8;
use vstd::utf8::encode_utf8_decode_utf8;
use vstd::utf8::valid_utf8;

verus! {

/// What the client asks of its driver.
#[derive(Debug, PartialEq, Eq)]
pub enum ClientRequest {
    /// The client is ready for its first order.
    Ready,
    /// These bytes are a text message for the server.
    WriteMessage { payload: Vec<u8> },
    /// These bytes are a sleep order for the server.
    WriteSleep { payload: Vec<u8> },
    /// This text has arrived from the server.
    Message { msg: String },
}

/// What the driver answers the client.
#[derive(Debug, PartialEq, Eq)]
pub enum ClientResponse {
    /// The bytes of a text message from the server.
    ReadMessage { payload: Vec<u8> },
    /// A text to send to the server.
    Message { msg: String },
    /// A time for which the server is to sleep.
    Sleep { millis: u128 },
}

/// What the server asks of its driver.
#[derive(Debug, PartialEq, Eq)]
pub enum ServerRequest {
    /// The next message from the client.
    Read,
    /// These bytes are a text message for the client.
    WriteMessage { payload: Vec<u8> },
    /// Sleep for this time.
    Sleep { millis: u64 },
}

/// What the driver answers the server.
#[derive(Debug, PartialEq, Eq)]
pub enum ServerResponse {
    /// The bytes of a text message from the client.
    ReadMessage { payload: Vec<u8> },
    /// The bytes of a sleep order from the client.
    ReadSleep { payload: Vec<u8> },
}

/// A request of the client, with its bytes and its text as sequences.
pub enum ClientRequestView {
    Ready,
    WriteMessage { payload: Seq<u8> },
    WriteSleep { payload: Seq<u8> },
    Message { msg: Seq<char> },
}

/// A response to the client, with its bytes and its text as sequences.
pub enum ClientResponseView {
    ReadMessage { payload: Seq<u8> },
    Message { msg: Seq<char> },
    Sleep { millis: u128 },
}

/// A request of the server, with its bytes as sequences.
pub enum ServerRequestView {
    Read,
    WriteMessage { payload: Seq<u8> },
    Sleep { millis: u64 },
}

/// A response to the server, with its bytes as sequences.
pub enum ServerResponseView {
    ReadMessage { payload: Seq<u8> },
    ReadSleep { payload: Seq<u8> },
}

impl View for ClientRequest {
    type V = ClientRequestView;

    open spec fn view(&self) -> ClientRequestView {
        match *self {
            ClientRequest::Ready => ClientRequestView::Ready,
            ClientRequest::WriteMessage { payload } => ClientRequestView::WriteMessage {
                payload: payload@,
            },
            ClientRequest::WriteSleep { payload } => ClientRequestView::WriteSleep {
                payload: payload@,
            },
            ClientRequest::Message { msg } => ClientRequestView::Message { msg: msg@ },
        }
    }
}

impl View for ClientResponse {
    type V = ClientResponseView;

    open spec fn view(&self) -> ClientResponseView {
        match *self {
            ClientResponse::ReadMessage { payload } => ClientResponseView::ReadMessage {
                payload: payload@,
            },
            ClientResponse::Message { msg } => ClientResponseView::Message { msg: msg@ },
            ClientResponse::Sleep { millis } => ClientResponseView::Sleep { millis },
        }
    }
}

impl View for ServerRequest {
    type V = ServerRequestView;

    open spec fn view(&self) -> ServerRequestView {
        match *self {
            ServerRequest::Read => ServerRequestView::Read,
            ServerRequest::WriteMessage { payload } => ServerRequestView::WriteMessage {
                payload: payload@,
            },
            ServerRequest::Sleep { millis } => ServerRequestView::Sleep { millis },
        }
    }
}

impl View for ServerResponse {
    type V = ServerResponseView;

    open spec fn view(&self) -> ServerResponseView {
        match *self {
            ServerResponse::ReadMessage { payload } => ServerResponseView::ReadMessage {
                payload: payload@,
            },
            ServerResponse::ReadSleep { payload } => ServerResponseView::ReadSleep {
                payload: payload@,
            },
        }
    }
}

/// The text that stands for bytes that are no text.
pub open spec fn wrong_encoding() -> Seq<char> {
    "(wrong utf-8 encoding)"@
}

/// The words that the server puts before a text that it acknowledges.
pub open spec fn received() -> Seq<u8> {
    "Received: ".spec_bytes()
}

/// The text that the bytes of a message spell.
pub open spec fn message_text(payload: Seq<u8>) -> Seq<char> {
    if valid_utf8(payload) {
        decode_utf8(payload)
    } else {
        wrong_encoding()
    }
}

/// The one byte of a sleep order: the milliseconds, at most 255.
pub open spec fn sleep_order(millis: u128) -> Seq<u8> {
    seq![if millis > 255 { 255u8 } else { millis as u8 }]
}

/// The request that one step of the client ends with.
pub open spec fn client_step(response: Option<ClientResponseView>) -> ClientRequestView {
    match response {
        None => ClientRequestView::Ready,
        Some(ClientResponseView::ReadMessage { payload }) => ClientRequestView::Message {
            msg: message_text(payload),
        },
        Some(ClientResponseView::Message { msg }) => ClientRequestView::WriteMessage {
            payload: encode_utf8(msg),
        },
        Some(ClientResponseView::Sleep { millis }) => ClientRequestView::WriteSleep {
            payload: sleep_order(millis),
        },
    }
}

/// The request that one step of the server ends with. A sleep order of any
/// length but one byte is passed over.
pub open spec fn server_step(response: Option<ServerResponseView>) -> ServerRequestView {
    match response {
        None => ServerRequestView::Read,
        Some(ServerResponseView::ReadMessage { payload }) => ServerRequestView::WriteMessage {
            payload: received() + payload,
        },
        Some(ServerResponseView::ReadSleep { payload }) => if payload.len() == 1 {
            ServerRequestView::Sleep { millis: payload[0] as u64 }
        } else {
            ServerRequestView::Read
        },
    }
}

/// `core::str::from_utf8`: the text that `payload` spells, byte for byte, where
/// the bytes are well-formed UTF-8, and `None` where they are not.
#[verifier::external_body]
fn text_of<'a>(payload: &'a [u8]) -> (text: Option<&'a str>)
    ensures
        match text {
            Some(text) => valid_utf8(payload@) && text.spec_bytes() == payload@,
            None => !valid_utf8(payload@),
        },
{
    match core::str::from_utf8(payload) {
        Ok(text) => Some(text),
        Err(_) => None,
    }
}

/// The text of a message from the server, for the client's driver.
pub fn client_read_message(payload: &[u8]) -> (request: ClientRequest)
    ensures
        request@ == (ClientRequestView::Message { msg: message_text(payload@) }),
{
    let msg = match text_of(payload) {
        Some(text) => {
            proof {
                encode_utf8_decode_utf8(text@);
            }
            text.to_owned()
        },
        None => "(wrong utf-8 encoding)".to_owned(),
    };
    ClientRequest::Message { msg }
}

/// The bytes of a text for the server.
pub fn client_message(msg: &str) -> (request: ClientRequest)
    ensures
        request@ == (ClientRequestView::WriteMessage { payload: encode_utf8(msg@) }),
{
    let mut payload: Vec<u8> = Vec::new();
    extend(&mut payload, msg.as_bytes());
    ClientRequest::WriteMessage { payload }
}

/// The sleep order for the server: one byte of milliseconds, 255 for any
/// longer time.
pub fn client_sleep(millis: u128) -> (request: ClientRequest)
    ensures
        request@ == (ClientRequestView::WriteSleep { payload: sleep_order(millis) }),
{
    let byte: u8 = if millis > 255 {
        255
    } else {
        millis as u8
    };
    let mut payload: Vec<u8> = Vec::new();
    payload.push(byte);
    ClientRequest::WriteSleep { payload }
}

/// The server's acknowledgement of a text.
pub fn server_read_message(payload: &[u8]) -> (request: ServerRequest)
    ensures
        request@ == (ServerRequestView::WriteMessage { payload: received() + payload@ }),
{
    let mut answer: Vec<u8> = Vec::new();
    extend(&mut answer, "Received: ".as_bytes());
    extend(&mut answer, payload);
    ServerRequest::WriteMessage { payload: answer }
}

/// The sleep that an order of one byte asks for; any other order is passed
/// over and the server reads on.
pub fn server_read_sleep(payload: &[u8]) -> (request: ServerRequest)
    ensures
        request@ == server_step(Some(ServerResponseView::ReadSleep { payload: payload@ })),
{
    if payload.len() == 1 {
        ServerRequest::Sleep { millis: payload[0] as u64 }
    } else {
        ServerRequest::Read
    }
}

/// The client's task.
pub struct Client {
    sans: Sans<ClientRequest, ClientResponse>,
}

/// The server's task.
pub struct Server {
    sans: Sans<ServerRequest, ServerResponse>,
}

impl Client {
    /// The client at its start.
    pub fn new(sans: Sans<ClientRequest, ClientResponse>) -> Self {
        Client { sans }
    }
}

impl Server {
    /// The server at its start.
    pub fn new(sans: Sans<ServerRequest, ServerResponse>) -> Self {
        Server { sans }
    }
}

impl Task<ClientRequest, ClientResponse> for Client {
    /// The client makes the call that `client_step` describes, and never ends.
    open spec fn step(
        &self,
        response: Option<ClientResponse>,
        next: Self,
        request: Option<ClientRequest>,
    ) -> bool {
        view_of(request) == Some(client_step(view_of(response)))
    }

    fn resume(&mut self, response: SansResponse<'_, ClientResponse>) -> (call: Option<
        SansHandle<ClientRequest, ClientResponse>,
    >) {
        let request = match response.response() {
            None => ClientRequest::Ready,
            Some(ClientResponse::ReadMessage { payload }) => client_read_message(
                payload.as_slice(),
            ),
            Some(ClientResponse::Message { msg }) => client_message(msg.as_str()),
            Some(ClientResponse::Sleep { millis }) => client_sleep(*millis),
        };
        Some(self.sans.handle(response, request))
    }
}

impl Task<ServerRequest, ServerResponse> for Server {
    /// The server makes the call that `server_step` describes, and never ends.
    open spec fn step(
        &self,
        response: Option<ServerResponse>,
        next: Self,
        request: Option<ServerRequest>,
    ) -> bool {
        view_of(request) == Some(server_step(view_of(response)))
    }

    fn resume(&mut self, response: SansResponse<'_, ServerResponse>) -> (call: Option<
        SansHandle<ServerRequest, ServerResponse>,
    >) {
        let request = match response.response() {
            None => ServerRequest::Read,
            Some(ServerResponse::ReadMessage { payload }) => server_read_message(
                payload.as_slice(),
            ),
            Some(ServerResponse::ReadSleep { payload }) => server_read_sleep(payload.as_slice()),
        };
        Some(self.sans.handle(response, request))
    }
}

} // verus!
