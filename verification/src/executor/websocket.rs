//! The WebSocket executor. The connection itself goes over the network; this
//! module decides what is sent and what the reply makes of the result.
use crate::executor::base::BaseExecutor;
use crate::executor::{Context, ExecutionResult};
use crate::strmap::StrMap;
use crate::text::join;
use vstd::prelude::*;
use vstd::string::*;
use vstd::utf8::encode_utf8;

verus! {

/// The first thing the server sent back, if anything.
pub enum WsReply {
    /// The connection ended without a message.
    Nothing,
    Text(String),
    Binary(Vec<u8>),
    /// A ping, pong, close or raw frame.
    Control,
    /// Reading failed with this message.
    Failed(String),
}

/// Runs requests over WebSocket.
pub struct WebSocketExecutor {
    base: BaseExecutor,
}

impl WebSocketExecutor {
    /// The middleware chain run around each request.
    pub closed spec fn base(&self) -> BaseExecutor {
        self.base
    }

    /// An executor with the given chain.
    pub fn new(base: BaseExecutor) -> (e: Self)
        ensures
            e.base()@ == base@,
    {
        WebSocketExecutor { base }
    }

    /// The middleware chain run around each request.
    pub fn chain(&self) -> (r: &BaseExecutor)
        ensures
            r@ == self.base()@,
    {
        &self.base
    }

    /// The executor's name.
    pub fn name(&self) -> (r: &'static str)
        ensures
            r@ == "websocket_executor"@,
    {
        "websocket_executor"
    }

    /// The text message sent after connecting: the payload, if there is one.
    pub fn outgoing_message(context: &Context) -> (r: Option<String>)
        ensures
            r.deep_view() == context.payload.deep_view(),
    {
        match &context.payload {
            Some(p) => Some(p.clone()),
            None => None,
        }
    }

    /// The result of the reply: the bytes of a text or binary message (none
    /// otherwise), status `connected`, and the protocol in the metadata. A
    /// failed read is an error.
    pub fn result_from_reply(reply: WsReply, duration: u128) -> (r: Result<ExecutionResult, String>)
        ensures
            reply matches WsReply::Failed(e) ==> (r matches Err(m) && m@ == "WebSocket error: "@
                + e@),
            !(reply is Failed) ==> (r matches Ok(res) && res.success && res.status@
                == "connected"@ && res.duration == duration && res.metadata@ == Map::<
                Seq<char>,
                Seq<char>,
            >::empty().insert("protocol"@, "websocket"@) && res.data@ == match reply {
                WsReply::Text(t) => encode_utf8(t@),
                WsReply::Binary(b) => b@,
                _ => Seq::<u8>::empty(),
            }),
    {
        let mut metadata: StrMap<String> = StrMap::new();
        metadata.insert(String::from_str("protocol"), String::from_str("websocket"));
        let data = match reply {
            WsReply::Failed(e) => {
                return Err(join("WebSocket error: ", e.as_str()));
            },
            WsReply::Text(t) => t.as_str().as_bytes_vec(),
            WsReply::Binary(b) => b,
            _ => Vec::new(),
        };
        Ok(
            ExecutionResult {
                success: true,
                status: String::from_str("connected"),
                data,
                duration,
                metadata,
            },
        )
    }
}

} // verus!
