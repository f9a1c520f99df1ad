//! Protocols a request file can name.
use vstd::prelude::*;
use vstd::string::*;

verus! {

/// A protocol named in a request file (written in lower case there).
#[derive(Clone, Copy, Debug, PartialEq, Eq, Structural)]
pub enum ProtocolEnum {
    Http,
    Https,
    WebSocket,
    Ws,
    Wss,
    Tcp,
    Udp,
}

impl ProtocolEnum {
    /// The protocol's name as a request file writes it (in lower case); the
    /// configuration names its middleware chain so.
    pub open spec fn spec_config_name(self) -> Seq<char> {
        match self {
            ProtocolEnum::Http => "http"@,
            ProtocolEnum::Https => "https"@,
            ProtocolEnum::WebSocket => "websocket"@,
            ProtocolEnum::Ws => "ws"@,
            ProtocolEnum::Wss => "wss"@,
            ProtocolEnum::Tcp => "tcp"@,
            ProtocolEnum::Udp => "udp"@,
        }
    }

    /// The protocol's name in lower case.
    pub fn config_name(&self) -> (s: String)
        ensures
            s@ == self.spec_config_name(),
    {
        match self {
            ProtocolEnum::Http => String::from_str("http"),
            ProtocolEnum::Https => String::from_str("https"),
            ProtocolEnum::WebSocket => String::from_str("websocket"),
            ProtocolEnum::Ws => String::from_str("ws"),
            ProtocolEnum::Wss => String::from_str("wss"),
            ProtocolEnum::Tcp => String::from_str("tcp"),
            ProtocolEnum::Udp => String::from_str("udp"),
        }
    }

    /// The variant's name as `Debug` writes it.
    pub open spec fn debug_name(self) -> Seq<char> {
        match self {
            ProtocolEnum::Http => "Http"@,
            ProtocolEnum::Https => "Https"@,
            ProtocolEnum::WebSocket => "WebSocket"@,
            ProtocolEnum::Ws => "Ws"@,
            ProtocolEnum::Wss => "Wss"@,
            ProtocolEnum::Tcp => "Tcp"@,
            ProtocolEnum::Udp => "Udp"@,
        }
    }
}

} // verus!
