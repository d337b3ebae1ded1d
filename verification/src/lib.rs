//! A small chat relay over datagrams: the message model, the server's
//! membership and broadcast engine, and the decisions of the client's
//! receive, render and send stages.

pub mod client;
pub mod clock;
pub mod message;
pub mod server;

pub use crate::client::{Arrival, Client, ClientCode, ClientView, InternalMessage, InternalMessageView, ReceiverStep, RenderStep, SenderStep};
pub use crate::message::{ControlCode, Endpoint, Group, GroupView, Member, MemberView, Message, MessageView};
pub use crate::server::{Outbound, OutboundView, Server, ServerView};
