//! The capabilities a plugin type may declare. Each trait marks a type as
//! able to serve one entry point of the host; the registration builder offers
//! the matching `enable_*` call only to types that carry the mark.

use vstd::prelude::*;

verus! {

/// One slot of the host's table of entry points.
#[derive(Clone, Copy, Debug, PartialEq, Eq, Structural)]
pub enum Capability {
    Load,
    Login,
    ChatInfo,
    ChatInfoDefaults,
    Close,
    StatusTypes,
    ListIcon,
    JoinChat,
    ChatLeave,
    ConvoClosed,
    GetChatName,
    SendIm,
    ChatSend,
    GetCbAlias,
    /// Room-list enumeration: the host expects it of every plugin.
    RoomlistGetList,
}

/// Runs when the host loads the plugin.
pub trait LoadHandler {}

/// Signs an account in.
pub trait LoginHandler {}

/// Describes the fields of the join-chat dialogue.
pub trait ChatInfoHandler {}

/// Fills in the defaults of the join-chat dialogue.
pub trait ChatInfoDefaultsHandler {}

/// Closes a connection.
pub trait CloseHandler {}

/// Lists the statuses an account can take.
pub trait StatusTypeHandler {}

/// Names the protocol's icon.
pub trait ListIconHandler {}

/// Joins a chat.
pub trait JoinChatHandler {}

/// Leaves a chat.
pub trait ChatLeaveHandler {}

/// Learns that a conversation was closed.
pub trait ConvoClosedHandler {}

/// Names a chat from its components.
pub trait GetChatNameHandler {}

/// Sends an instant message.
pub trait SendIMHandler {}

/// Sends a message to a chat.
pub trait ChatSendHandler {}

/// Gives the alias of a chat participant.
pub trait GetChatBuddyAlias {}

} // verus!
