//! Building blocks for protocol plugins of a libpurple host: the registration
//! builder that decides which entry points a plugin exposes, the option list
//! it hands over, the sleep primitive of the cooperative task scheduler, and
//! the mapping of log records onto the host's debug channel.

pub mod text;
pub mod connection;
pub mod handlers;
pub mod descriptor;
pub mod loader;
pub mod task;
pub mod logger;

pub use connection::chat_id;
pub use handlers::{
    Capability, ChatInfoDefaultsHandler, ChatInfoHandler, ChatLeaveHandler, ChatSendHandler,
    CloseHandler, ConvoClosedHandler, GetChatBuddyAlias, GetChatNameHandler, JoinChatHandler,
    ListIconHandler, LoadHandler, LoginHandler, SendIMHandler, StatusTypeHandler,
};
pub use descriptor::{
    AccountOption, BaseInfo, Identity, OptionDefault, PluginDescriptor, ProtocolInfo,
};
pub use loader::{
    host_bool, LoadedPlugin, PrplInfo, PrplOption, PrplOptionValue, PrplPlugin, PrplPluginLoader,
    RegisterContext,
};
pub use logger::{BufferedRecord, DebugCall, Level, PurpleDebugLevel, PurpleDebugLogger};
pub use task::{sleep, SleepFuture, SleepPoll, TimerVerdict};
pub use text::{ConfigError, HostText, TextField};
