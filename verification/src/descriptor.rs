//! The descriptor of a plugin: the identity, the account options and the
//! table of entry points, as the host reads them.

use vstd::prelude::*;
use crate::handlers::Capability;
use crate::text::HostText;

verus! {

/// What an identity says, field by field.
pub ghost struct IdentityView {
    pub id: Seq<char>,
    pub name: Seq<char>,
    pub version: Seq<char>,
    pub summary: Seq<char>,
    pub description: Seq<char>,
    pub author: Seq<char>,
    pub homepage: Seq<char>,
}

/// What the default of an option says.
pub ghost enum DefaultView {
    Bool(bool),
    Text(Seq<char>),
}

/// What an account option says: its label, its key, its default, and whether
/// the host hides what the user types.
pub ghost struct OptionView {
    pub text: Seq<char>,
    pub key: Seq<char>,
    pub default: DefaultView,
    pub masked: bool,
}

/// What a descriptor tells the host.
pub ghost struct DescriptorView {
    pub identity: Option<IdentityView>,
    pub actions: bool,
    /// The entry points that are set.
    pub slots: Set<Capability>,
    /// The options, in the order the host reads them.
    pub options: Seq<OptionView>,
}

/// The identity of a plugin, as the host reads it.
pub struct Identity {
    pub id: HostText,
    pub name: HostText,
    pub version: HostText,
    pub summary: HostText,
    pub description: HostText,
    pub author: HostText,
    pub homepage: HostText,
}

impl View for Identity {
    type V = IdentityView;

    open spec fn view(&self) -> IdentityView {
        IdentityView {
            id: self.id@,
            name: self.name@,
            version: self.version@,
            summary: self.summary@,
            description: self.description@,
            author: self.author@,
            homepage: self.homepage@,
        }
    }
}

/// The default of an account option, as the host reads it.
pub enum OptionDefault {
    Bool(bool),
    Text(HostText),
}

impl View for OptionDefault {
    type V = DefaultView;

    open spec fn view(&self) -> DefaultView {
        match self {
            OptionDefault::Bool(b) => DefaultView::Bool(*b),
            OptionDefault::Text(t) => DefaultView::Text(t@),
        }
    }
}

/// An account option, as the host reads it.
pub struct AccountOption {
    pub text: HostText,
    pub key: HostText,
    pub default: OptionDefault,
    pub masked: bool,
}

impl View for AccountOption {
    type V = OptionView;

    open spec fn view(&self) -> OptionView {
        OptionView { text: self.text@, key: self.key@, default: self.default@, masked: self.masked }
    }
}

/// What a list of options says, one by one.
pub open spec fn option_views(list: Seq<AccountOption>) -> Seq<OptionView> {
    Seq::new(list.len(), |i: int| list[i]@)
}

/// The base part of a descriptor: the identity and the entry points that the
/// host keeps beside it.
pub struct BaseInfo {
    pub identity: Option<Identity>,
    pub actions: bool,
    pub load: bool,
}

/// The protocol part of a descriptor: one slot for each entry point of a
/// protocol, and the account options.
pub struct ProtocolInfo {
    pub login: bool,
    pub chat_info: bool,
    pub chat_info_defaults: bool,
    pub close: bool,
    pub status_types: bool,
    pub list_icon: bool,
    pub join_chat: bool,
    pub chat_leave: bool,
    pub convo_closed: bool,
    pub get_chat_name: bool,
    pub send_im: bool,
    pub chat_send: bool,
    pub get_cb_alias: bool,
    pub roomlist_get_list: bool,
    pub protocol_options: Vec<AccountOption>,
}

/// Whether the slot of `c` is set in the two parts of a descriptor.
pub open spec fn slot(info: BaseInfo, extra_info: ProtocolInfo, c: Capability) -> bool {
    match c {
        Capability::Load => info.load,
        Capability::Login => extra_info.login,
        Capability::ChatInfo => extra_info.chat_info,
        Capability::ChatInfoDefaults => extra_info.chat_info_defaults,
        Capability::Close => extra_info.close,
        Capability::StatusTypes => extra_info.status_types,
        Capability::ListIcon => extra_info.list_icon,
        Capability::JoinChat => extra_info.join_chat,
        Capability::ChatLeave => extra_info.chat_leave,
        Capability::ConvoClosed => extra_info.convo_closed,
        Capability::GetChatName => extra_info.get_chat_name,
        Capability::SendIm => extra_info.send_im,
        Capability::ChatSend => extra_info.chat_send,
        Capability::GetCbAlias => extra_info.get_cb_alias,
        Capability::RoomlistGetList => extra_info.roomlist_get_list,
    }
}

/// The identity that a base part holds, if any.
pub open spec fn identity_view(identity: Option<Identity>) -> Option<IdentityView> {
    match identity {
        Some(i) => Some(i@),
        None => None,
    }
}

/// The descriptor of a plugin: what the host is handed at registration.
pub struct PluginDescriptor {
    pub info: BaseInfo,
    pub extra_info: ProtocolInfo,
}

impl View for PluginDescriptor {
    type V = DescriptorView;

    open spec fn view(&self) -> DescriptorView {
        DescriptorView {
            identity: identity_view(self.info.identity),
            actions: self.info.actions,
            slots: Set::new(|c: Capability| slot(self.info, self.extra_info, c)),
            options: option_views(self.extra_info.protocol_options@),
        }
    }
}

impl PluginDescriptor {
    /// Whether the entry point `c` is set.
    pub fn populated(&self, c: Capability) -> (r: bool)
        ensures
            r == self@.slots.contains(c),
    {
        match c {
            Capability::Load => self.info.load,
            Capability::Login => self.extra_info.login,
            Capability::ChatInfo => self.extra_info.chat_info,
            Capability::ChatInfoDefaults => self.extra_info.chat_info_defaults,
            Capability::Close => self.extra_info.close,
            Capability::StatusTypes => self.extra_info.status_types,
            Capability::ListIcon => self.extra_info.list_icon,
            Capability::JoinChat => self.extra_info.join_chat,
            Capability::ChatLeave => self.extra_info.chat_leave,
            Capability::ConvoClosed => self.extra_info.convo_closed,
            Capability::GetChatName => self.extra_info.get_chat_name,
            Capability::SendIm => self.extra_info.send_im,
            Capability::ChatSend => self.extra_info.chat_send,
            Capability::GetCbAlias => self.extra_info.get_cb_alias,
            Capability::RoomlistGetList => self.extra_info.roomlist_get_list,
        }
    }
}

} // verus!
