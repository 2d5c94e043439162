//! The registration builder: a plugin declares its identity, its account
//! options and the entry points it serves, and gets the descriptor that the
//! host reads.
//!
//! The builder keeps the options the way the host's list grows, newest first,
//! and turns the list round once when the descriptor is made, so that the host
//! reads them in the order of declaration.

use vstd::prelude::*;
use core::marker::PhantomData;
use crate::handlers::{
    Capability, ChatInfoDefaultsHandler, ChatInfoHandler, ChatLeaveHandler, ChatSendHandler,
    CloseHandler, ConvoClosedHandler, GetChatBuddyAlias, GetChatNameHandler, JoinChatHandler,
    ListIconHandler, LoadHandler, LoginHandler, SendIMHandler, StatusTypeHandler,
};
use crate::descriptor::{
    identity_view, option_views, slot, AccountOption, BaseInfo, DefaultView, DescriptorView,
    Identity, IdentityView, OptionDefault, OptionView, PluginDescriptor, ProtocolInfo,
};
use crate::text::{first_nul, has_nul, ConfigError, HostText, TextField};

verus! {

/// The identity of a plugin, as its author writes it.
pub struct PrplInfo {
    pub id: String,
    pub name: String,
    pub version: String,
    pub summary: String,
    pub description: String,
    pub author: String,
    pub homepage: String,
}

/// The default of an account option, as its author writes it.
pub enum PrplOptionValue {
    Bool(bool),
    String(String),
}

/// An account option, as its author writes it.
pub struct PrplOption {
    pub text: String,
    pub key: String,
    pub def: PrplOptionValue,
    pub masked: bool,
}

/// What a builder has been told so far.
pub ghost struct ContextView {
    /// The identity, once it was given.
    pub identity: Option<IdentityView>,
    /// Whether the plugin-actions entry point is set.
    pub actions: bool,
    /// The entry points that were enabled.
    pub enabled: Set<Capability>,
    /// The options, newest first.
    pub pending: Seq<OptionView>,
}

impl ContextView {
    /// A builder that has been told nothing.
    pub open spec fn empty() -> ContextView {
        ContextView { identity: None, actions: false, enabled: Set::empty(), pending: Seq::empty() }
    }

    /// The builder after `c` was enabled.
    pub open spec fn enable(self, c: Capability) -> ContextView {
        ContextView { enabled: self.enabled.insert(c), ..self }
    }

    /// The builder after each of `caps` was enabled.
    pub open spec fn enable_all(self, caps: Seq<Capability>) -> ContextView
        decreases caps.len(),
    {
        if caps.len() == 0 {
            self
        } else {
            self.enable_all(caps.drop_last()).enable(caps.last())
        }
    }

    /// The builder after `identity` was given.
    pub open spec fn identify(self, identity: IdentityView) -> ContextView {
        ContextView { identity: Some(identity), actions: true, ..self }
    }

    /// The builder after `option` was declared: it goes to the head of the list.
    pub open spec fn declare(self, option: OptionView) -> ContextView {
        ContextView { pending: seq![option] + self.pending, ..self }
    }

    /// The builder after each of `options` was declared, the first of them first.
    pub open spec fn declare_all(self, options: Seq<OptionView>) -> ContextView
        decreases options.len(),
    {
        if options.len() == 0 {
            self
        } else {
            self.declare_all(options.drop_last()).declare(options.last())
        }
    }

    /// The descriptor that the builder stands for: the room-list entry point is
    /// set whatever was enabled, and the options stand in the order of declaration.
    pub open spec fn finalize(self) -> DescriptorView {
        DescriptorView {
            identity: self.identity,
            actions: self.actions,
            slots: self.enabled.insert(Capability::RoomlistGetList),
            options: self.pending.reverse(),
        }
    }
}

/// The error that `s` gives as the text of `field`: none, unless it holds a NUL.
pub open spec fn text_error(field: TextField, s: Seq<char>) -> Option<ConfigError> {
    match first_nul(s) {
        Some(i) => Some(ConfigError { field, position: i as usize }),
        None => None,
    }
}

/// The first of two errors.
pub open spec fn or_else(a: Option<ConfigError>, b: Option<ConfigError>) -> Option<ConfigError> {
    if a is Some {
        a
    } else {
        b
    }
}

/// The error that an identity gives: that of its first field with a NUL, in
/// the order id, name, version, summary, description, author, homepage.
pub open spec fn identity_error(v: IdentityView) -> Option<ConfigError> {
    or_else(
        text_error(TextField::Id, v.id),
        or_else(
            text_error(TextField::Name, v.name),
            or_else(
                text_error(TextField::Version, v.version),
                or_else(
                    text_error(TextField::Summary, v.summary),
                    or_else(
                        text_error(TextField::Description, v.description),
                        or_else(
                            text_error(TextField::Author, v.author),
                            text_error(TextField::Homepage, v.homepage),
                        ),
                    ),
                ),
            ),
        ),
    )
}

/// The error that an option gives: that of its label, else of its key, else of
/// its default where that is text.
pub open spec fn option_error(v: OptionView) -> Option<ConfigError> {
    or_else(
        text_error(TextField::OptionText, v.text),
        or_else(
            text_error(TextField::OptionKey, v.key),
            match v.default {
                DefaultView::Text(d) => text_error(TextField::OptionDefault, d),
                DefaultView::Bool(_) => None,
            },
        ),
    )
}

impl View for PrplInfo {
    type V = IdentityView;

    open spec fn view(&self) -> IdentityView {
        IdentityView {
            id: self.id@,
            name: self.name@,
            version: self.version@,
            summary: self.summary@,
            description: self.description@,
            author: self.author@,
            homepage: self.homepage@,
        }
    }
}

impl Default for PrplInfo {
    /// An identity with every field empty.
    fn default() -> (r: Self)
        ensures
            r.id@.len() == 0,
            r.name@.len() == 0,
            r.version@.len() == 0,
            r.summary@.len() == 0,
            r.description@.len() == 0,
            r.author@.len() == 0,
            r.homepage@.len() == 0,
    {
        PrplInfo {
            id: String::new(),
            name: String::new(),
            version: String::new(),
            summary: String::new(),
            description: String::new(),
            author: String::new(),
            homepage: String::new(),
        }
    }
}

impl View for PrplOptionValue {
    type V = DefaultView;

    open spec fn view(&self) -> DefaultView {
        match self {
            PrplOptionValue::Bool(b) => DefaultView::Bool(*b),
            PrplOptionValue::String(s) => DefaultView::Text(s@),
        }
    }
}

impl View for PrplOption {
    type V = OptionView;

    open spec fn view(&self) -> OptionView {
        OptionView { text: self.text@, key: self.key@, default: self.def@, masked: self.masked }
    }
}

/// Checks one piece of text and takes it over for the host.
fn host_text(field: TextField, s: String) -> (r: Result<HostText, ConfigError>)
    ensures
        match r {
            Ok(t) => text_error(field, s@) is None && t@ == s@,
            Err(e) => text_error(field, s@) == Some(e),
        },
{
    match HostText::new(s) {
        Ok(t) => Ok(t),
        Err(position) => Err(ConfigError { field, position }),
    }
}

/// Checks the text of one option and takes it over for the host.
fn host_option(option: PrplOption) -> (r: Result<AccountOption, ConfigError>)
    ensures
        match r {
            Ok(o) => option_error(option@) is None && o@ == option@,
            Err(e) => option_error(option@) == Some(e),
        },
{
    let text = host_text(TextField::OptionText, option.text)?;
    let key = host_text(TextField::OptionKey, option.key)?;
    match option.def {
        PrplOptionValue::String(def) => {
            let def = host_text(TextField::OptionDefault, def)?;
            Ok(AccountOption { text, key, default: OptionDefault::Text(def), masked: option.masked })
        },
        PrplOptionValue::Bool(def) => Ok(
            AccountOption { text, key, default: OptionDefault::Bool(def), masked: option.masked },
        ),
    }
}

/// An item put at the head of a list stands at the head of what the list says.
proof fn lemma_prepend_views(list: Seq<AccountOption>, item: AccountOption)
    ensures
        option_views(list.insert(0, item)) == seq![item@] + option_views(list),
{
    assert(option_views(list.insert(0, item)) =~= seq![item@] + option_views(list));
}

/// Turns a list round: the last item comes first.
fn reversed(list: Vec<AccountOption>) -> (r: Vec<AccountOption>)
    ensures
        r@ == list@.reverse(),
{
    let ghost given = list@;
    let mut rest = list;
    let mut out: Vec<AccountOption> = Vec::new();
    while rest.len() > 0
        invariant
            rest@.len() + out@.len() == given.len(),
            rest@ == given.subrange(0, rest@.len() as int),
            forall|i: int| 0 <= i < out@.len() ==> out@[i] == given[given.len() - 1 - i],
        decreases rest@.len(),
    {
        match rest.pop() {
            Some(item) => {
                out.push(item);
            },
            None => {},
        }
    }
    proof {
        assert(out@ =~= given.reverse());
    }
    out
}

/// Collects what a plugin of type `P` declares about itself.
pub struct RegisterContext<P> {
    info: BaseInfo,
    extra_info: ProtocolInfo,
    _phantom_marker: PhantomData<P>,
}

impl<P> View for RegisterContext<P> {
    type V = ContextView;

    closed spec fn view(&self) -> ContextView {
        ContextView {
            identity: identity_view(self.info.identity),
            actions: self.info.actions,
            enabled: Set::new(|c: Capability| slot(self.info, self.extra_info, c)),
            pending: option_views(self.extra_info.protocol_options@),
        }
    }
}

impl<P> RegisterContext<P> {
    /// A builder that has been told nothing yet.
    pub fn new() -> (r: Self)
        ensures
            r@ == ContextView::empty(),
    {
        let r = RegisterContext {
            info: BaseInfo { identity: None, actions: false, load: false },
            extra_info: ProtocolInfo {
                login: false,
                chat_info: false,
                chat_info_defaults: false,
                close: false,
                status_types: false,
                list_icon: false,
                join_chat: false,
                chat_leave: false,
                convo_closed: false,
                get_chat_name: false,
                send_im: false,
                chat_send: false,
                get_cb_alias: false,
                roomlist_get_list: false,
                protocol_options: Vec::new(),
            },
            _phantom_marker: PhantomData,
        };
        proof {
            assert(r@.enabled =~= Set::empty());
            assert(r@.pending =~= Seq::empty());
        }
        r
    }

    /// Makes the descriptor: sets the room-list entry point, which the host
    /// expects of every plugin, and turns the option list round so that the
    /// options stand in the order in which they were declared.
    pub fn into_raw(self) -> (d: PluginDescriptor)
        ensures
            d@ == self@.finalize(),
    {
        let mut extra_info = self.extra_info;
        extra_info.roomlist_get_list = true;
        let ghost pending = extra_info.protocol_options@;
        extra_info.protocol_options = reversed(extra_info.protocol_options);
        let d = PluginDescriptor { info: self.info, extra_info };
        proof {
            assert(d@.slots =~= self@.enabled.insert(Capability::RoomlistGetList));
            assert(d@.options =~= option_views(pending).reverse());
        }
        d
    }

    /// Sets the identity and the plugin-actions entry point. Fails, and leaves
    /// nothing behind, if a field holds a NUL character.
    pub fn with_info(self, info: PrplInfo) -> (r: Result<Self, ConfigError>)
        ensures
            match r {
                Ok(c) => identity_error(info@) is None && c@ == self@.identify(info@),
                Err(e) => identity_error(info@) == Some(e),
            },
    {
        let id = host_text(TextField::Id, info.id)?;
        let name = host_text(TextField::Name, info.name)?;
        let version = host_text(TextField::Version, info.version)?;
        let summary = host_text(TextField::Summary, info.summary)?;
        let description = host_text(TextField::Description, info.description)?;
        let author = host_text(TextField::Author, info.author)?;
        let homepage = host_text(TextField::Homepage, info.homepage)?;
        let mut ctx = self;
        ctx.info.identity = Some(
            Identity { id, name, version, summary, description, author, homepage },
        );
        ctx.info.actions = true;
        proof {
            assert(ctx@.enabled =~= self@.enabled);
        }
        Ok(ctx)
    }

    /// Puts a checked option at the head of the list.
    fn prepend(self, item: AccountOption) -> (r: Self)
        ensures
            r@ == self@.declare(item@),
    {
        let ghost before = self.extra_info.protocol_options@;
        let mut ctx = self;
        ctx.extra_info.protocol_options.insert(0, item);
        proof {
            assert(ctx@.enabled =~= self@.enabled);
            lemma_prepend_views(before, item);
        }
        ctx
    }

    /// Declares one option: it goes to the head of the list. Fails, and leaves
    /// nothing behind, if its label, its key or its default holds a NUL character.
    pub fn with_option(self, option: PrplOption) -> (r: Result<Self, ConfigError>)
        ensures
            match r {
                Ok(c) => option_error(option@) is None && c@ == self@.declare(option@),
                Err(e) => option_error(option@) == Some(e),
            },
    {
        let item = host_option(option)?;
        Ok(self.prepend(item))
    }

    /// Declares an option that holds text.
    pub fn with_string_option(self, name: String, key: String, def: String) -> (r: Result<
        Self,
        ConfigError,
    >)
        ensures
            match r {
                Ok(c) => option_error(string_option(name@, key@, def@, false)) is None && c@
                    == self@.declare(string_option(name@, key@, def@, false)),
                Err(e) => option_error(string_option(name@, key@, def@, false)) == Some(e),
            },
    {
        self.with_option(
            PrplOption { text: name, key: key, def: PrplOptionValue::String(def), masked: false },
        )
    }

    /// Declares an option that holds text which the host hides as it is typed.
    pub fn with_password_option(self, name: String, key: String, def: String) -> (r: Result<
        Self,
        ConfigError,
    >)
        ensures
            match r {
                Ok(c) => option_error(string_option(name@, key@, def@, true)) is None && c@
                    == self@.declare(string_option(name@, key@, def@, true)),
                Err(e) => option_error(string_option(name@, key@, def@, true)) == Some(e),
            },
    {
        self.with_option(
            PrplOption { text: name, key: key, def: PrplOptionValue::String(def), masked: true },
        )
    }

    /// Declares an option that is switched on or off.
    pub fn with_bool_option(self, name: String, key: String, def: bool) -> (r: Result<
        Self,
        ConfigError,
    >)
        ensures
            match r {
                Ok(c) => option_error(bool_option(name@, key@, def)) is None && c@
                    == self@.declare(bool_option(name@, key@, def)),
                Err(e) => option_error(bool_option(name@, key@, def)) == Some(e),
            },
    {
        self.with_option(
            PrplOption { text: name, key: key, def: PrplOptionValue::Bool(def), masked: false },
        )
    }
}

/// What an option that holds text says.
pub open spec fn string_option(
    name: Seq<char>,
    key: Seq<char>,
    def: Seq<char>,
    masked: bool,
) -> OptionView {
    OptionView { text: name, key, default: DefaultView::Text(def), masked }
}

/// What an option that is switched on or off says.
pub open spec fn bool_option(name: Seq<char>, key: Seq<char>, def: bool) -> OptionView {
    OptionView { text: name, key, default: DefaultView::Bool(def), masked: false }
}

impl<P> Default for RegisterContext<P> {
    /// A builder that has been told nothing yet.
    fn default() -> (r: Self)
        ensures
            r@ == ContextView::empty(),
    {
        Self::new()
    }
}

/// The host's way of writing a truth value: one for true, zero for false.
pub fn host_bool(value: bool) -> (r: i32)
    ensures
        r == if value { 1i32 } else { 0i32 },
{
    if value {
        1
    } else {
        0
    }
}

/// A protocol plugin: how its one instance is made, and what it declares
/// about itself when the host loads it.
pub trait PrplPlugin: Sized {
    /// The type whose capabilities decide which entry points can be enabled.
    type Plugin;

    /// Makes the instance. The loader calls it once.
    fn new() -> Self;

    /// Tells the builder the identity, the options and the entry points.
    fn register(&self, context: RegisterContext<Self::Plugin>) -> Result<
        RegisterContext<Self::Plugin>,
        ConfigError,
    >;
}

/// A plugin that is ready for the host: its one instance, and its descriptor.
pub struct LoadedPlugin<P> {
    pub plugin: P,
    pub descriptor: PluginDescriptor,
}

/// Loads a plugin of type `P`.
pub struct PrplPluginLoader<P: PrplPlugin> {
    _phantom_marker: PhantomData<P>,
}

impl<P: PrplPlugin> PrplPluginLoader<P> {
    /// A loader for plugins of type `P`.
    pub fn new() -> Self {
        PrplPluginLoader { _phantom_marker: PhantomData }
    }

    /// What loading comes to, once the plugin has answered the builder: its
    /// descriptor, made from exactly what it declared, or its error.
    pub fn finish(
        plugin: P,
        registered: Result<RegisterContext<P::Plugin>, ConfigError>,
    ) -> (r: Result<LoadedPlugin<P>, ConfigError>)
        ensures
            match registered {
                Ok(c) => r is Ok && r->Ok_0.plugin == plugin && r->Ok_0.descriptor@
                    == c@.finalize(),
                Err(e) => r is Err && r->Err_0 == e,
            },
    {
        match registered {
            Ok(context) => Ok(LoadedPlugin { plugin, descriptor: context.into_raw() }),
            Err(e) => Err(e),
        }
    }

    /// Makes the plugin's instance, once, lets it declare itself to a fresh
    /// builder, and makes the descriptor. Whatever the plugin declares, the
    /// descriptor has the room-list entry point set.
    pub fn init(&self) -> (r: Result<LoadedPlugin<P>, ConfigError>)
        ensures
            r is Ok ==> r->Ok_0.descriptor@.slots.contains(Capability::RoomlistGetList),
    {
        let plugin = P::new();
        let context: RegisterContext<P::Plugin> = RegisterContext::new();
        let registered = plugin.register(context);
        Self::finish(plugin, registered)
    }
}

impl<T: LoadHandler> RegisterContext<T> {
    /// Sets the load entry point; everything else stays as it is.
    pub fn enable_load(self) -> (r: Self)
        ensures
            r@ == self@.enable(Capability::Load),
    {
        let mut ctx = self;
        ctx.info.load = true;
        proof {
            assert(ctx@.enabled =~= self@.enabled.insert(Capability::Load));
        }
        ctx
    }
}

impl<T: LoginHandler> RegisterContext<T> {
    /// Sets the login entry point; everything else stays as it is.
    pub fn enable_login(self) -> (r: Self)
        ensures
            r@ == self@.enable(Capability::Login),
    {
        let mut ctx = self;
        ctx.extra_info.login = true;
        proof {
            assert(ctx@.enabled =~= self@.enabled.insert(Capability::Login));
        }
        ctx
    }
}

impl<T: ChatInfoHandler> RegisterContext<T> {
    /// Sets the chat-info entry point; everything else stays as it is.
    pub fn enable_chat_info(self) -> (r: Self)
        ensures
            r@ == self@.enable(Capability::ChatInfo),
    {
        let mut ctx = self;
        ctx.extra_info.chat_info = true;
        proof {
            assert(ctx@.enabled =~= self@.enabled.insert(Capability::ChatInfo));
        }
        ctx
    }
}

impl<T: ChatInfoDefaultsHandler> RegisterContext<T> {
    /// Sets the chat-info-defaults entry point; everything else stays as it is.
    pub fn enable_chat_info_defaults(self) -> (r: Self)
        ensures
            r@ == self@.enable(Capability::ChatInfoDefaults),
    {
        let mut ctx = self;
        ctx.extra_info.chat_info_defaults = true;
        proof {
            assert(ctx@.enabled =~= self@.enabled.insert(Capability::ChatInfoDefaults));
        }
        ctx
    }
}

impl<T: CloseHandler> RegisterContext<T> {
    /// Sets the close entry point; everything else stays as it is.
    pub fn enable_close(self) -> (r: Self)
        ensures
            r@ == self@.enable(Capability::Close),
    {
        let mut ctx = self;
        ctx.extra_info.close = true;
        proof {
            assert(ctx@.enabled =~= self@.enabled.insert(Capability::Close));
        }
        ctx
    }
}

impl<T: StatusTypeHandler> RegisterContext<T> {
    /// Sets the status-types entry point; everything else stays as it is.
    pub fn enable_status_types(self) -> (r: Self)
        ensures
            r@ == self@.enable(Capability::StatusTypes),
    {
        let mut ctx = self;
        ctx.extra_info.status_types = true;
        proof {
            assert(ctx@.enabled =~= self@.enabled.insert(Capability::StatusTypes));
        }
        ctx
    }
}

impl<T: ListIconHandler> RegisterContext<T> {
    /// Sets the list-icon entry point; everything else stays as it is.
    pub fn enable_list_icon(self) -> (r: Self)
        ensures
            r@ == self@.enable(Capability::ListIcon),
    {
        let mut ctx = self;
        ctx.extra_info.list_icon = true;
        proof {
            assert(ctx@.enabled =~= self@.enabled.insert(Capability::ListIcon));
        }
        ctx
    }
}

impl<T: JoinChatHandler> RegisterContext<T> {
    /// Sets the join-chat entry point; everything else stays as it is.
    pub fn enable_join_chat(self) -> (r: Self)
        ensures
            r@ == self@.enable(Capability::JoinChat),
    {
        let mut ctx = self;
        ctx.extra_info.join_chat = true;
        proof {
            assert(ctx@.enabled =~= self@.enabled.insert(Capability::JoinChat));
        }
        ctx
    }
}

impl<T: ChatLeaveHandler> RegisterContext<T> {
    /// Sets the chat-leave entry point; everything else stays as it is.
    pub fn enable_chat_leave(self) -> (r: Self)
        ensures
            r@ == self@.enable(Capability::ChatLeave),
    {
        let mut ctx = self;
        ctx.extra_info.chat_leave = true;
        proof {
            assert(ctx@.enabled =~= self@.enabled.insert(Capability::ChatLeave));
        }
        ctx
    }
}

impl<T: ConvoClosedHandler> RegisterContext<T> {
    /// Sets the conversation-closed entry point; everything else stays as it is.
    pub fn enable_convo_closed(self) -> (r: Self)
        ensures
            r@ == self@.enable(Capability::ConvoClosed),
    {
        let mut ctx = self;
        ctx.extra_info.convo_closed = true;
        proof {
            assert(ctx@.enabled =~= self@.enabled.insert(Capability::ConvoClosed));
        }
        ctx
    }
}

impl<T: GetChatNameHandler> RegisterContext<T> {
    /// Sets the chat-name entry point; everything else stays as it is.
    pub fn enable_get_chat_name(self) -> (r: Self)
        ensures
            r@ == self@.enable(Capability::GetChatName),
    {
        let mut ctx = self;
        ctx.extra_info.get_chat_name = true;
        proof {
            assert(ctx@.enabled =~= self@.enabled.insert(Capability::GetChatName));
        }
        ctx
    }
}

impl<T: SendIMHandler> RegisterContext<T> {
    /// Sets the send-message entry point; everything else stays as it is.
    pub fn enable_send_im(self) -> (r: Self)
        ensures
            r@ == self@.enable(Capability::SendIm),
    {
        let mut ctx = self;
        ctx.extra_info.send_im = true;
        proof {
            assert(ctx@.enabled =~= self@.enabled.insert(Capability::SendIm));
        }
        ctx
    }
}

impl<T: ChatSendHandler> RegisterContext<T> {
    /// Sets the chat-send entry point; everything else stays as it is.
    pub fn enable_chat_send(self) -> (r: Self)
        ensures
            r@ == self@.enable(Capability::ChatSend),
    {
        let mut ctx = self;
        ctx.extra_info.chat_send = true;
        proof {
            assert(ctx@.enabled =~= self@.enabled.insert(Capability::ChatSend));
        }
        ctx
    }
}

impl<T: GetChatBuddyAlias> RegisterContext<T> {
    /// Sets the participant-alias entry point; everything else stays as it is.
    pub fn enable_get_cb_alias(self) -> (r: Self)
        ensures
            r@ == self@.enable(Capability::GetCbAlias),
    {
        let mut ctx = self;
        ctx.extra_info.get_cb_alias = true;
        proof {
            assert(ctx@.enabled =~= self@.enabled.insert(Capability::GetCbAlias));
        }
        ctx
    }
}

/// Enabling entry points adds exactly those to the enabled ones, and leaves
/// the identity and the options alone.
pub proof fn lemma_enable_all(c: ContextView, caps: Seq<Capability>)
    ensures
        c.enable_all(caps).enabled == c.enabled.union(caps.to_set()),
        c.enable_all(caps).identity == c.identity,
        c.enable_all(caps).actions == c.actions,
        c.enable_all(caps).pending == c.pending,
    decreases caps.len(),
{
    if caps.len() == 0 {
        assert(caps.to_set() =~= Set::empty());
        assert(c.enabled.union(caps.to_set()) =~= c.enabled);
    } else {
        lemma_enable_all(c, caps.drop_last());
        assert forall|x: Capability| caps.to_set().contains(x) <==> (caps.drop_last().to_set().contains(x)
            || x == caps.last()) by {
            if caps.to_set().contains(x) {
                let i = choose|i: int| 0 <= i < caps.len() && caps[i] == x;
                if i < caps.len() - 1 {
                    assert(caps.drop_last()[i] == x);
                }
            }
            if caps.drop_last().to_set().contains(x) {
                let i = choose|i: int| 0 <= i < caps.drop_last().len() && caps.drop_last()[i] == x;
                assert(caps[i] == x);
            }
            if x == caps.last() {
                assert(caps[caps.len() - 1] == x);
            }
        }
        assert(c.enable_all(caps).enabled =~= c.enabled.union(caps.to_set()));
    }
}

/// An entry point is set in the descriptor if and only if it was enabled or
/// is the room-list one, which is set whatever the plugin declares.
pub proof fn lemma_slot_iff_enabled(c: ContextView, x: Capability)
    ensures
        c.finalize().slots.contains(x) <==> (c.enabled.contains(x) || x
            == Capability::RoomlistGetList),
{
}

/// A builder that starts empty and enables `caps`, in any order and with
/// repeats, gives a descriptor in which an entry point is set if and only if
/// it is among `caps` or is the room-list one.
pub proof fn lemma_descriptor_slots(caps: Seq<Capability>, x: Capability)
    ensures
        ContextView::empty().enable_all(caps).finalize().slots.contains(x) <==> (caps.contains(x)
            || x == Capability::RoomlistGetList),
{
    lemma_enable_all(ContextView::empty(), caps);
}

/// Declaring options puts them at the head of the list, the last declared
/// first, and leaves the identity and the entry points alone.
pub proof fn lemma_declare_all(c: ContextView, options: Seq<OptionView>)
    ensures
        c.declare_all(options).pending == options.reverse() + c.pending,
        c.declare_all(options).identity == c.identity,
        c.declare_all(options).actions == c.actions,
        c.declare_all(options).enabled == c.enabled,
    decreases options.len(),
{
    if options.len() == 0 {
        assert(options.reverse() + c.pending =~= c.pending);
    } else {
        lemma_declare_all(c, options.drop_last());
        assert(seq![options.last()] + (options.drop_last().reverse() + c.pending)
            =~= options.reverse() + c.pending);
    }
}

/// The host reads the options in the order of declaration: whatever the
/// builder held before, the descriptor lists what it listed, and then the
/// newly declared options, the first declared first.
pub proof fn lemma_declaration_order(c: ContextView, options: Seq<OptionView>)
    ensures
        c.declare_all(options).finalize().options == c.finalize().options + options,
        ContextView::empty().declare_all(options).finalize().options == options,
{
    lemma_declare_all(c, options);
    assert((options.reverse() + c.pending).reverse() =~= c.pending.reverse() + options);
    lemma_declare_all(ContextView::empty(), options);
    assert((options.reverse() + Seq::<OptionView>::empty()).reverse() =~= options);
}

/// An identity is refused if and only if one of its fields holds a NUL character.
pub proof fn lemma_identity_error(v: IdentityView)
    ensures
        identity_error(v) is Some <==> (has_nul(v.id) || has_nul(v.name) || has_nul(v.version)
            || has_nul(v.summary) || has_nul(v.description) || has_nul(v.author) || has_nul(
            v.homepage,
        )),
{
}

/// An option is refused if and only if its label, its key or its text default
/// holds a NUL character.
pub proof fn lemma_option_error(v: OptionView)
    ensures
        option_error(v) is Some <==> (has_nul(v.text) || has_nul(v.key) || match v.default {
            DefaultView::Text(d) => has_nul(d),
            DefaultView::Bool(_) => false,
        }),
{
}

} // verus!
