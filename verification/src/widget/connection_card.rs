//! VPN connection card: status, server, statistics and the connect button.
use vstd::prelude::*;

use super::{BaseView, EventContext, Widget, WidgetBase, WidgetId, WidgetIds, succ_id};
use crate::css::{added, ClassList, WidgetState};
use crate::event::{is_left, left_button, EventResult, MouseButton, MouseEventKind};
use crate::text::{opt_view, owned, pad2, push_char, push_pad2};

verus! {

/// The state of a VPN connection.
#[derive(Debug, Clone, Copy, PartialEq, Eq, Structural)]
pub enum VpnConnectionStatus {
    Disconnected,
    Connecting,
    Authenticating,
    Connected,
    Disconnecting,
    Error,
}

impl Default for VpnConnectionStatus {
    fn default() -> (r: Self)
        ensures
            r == VpnConnectionStatus::Disconnected,
    {
        VpnConnectionStatus::Disconnected
    }
}

/// Traffic statistics of a connection.
#[derive(Debug)]
pub struct ConnectionStats {
    pub bytes_rx: u64,
    pub bytes_tx: u64,
    pub duration_secs: u64,
    pub speed_rx: u64,
    pub speed_tx: u64,
    pub vpn_ip: Option<String>,
    pub real_ip: Option<String>,
    pub server_location: Option<String>,
}

/// A byte-size unit (binary multiples).
#[derive(Debug, Clone, Copy, PartialEq, Eq, Structural)]
pub enum SizeUnit {
    B,
    KB,
    MB,
    GB,
}

/// A bit-rate unit (decimal multiples).
#[derive(Debug, Clone, Copy, PartialEq, Eq, Structural)]
pub enum RateUnit {
    Bps,
    Kbps,
    Mbps,
    Gbps,
}

/// The unit a byte count is shown in: the largest of GB, MB, KB (powers of
/// 1024) not exceeding it, else bytes.
pub open spec fn size_unit_of(bytes: nat) -> SizeUnit {
    if bytes >= 1024 * 1024 * 1024 { SizeUnit::GB }
    else if bytes >= 1024 * 1024 { SizeUnit::MB }
    else if bytes >= 1024 { SizeUnit::KB }
    else { SizeUnit::B }
}

/// The unit a bit rate is shown in: the largest of Gbps, Mbps, Kbps
/// (powers of 1000) not exceeding it, else bps.
pub open spec fn rate_unit_of(bits: nat) -> RateUnit {
    if bits >= 1000 * 1000 * 1000 { RateUnit::Gbps }
    else if bits >= 1000 * 1000 { RateUnit::Mbps }
    else if bits >= 1000 { RateUnit::Kbps }
    else { RateUnit::Bps }
}

/// A duration as `HH:MM:SS`, or `MM:SS` under an hour.
pub open spec fn duration_text(secs: nat) -> Seq<char> {
    let hours = secs / 3600;
    let minutes = (secs % 3600) / 60;
    let seconds = secs % 60;
    if hours > 0 {
        pad2(hours) + seq![':'] + pad2(minutes) + seq![':'] + pad2(seconds)
    } else {
        pad2(minutes) + seq![':'] + pad2(seconds)
    }
}

impl Default for ConnectionStats {
    /// Statistics with every count zero and no addresses.
    fn default() -> (r: Self)
        ensures
            r.bytes_rx == 0 && r.bytes_tx == 0 && r.duration_secs == 0,
            r.speed_rx == 0 && r.speed_tx == 0,
            r.vpn_ip is None && r.real_ip is None && r.server_location is None,
    {
        ConnectionStats {
            bytes_rx: 0,
            bytes_tx: 0,
            duration_secs: 0,
            speed_rx: 0,
            speed_tx: 0,
            vpn_ip: None,
            real_ip: None,
            server_location: None,
        }
    }
}

impl ConnectionStats {
    /// The unit a byte count is shown in (see `size_unit_of`).
    pub fn size_unit(bytes: u64) -> (r: SizeUnit)
        ensures
            r == size_unit_of(bytes as nat),
    {
        if bytes >= 1024 * 1024 * 1024 {
            SizeUnit::GB
        } else if bytes >= 1024 * 1024 {
            SizeUnit::MB
        } else if bytes >= 1024 {
            SizeUnit::KB
        } else {
            SizeUnit::B
        }
    }

    /// The bit rate of a byte rate, and the unit it is shown in (see
    /// `rate_unit_of`).
    pub fn rate_unit(bytes_per_sec: u64) -> (r: (u64, RateUnit))
        requires
            bytes_per_sec * 8 <= u64::MAX,
        ensures
            r.0 == bytes_per_sec * 8,
            r.1 == rate_unit_of(r.0 as nat),
    {
        let bits = bytes_per_sec * 8;
        let unit = if bits >= 1000 * 1000 * 1000 {
            RateUnit::Gbps
        } else if bits >= 1000 * 1000 {
            RateUnit::Mbps
        } else if bits >= 1000 {
            RateUnit::Kbps
        } else {
            RateUnit::Bps
        };
        (bits, unit)
    }

    /// A duration as `HH:MM:SS`, or `MM:SS` under an hour.
    pub fn format_duration(secs: u64) -> (r: String)
        ensures
            r@ == duration_text(secs as nat),
    {
        let hours = secs / 3600;
        let minutes = (secs % 3600) / 60;
        let seconds = secs % 60;
        let mut t = String::new();
        if hours > 0 {
            push_pad2(&mut t, hours);
            push_char(&mut t, ':');
        }
        push_pad2(&mut t, minutes);
        push_char(&mut t, ':');
        push_pad2(&mut t, seconds);
        t
    }
}

/// How a user signs in to a VPN server.
#[derive(Debug, Clone, Copy, PartialEq, Eq, Structural)]
pub enum AuthMethod {
    UsernamePassword,
    Certificate,
    OAuth2,
    Saml,
}

impl Default for AuthMethod {
    fn default() -> (r: Self)
        ensures
            r == AuthMethod::UsernamePassword,
    {
        AuthMethod::UsernamePassword
    }
}

/// The label of an authentication method.
pub open spec fn auth_label(a: AuthMethod) -> Seq<char> {
    match a {
        AuthMethod::UsernamePassword => "Username/Password"@,
        AuthMethod::Certificate => "Certificate"@,
        AuthMethod::OAuth2 => "OAuth2 SSO"@,
        AuthMethod::Saml => "SAML SSO"@,
    }
}

impl AuthMethod {
    /// The display label.
    pub fn label(&self) -> (r: &'static str)
        ensures
            r@ == auth_label(*self),
    {
        match self {
            AuthMethod::UsernamePassword => "Username/Password",
            AuthMethod::Certificate => "Certificate",
            AuthMethod::OAuth2 => "OAuth2 SSO",
            AuthMethod::Saml => "SAML SSO",
        }
    }

    /// Whether the method asks for a password.
    pub fn requires_password(&self) -> (r: bool)
        ensures
            r == (*self == AuthMethod::UsernamePassword),
    {
        match self {
            AuthMethod::UsernamePassword => true,
            _ => false,
        }
    }

    /// Whether the method is single sign-on.
    pub fn is_sso(&self) -> (r: bool)
        ensures
            r == (*self == AuthMethod::OAuth2 || *self == AuthMethod::Saml),
    {
        match self {
            AuthMethod::OAuth2 | AuthMethod::Saml => true,
            _ => false,
        }
    }
}

/// What a click on the connect button asks of the application.
#[derive(Debug, Clone, Copy, PartialEq, Eq, Structural)]
pub enum ConnectCommand {
    Nothing,
    Connect,
    Disconnect,
}

/// Abstract contents of a `ConnectionCard`.
pub struct ConnectionCardView {
    pub base: BaseView,
    pub status: VpnConnectionStatus,
    pub server_name: Option<Seq<char>>,
    pub server_host: Option<Seq<char>>,
    pub auth_method: AuthMethod,
    pub stats: ConnectionStats,
    pub show_stats: bool,
    pub compact: bool,
    pub connect_button_hovered: bool,
}

/// VPN connection card widget.
pub struct ConnectionCard {
    base: WidgetBase,
    status: VpnConnectionStatus,
    server_name: Option<String>,
    server_host: Option<String>,
    auth_method: AuthMethod,
    stats: ConnectionStats,
    show_stats: bool,
    compact: bool,
    connect_button_hovered: bool,
}

impl View for ConnectionCard {
    type V = ConnectionCardView;

    closed spec fn view(&self) -> ConnectionCardView {
        ConnectionCardView {
            base: self.base@,
            status: self.status,
            server_name: opt_view(&self.server_name),
            server_host: opt_view(&self.server_host),
            auth_method: self.auth_method,
            stats: self.stats,
            show_stats: self.show_stats,
            compact: self.compact,
            connect_button_hovered: self.connect_button_hovered,
        }
    }
}

/// A connection attempt or tear-down is in progress.
pub open spec fn in_transition(s: VpnConnectionStatus) -> bool {
    s == VpnConnectionStatus::Connecting || s == VpnConnectionStatus::Authenticating
        || s == VpnConnectionStatus::Disconnecting
}

/// What clicking the connect button does in a status: disconnect when
/// connected, nothing while in transition, else connect.
pub open spec fn connect_command(s: VpnConnectionStatus) -> ConnectCommand {
    if s == VpnConnectionStatus::Connected {
        ConnectCommand::Disconnect
    } else if in_transition(s) {
        ConnectCommand::Nothing
    } else {
        ConnectCommand::Connect
    }
}

impl ConnectionCard {
    /// A disconnected card with statistics shown.
    pub fn new(ids: &mut WidgetIds) -> (r: Self)
        ensures
            r@.base.id == old(ids)@,
            final(ids)@ == succ_id(old(ids)@),
            r@.base.classes == seq!["connection-card"@],
            r@.base.element_id is None,
            r@.status == VpnConnectionStatus::Disconnected,
            r@.server_name is None,
            r@.server_host is None,
            r@.auth_method == AuthMethod::UsernamePassword,
            r@.stats.bytes_rx == 0 && r@.stats.bytes_tx == 0 && r@.stats.duration_secs == 0,
            r@.stats.speed_rx == 0 && r@.stats.speed_tx == 0,
            r@.stats.vpn_ip is None && r@.stats.real_ip is None && r@.stats.server_location is None,
            r@.show_stats,
            !r@.compact,
            !r@.connect_button_hovered,
    {
        ConnectionCard {
            base: WidgetBase::new(ids).with_class("connection-card"),
            status: VpnConnectionStatus::Disconnected,
            server_name: None,
            server_host: None,
            auth_method: AuthMethod::UsernamePassword,
            stats: ConnectionStats::default(),
            show_stats: true,
            compact: false,
            connect_button_hovered: false,
        }
    }

    /// Set the connection status.
    pub fn status(self, status: VpnConnectionStatus) -> (r: Self)
        ensures
            r@ == (ConnectionCardView { status, ..self@ }),
    {
        ConnectionCard { status, ..self }
    }

    /// Set the server name.
    pub fn server_name(self, name: &str) -> (r: Self)
        ensures
            r@ == (ConnectionCardView { server_name: Some(name@), ..self@ }),
    {
        ConnectionCard { server_name: Some(owned(name)), ..self }
    }

    /// Set the server host.
    pub fn server_host(self, host: &str) -> (r: Self)
        ensures
            r@ == (ConnectionCardView { server_host: Some(host@), ..self@ }),
    {
        ConnectionCard { server_host: Some(owned(host)), ..self }
    }

    /// Set the authentication method.
    pub fn auth_method(self, method: AuthMethod) -> (r: Self)
        ensures
            r@ == (ConnectionCardView { auth_method: method, ..self@ }),
    {
        ConnectionCard { auth_method: method, ..self }
    }

    /// Set the statistics.
    pub fn stats(self, stats: ConnectionStats) -> (r: Self)
        ensures
            r@ == (ConnectionCardView { stats, ..self@ }),
    {
        ConnectionCard { stats, ..self }
    }

    /// Set whether statistics show.
    pub fn show_stats(self, show: bool) -> (r: Self)
        ensures
            r@ == (ConnectionCardView { show_stats: show, ..self@ }),
    {
        ConnectionCard { show_stats: show, ..self }
    }

    /// Set the compact layout.
    pub fn compact(self, compact: bool) -> (r: Self)
        ensures
            r@ == (ConnectionCardView { compact, ..self@ }),
    {
        ConnectionCard { compact, ..self }
    }

    /// Add a CSS class.
    pub fn class(self, class: &str) -> (r: Self)
        ensures
            r@ == (ConnectionCardView { base: BaseView { classes: added(self@.base.classes, class@), ..self@.base }, ..self@ }),
    {
        let mut c = self;
        c.base.classes.add(class);
        c
    }

    /// The connection status.
    pub fn get_status(&self) -> (r: VpnConnectionStatus)
        ensures
            r == self@.status,
    {
        self.status
    }

    /// Set the connection status.
    pub fn set_status(&mut self, status: VpnConnectionStatus)
        ensures
            final(self)@ == (ConnectionCardView { status, ..old(self)@ }),
    {
        self.status = status;
    }

    /// Replace the statistics.
    pub fn update_stats(&mut self, stats: ConnectionStats)
        ensures
            final(self)@ == (ConnectionCardView { stats, ..old(self)@ }),
    {
        self.stats = stats;
    }

    /// Whether the connection is up.
    pub fn is_connected(&self) -> (r: bool)
        ensures
            r == (self@.status == VpnConnectionStatus::Connected),
    {
        self.status == VpnConnectionStatus::Connected
    }

    /// Whether a connection attempt or tear-down is in progress.
    pub fn is_connecting(&self) -> (r: bool)
        ensures
            r == in_transition(self@.status),
    {
        match self.status {
            VpnConnectionStatus::Connecting | VpnConnectionStatus::Authenticating | VpnConnectionStatus::Disconnecting => true,
            _ => false,
        }
    }

    /// Handles a pointer event; `in_button` tells whether the pointer lies
    /// on the connect button. Moving tracks the button's hover; a left
    /// release on it connects or disconnects (see `connect_command`).
    pub fn handle_pointer(&mut self, kind: MouseEventKind, button: Option<MouseButton>, in_button: bool, ctx: &mut EventContext)
        -> (r: (EventResult, ConnectCommand))
        ensures
            final(ctx).focus == old(ctx).focus,
            match kind {
                MouseEventKind::Move | MouseEventKind::Enter => {
                    &&& final(self)@ == (ConnectionCardView { connect_button_hovered: in_button, ..old(self)@ })
                    &&& final(ctx).should_redraw == (old(ctx).should_redraw || old(self)@.connect_button_hovered != in_button)
                    &&& r == (EventResult::Ignored, ConnectCommand::Nothing)
                },
                MouseEventKind::Leave => {
                    &&& final(self)@ == (ConnectionCardView { connect_button_hovered: false, ..old(self)@ })
                    &&& final(ctx).should_redraw == (old(ctx).should_redraw || old(self)@.connect_button_hovered)
                    &&& r == (EventResult::Ignored, ConnectCommand::Nothing)
                },
                MouseEventKind::Up => if is_left(button) && in_button {
                    &&& final(self)@ == old(self)@
                    &&& final(ctx).should_redraw
                    &&& r == (EventResult::Handled, connect_command(old(self)@.status))
                } else {
                    &&& final(self)@ == old(self)@
                    &&& final(ctx).should_redraw == old(ctx).should_redraw
                    &&& r == (EventResult::Ignored, ConnectCommand::Nothing)
                },
                _ => {
                    &&& final(self)@ == old(self)@
                    &&& final(ctx).should_redraw == old(ctx).should_redraw
                    &&& r == (EventResult::Ignored, ConnectCommand::Nothing)
                },
            },
    {
        match kind {
            MouseEventKind::Move | MouseEventKind::Enter => {
                if self.connect_button_hovered != in_button {
                    self.connect_button_hovered = in_button;
                    ctx.request_redraw();
                }
                (EventResult::Ignored, ConnectCommand::Nothing)
            },
            MouseEventKind::Leave => {
                if self.connect_button_hovered {
                    self.connect_button_hovered = false;
                    ctx.request_redraw();
                }
                (EventResult::Ignored, ConnectCommand::Nothing)
            },
            MouseEventKind::Up => {
                if left_button(button) && in_button {
                    let cmd = if self.is_connected() {
                        ConnectCommand::Disconnect
                    } else if !self.is_connecting() {
                        ConnectCommand::Connect
                    } else {
                        ConnectCommand::Nothing
                    };
                    ctx.request_redraw();
                    (EventResult::Handled, cmd)
                } else {
                    (EventResult::Ignored, ConnectCommand::Nothing)
                }
            },
            _ => (EventResult::Ignored, ConnectCommand::Nothing),
        }
    }
}

impl Widget for ConnectionCard {
    fn id(&self) -> (r: WidgetId)
        ensures
            r == self@.base.id,
    {
        self.base.id
    }

    fn widget_type_name(&self) -> (r: &'static str)
        ensures
            r@ == "connection-card"@,
    {
        "connection-card"
    }

    fn element_id(&self) -> (r: Option<&str>)
        ensures
            match r {
                Some(s) => self@.base.element_id == Some(s@),
                None => self@.base.element_id is None,
            },
    {
        self.base.element_id_str()
    }

    fn classes(&self) -> (r: &ClassList)
        ensures
            r@ == self@.base.classes,
    {
        &self.base.classes
    }

    fn state(&self) -> (r: WidgetState)
        ensures
            r == self@.base.state,
    {
        self.base.state
    }
}

} // verus!
