//! Network indicator widget: the connection status and the networks
//! around.
use vstd::prelude::*;

use super::{BaseView, Widget, WidgetBase, WidgetId, WidgetIds, succ_id};
use crate::css::{added, cleared_state, ClassList, WidgetState};
use crate::text::owned;

verus! {

/// The kind of network connection.
#[derive(Debug, Clone, Copy, PartialEq, Eq, Structural)]
pub enum NetworkType {
    Wifi,
    Ethernet,
    Cellular,
    Vpn,
    Disconnected,
}

impl Default for NetworkType {
    fn default() -> (r: Self)
        ensures
            r == NetworkType::Disconnected,
    {
        NetworkType::Disconnected
    }
}

/// A wireless network in range.
#[derive(Debug, Clone)]
pub struct WifiNetwork {
    pub ssid: String,
    pub signal_strength: u8,
    pub is_secured: bool,
    pub is_connected: bool,
    pub frequency: Option<String>,
}

/// The connection status.
#[derive(Debug, Clone)]
pub struct NetworkStatus {
    pub connection_type: NetworkType,
    pub is_connected: bool,
    pub name: Option<String>,
    pub ip_address: Option<String>,
    pub signal_strength: Option<u8>,
    pub upload_speed: Option<u64>,
    pub download_speed: Option<u64>,
}

impl Default for NetworkStatus {
    /// Disconnected, with nothing known.
    fn default() -> (r: Self)
        ensures
            r.connection_type == NetworkType::Disconnected,
            !r.is_connected,
            r.name is None,
            r.ip_address is None,
            r.signal_strength is None,
            r.upload_speed is None,
            r.download_speed is None,
    {
        NetworkStatus {
            connection_type: NetworkType::Disconnected,
            is_connected: false,
            name: None,
            ip_address: None,
            signal_strength: None,
            upload_speed: None,
            download_speed: None,
        }
    }
}

/// The icon of a connection kind.
pub open spec fn network_icon(t: NetworkType) -> Seq<char> {
    match t {
        NetworkType::Wifi => "📶"@,
        NetworkType::Ethernet => "🔌"@,
        NetworkType::Cellular => "📱"@,
        NetworkType::Vpn => "🔒"@,
        NetworkType::Disconnected => "❌"@,
    }
}

/// Abstract contents of a `NetworkIndicator`.
pub struct NetworkIndicatorView {
    pub base: BaseView,
    pub status: NetworkStatus,
    pub available_networks: Seq<WifiNetwork>,
    pub is_open: bool,
    pub show_networks: bool,
}

/// A status icon that opens a network popup.
#[derive(Debug)]
pub struct NetworkIndicator {
    base: WidgetBase,
    status: NetworkStatus,
    available_networks: Vec<WifiNetwork>,
    is_open: bool,
    show_networks: bool,
}

impl View for NetworkIndicator {
    type V = NetworkIndicatorView;

    closed spec fn view(&self) -> NetworkIndicatorView {
        NetworkIndicatorView {
            base: self.base@,
            status: self.status,
            available_networks: self.available_networks@,
            is_open: self.is_open,
            show_networks: self.show_networks,
        }
    }
}

impl NetworkIndicator {
    /// A closed indicator, disconnected, listing networks when opened.
    pub fn new(ids: &mut WidgetIds) -> (r: Self)
        ensures
            r@.base.id == old(ids)@,
            final(ids)@ == succ_id(old(ids)@),
            r@.base.classes == seq!["network-indicator"@],
            r@.base.element_id is None,
            r@.base.state == cleared_state(),
            r@.status.connection_type == NetworkType::Disconnected,
            !r@.status.is_connected,
            r@.available_networks.len() == 0,
            !r@.is_open,
            r@.show_networks,
    {
        NetworkIndicator {
            base: WidgetBase::new(ids).with_class("network-indicator"),
            status: NetworkStatus::default(),
            available_networks: Vec::new(),
            is_open: false,
            show_networks: true,
        }
    }

    /// Set the status.
    pub fn status(self, status: NetworkStatus) -> (r: Self)
        ensures
            r@ == (NetworkIndicatorView { status, ..self@ }),
    {
        NetworkIndicator { status, ..self }
    }

    /// Set the networks in range.
    pub fn networks(self, networks: Vec<WifiNetwork>) -> (r: Self)
        ensures
            r@ == (NetworkIndicatorView { available_networks: networks@, ..self@ }),
    {
        NetworkIndicator { available_networks: networks, ..self }
    }

    /// List the networks in the popup or not.
    pub fn show_networks(self, show: bool) -> (r: Self)
        ensures
            r@ == (NetworkIndicatorView { show_networks: show, ..self@ }),
    {
        NetworkIndicator { show_networks: show, ..self }
    }

    /// Replace the status.
    pub fn set_status(&mut self, status: NetworkStatus)
        ensures
            final(self)@ == (NetworkIndicatorView { status, ..old(self)@ }),
    {
        self.status = status;
    }

    /// Replace the networks in range.
    pub fn set_networks(&mut self, networks: Vec<WifiNetwork>)
        ensures
            final(self)@ == (NetworkIndicatorView { available_networks: networks@, ..old(self)@ }),
    {
        self.available_networks = networks;
    }

    /// Open the popup.
    pub fn open(&mut self)
        ensures
            final(self)@ == (NetworkIndicatorView { is_open: true, ..old(self)@ }),
    {
        self.is_open = true;
    }

    /// Close the popup.
    pub fn close(&mut self)
        ensures
            final(self)@ == (NetworkIndicatorView { is_open: false, ..old(self)@ }),
    {
        self.is_open = false;
    }

    /// Open the popup when closed, close it when open.
    pub fn toggle(&mut self)
        ensures
            final(self)@ == (NetworkIndicatorView { is_open: !old(self)@.is_open, ..old(self)@ }),
    {
        self.is_open = !self.is_open;
    }

    /// Whether the popup is open.
    pub fn is_open(&self) -> (r: bool)
        ensures
            r == self@.is_open,
    {
        self.is_open
    }

    /// The status.
    pub fn get_status(&self) -> (r: &NetworkStatus)
        ensures
            *r == self@.status,
    {
        &self.status
    }

    /// The icon of the current connection kind.
    pub fn get_icon(&self) -> (r: &'static str)
        ensures
            r@ == network_icon(self@.status.connection_type),
    {
        match self.status.connection_type {
            NetworkType::Wifi => "📶",
            NetworkType::Ethernet => "🔌",
            NetworkType::Cellular => "📱",
            NetworkType::Vpn => "🔒",
            NetworkType::Disconnected => "❌",
        }
    }

    /// Add a CSS class.
    pub fn class(self, class: &str) -> (r: Self)
        ensures
            r@ == (NetworkIndicatorView { base: BaseView { classes: added(self@.base.classes, class@), ..self@.base }, ..self@ }),
    {
        let mut n = self;
        n.base.classes.add(class);
        n
    }

    /// Set the element ID.
    pub fn id(self, id: &str) -> (r: Self)
        ensures
            r@ == (NetworkIndicatorView { base: BaseView { element_id: Some(id@), ..self@.base }, ..self@ }),
    {
        let mut n = self;
        n.base.element_id = Some(owned(id));
        n
    }
}

impl Widget for NetworkIndicator {
    fn id(&self) -> (r: WidgetId)
        ensures
            r == self@.base.id,
    {
        self.base.id
    }

    fn widget_type_name(&self) -> (r: &'static str)
        ensures
            r@ == "network-indicator"@,
    {
        "network-indicator"
    }

    fn element_id(&self) -> (r: Option<&str>)
        ensures
            match r {
                Some(s) => self@.base.element_id == Some(s@),
                None => self@.base.element_id is None,
            },
    {
        self.base.element_id_str()
    }

    fn classes(&self) -> (r: &ClassList)
        ensures
            r@ == self@.base.classes,
    {
        &self.base.classes
    }

    fn state(&self) -> (r: WidgetState)
        ensures
            r == self@.base.state,
    {
        self.base.state
    }
}

} // verus!
