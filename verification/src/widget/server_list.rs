//! VPN server list widget.
use vstd::prelude::*;

use super::{BaseView, EventContext, Widget, WidgetBase, WidgetId, WidgetIds, succ_id};
use crate::css::{added, cleared_state, ClassList, WidgetState};
use crate::event::{is_left, left_button, EventResult, MouseEventKind, PointerEvent};
use crate::theme::{ColorAdjust, ColorChoice, ThemeColor};
use crate::text::{concat_str, dec, decimal_string, opt_view, owned, push_str, str_eq};

verus! {

/// Abstract contents of a `VpnServer`.
pub struct VpnServerView {
    pub id: Seq<char>,
    pub name: Seq<char>,
    pub host: Seq<char>,
    pub port: u16,
    pub protocol: Seq<char>,
    pub country_code: Option<Seq<char>>,
    pub city: Option<Seq<char>>,
    pub load: Option<u8>,
    pub latency_ms: Option<u32>,
    pub favorite: bool,
    pub sso_enabled: bool,
}

/// A VPN server entry.
#[derive(Debug, Clone)]
pub struct VpnServer {
    pub id: String,
    pub name: String,
    pub host: String,
    pub port: u16,
    pub protocol: String,
    pub country_code: Option<String>,
    pub city: Option<String>,
    /// Load in percent, at most 100.
    pub load: Option<u8>,
    pub latency_ms: Option<u32>,
    pub favorite: bool,
    pub sso_enabled: bool,
}

impl View for VpnServer {
    type V = VpnServerView;

    open spec fn view(&self) -> VpnServerView {
        VpnServerView {
            id: self.id@,
            name: self.name@,
            host: self.host@,
            port: self.port,
            protocol: self.protocol@,
            country_code: opt_view(&self.country_code),
            city: opt_view(&self.city),
            load: self.load,
            latency_ms: self.latency_ms,
            favorite: self.favorite,
            sso_enabled: self.sso_enabled,
        }
    }
}

/// A traffic-light color for a server's load or latency.
#[derive(Debug, Clone, Copy, PartialEq, Eq, Structural)]
pub enum StatusColor {
    Green,
    Amber,
    Red,
    Gray,
}

/// Where a server is: "city, country", whichever of the two is known, or
/// else its host.
pub open spec fn location_of(s: VpnServerView) -> Seq<char> {
    match (s.city, s.country_code) {
        (Some(city), Some(country)) => city + ", "@ + country,
        (None, Some(country)) => country,
        (Some(city), None) => city,
        (None, None) => s.host,
    }
}

/// The color of a load: green under 50%, amber under 80%, else red; gray
/// when unknown.
pub open spec fn load_color_of(load: Option<u8>) -> StatusColor {
    match load {
        Some(l) => if l < 50 { StatusColor::Green } else if l < 80 { StatusColor::Amber } else { StatusColor::Red },
        None => StatusColor::Gray,
    }
}

/// The color of a latency: green under 50 ms, amber under 100 ms, else red.
pub open spec fn latency_color_of(ms: u32) -> StatusColor {
    if ms < 50 { StatusColor::Green } else if ms < 100 { StatusColor::Amber } else { StatusColor::Red }
}

impl VpnServer {
    /// A server on port 1194 over UDP, with nothing else known.
    pub fn new(id: &str, name: &str, host: &str) -> (r: Self)
        ensures
            r@ == (VpnServerView {
                id: id@,
                name: name@,
                host: host@,
                port: 1194,
                protocol: "UDP"@,
                country_code: None,
                city: None,
                load: None,
                latency_ms: None,
                favorite: false,
                sso_enabled: false,
            }),
    {
        VpnServer {
            id: owned(id),
            name: owned(name),
            host: owned(host),
            port: 1194,
            protocol: owned("UDP"),
            country_code: None,
            city: None,
            load: None,
            latency_ms: None,
            favorite: false,
            sso_enabled: false,
        }
    }

    /// Set the port.
    pub fn port(self, port: u16) -> (r: Self)
        ensures
            r@ == (VpnServerView { port, ..self@ }),
    {
        VpnServer { port, ..self }
    }

    /// Set the protocol.
    pub fn protocol(self, protocol: &str) -> (r: Self)
        ensures
            r@ == (VpnServerView { protocol: protocol@, ..self@ }),
    {
        VpnServer { protocol: owned(protocol), ..self }
    }

    /// Set the country code.
    pub fn country(self, code: &str) -> (r: Self)
        ensures
            r@ == (VpnServerView { country_code: Some(code@), ..self@ }),
    {
        VpnServer { country_code: Some(owned(code)), ..self }
    }

    /// Set the city.
    pub fn city(self, city: &str) -> (r: Self)
        ensures
            r@ == (VpnServerView { city: Some(city@), ..self@ }),
    {
        VpnServer { city: Some(owned(city)), ..self }
    }

    /// Set the load, capped at 100%.
    pub fn load(self, load: u8) -> (r: Self)
        ensures
            r@ == (VpnServerView { load: Some(if load < 100 { load } else { 100 }), ..self@ }),
    {
        VpnServer { load: Some(if load < 100 { load } else { 100 }), ..self }
    }

    /// Set the latency in milliseconds.
    pub fn latency(self, ms: u32) -> (r: Self)
        ensures
            r@ == (VpnServerView { latency_ms: Some(ms), ..self@ }),
    {
        VpnServer { latency_ms: Some(ms), ..self }
    }

    /// Mark as favorite.
    pub fn favorite(self, favorite: bool) -> (r: Self)
        ensures
            r@ == (VpnServerView { favorite, ..self@ }),
    {
        VpnServer { favorite, ..self }
    }

    /// Mark whether the server signs in through SSO.
    pub fn sso_enabled(self, enabled: bool) -> (r: Self)
        ensures
            r@ == (VpnServerView { sso_enabled: enabled, ..self@ }),
    {
        VpnServer { sso_enabled: enabled, ..self }
    }

    /// The location text (see `location_of`).
    pub fn location(&self) -> (r: String)
        ensures
            r@ == location_of(self@),
    {
        match (&self.city, &self.country_code) {
            (Some(city), Some(country)) => {
                let mut r = concat_str(city.as_str(), ", ");
                push_str(&mut r, country.as_str());
                proof {
                    reveal_strlit(", ");
                }
                r
            },
            (None, Some(country)) => country.clone(),
            (Some(city), None) => city.clone(),
            (None, None) => self.host.clone(),
        }
    }

    /// The color of the load (see `load_color_of`).
    pub fn load_color(&self) -> (r: StatusColor)
        ensures
            r == load_color_of(self@.load),
    {
        match self.load {
            Some(l) => if l < 50 { StatusColor::Green } else if l < 80 { StatusColor::Amber } else { StatusColor::Red },
            None => StatusColor::Gray,
        }
    }
}

/// The color of a latency (see `latency_color_of`).
pub fn latency_color(ms: u32) -> (r: StatusColor)
    ensures
        r == latency_color_of(ms),
{
    if ms < 50 { StatusColor::Green } else if ms < 100 { StatusColor::Amber } else { StatusColor::Red }
}

/// The load label, such as `42%`.
pub fn load_label(load: u8) -> (r: String)
    ensures
        r@ == dec(load as nat) + "%"@,
{
    let mut r = decimal_string(load as u64);
    push_str(&mut r, "%");
    r
}

/// The latency label, such as `35ms`.
pub fn latency_label(ms: u32) -> (r: String)
    ensures
        r@ == dec(ms as nat) + "ms"@,
{
    let mut r = decimal_string(ms as u64);
    push_str(&mut r, "ms");
    r
}

/// The views of a sequence of servers.
pub open spec fn servers_view(s: Seq<VpnServer>) -> Seq<VpnServerView> {
    s.map_values(|x: VpnServer| x@)
}

/// Abstract contents of a `ServerList`.
pub struct ServerListView {
    pub base: BaseView,
    pub servers: Seq<VpnServerView>,
    pub selected_id: Option<Seq<char>>,
    pub show_load: bool,
    pub show_latency: bool,
    pub show_protocol: bool,
    pub hovered: Seq<bool>,
}

/// A list of VPN servers to choose from.
#[derive(Debug)]
pub struct ServerList {
    base: WidgetBase,
    servers: Vec<VpnServer>,
    selected_id: Option<String>,
    show_load: bool,
    show_latency: bool,
    show_protocol: bool,
    item_states: Vec<bool>,
}

impl View for ServerList {
    type V = ServerListView;

    closed spec fn view(&self) -> ServerListView {
        ServerListView {
            base: self.base@,
            servers: servers_view(self.servers@),
            selected_id: opt_view(&self.selected_id),
            show_load: self.show_load,
            show_latency: self.show_latency,
            show_protocol: self.show_protocol,
            hovered: self.item_states@,
        }
    }
}

/// `i` is the first position of `s` whose server has the id `id`.
pub open spec fn first_server_at(s: Seq<VpnServerView>, id: Seq<char>, i: int) -> bool {
    0 <= i < s.len() && s[i].id == id && forall|j: int| 0 <= j < i ==> s[j].id != id
}

/// The first position of `s` whose server has the id `id`, if any.
pub open spec fn first_server(s: Seq<VpnServerView>, id: Seq<char>) -> Option<int> {
    if exists|i: int| first_server_at(s, id, i) {
        Some(choose|i: int| first_server_at(s, id, i))
    } else {
        None
    }
}

/// The first position with an id is unique.
pub proof fn lemma_first_server_unique(s: Seq<VpnServerView>, id: Seq<char>, i: int)
    requires
        first_server_at(s, id, i),
    ensures
        first_server(s, id) == Some(i),
{
    let c = choose|k: int| first_server_at(s, id, k);
    assert(first_server_at(s, id, c));
    if c < i {
        assert(s[c].id != id);
    } else if i < c {
        assert(s[i].id != id);
    }
}

/// The hover flags when the pointer is over item `hit` (or none).
pub open spec fn hover_flags(n: nat, hit: Option<usize>) -> Seq<bool> {
    Seq::new(n, |i: int| hit == Some(i as usize))
}

/// The background of server `i`: the primary color at 15% when it is the
/// selected one, the muted color at 50% when hovered, else transparent.
pub open spec fn server_background(v: ServerListView, i: int) -> ColorChoice {
    if v.selected_id == Some(v.servers[i].id) {
        ColorChoice { color: ThemeColor::Primary, adjust: ColorAdjust::AlphaPercent(15) }
    } else if i < v.hovered.len() && v.hovered[i] {
        ColorChoice { color: ThemeColor::Muted, adjust: ColorAdjust::AlphaPercent(50) }
    } else {
        ColorChoice { color: ThemeColor::Transparent, adjust: ColorAdjust::Plain }
    }
}

/// The item under the pointer: the reported row when the list has it.
pub open spec fn server_hit(row: Option<usize>, len: nat) -> Option<usize> {
    match row {
        Some(i) => if i < len { Some(i) } else { None },
        None => None,
    }
}

impl ServerList {
    /// An empty list showing load and latency but not protocol.
    pub fn new(ids: &mut WidgetIds) -> (r: Self)
        ensures
            r@.base.id == old(ids)@,
            final(ids)@ == succ_id(old(ids)@),
            r@.base.classes == seq!["server-list"@],
            r@.base.element_id is None,
            r@.base.state == cleared_state(),
            r@.servers == Seq::<VpnServerView>::empty(),
            r@.selected_id is None,
            r@.show_load,
            r@.show_latency,
            !r@.show_protocol,
            r@.hovered == Seq::<bool>::empty(),
    {
        ServerList {
            base: WidgetBase::new(ids).with_class("server-list"),
            servers: Vec::new(),
            selected_id: None,
            show_load: true,
            show_latency: true,
            show_protocol: false,
            item_states: Vec::new(),
        }
    }

    /// Set the servers; none is hovered.
    pub fn servers(self, servers: Vec<VpnServer>) -> (r: Self)
        ensures
            r@ == (ServerListView {
                servers: servers_view(servers@),
                hovered: hover_flags(servers@.len(), None),
                ..self@
            }),
    {
        let mut states: Vec<bool> = Vec::new();
        let mut i: usize = 0;
        while i < servers.len()
            invariant
                i <= servers.len(),
                states@ == hover_flags(i as nat, None),
            decreases servers.len() - i,
        {
            states.push(false);
            i = i + 1;
            assert(states@ =~= hover_flags(i as nat, None));
        }
        ServerList { servers, item_states: states, ..self }
    }

    /// Set the selected server id.
    pub fn selected(self, id: &str) -> (r: Self)
        ensures
            r@ == (ServerListView { selected_id: Some(id@), ..self@ }),
    {
        ServerList { selected_id: Some(owned(id)), ..self }
    }

    /// Show or hide the load indicator.
    pub fn show_load(self, show: bool) -> (r: Self)
        ensures
            r@ == (ServerListView { show_load: show, ..self@ }),
    {
        ServerList { show_load: show, ..self }
    }

    /// Show or hide the latency.
    pub fn show_latency(self, show: bool) -> (r: Self)
        ensures
            r@ == (ServerListView { show_latency: show, ..self@ }),
    {
        ServerList { show_latency: show, ..self }
    }

    /// Show or hide the protocol.
    pub fn show_protocol(self, show: bool) -> (r: Self)
        ensures
            r@ == (ServerListView { show_protocol: show, ..self@ }),
    {
        ServerList { show_protocol: show, ..self }
    }

    /// Add a CSS class.
    pub fn class(self, class: &str) -> (r: Self)
        ensures
            r@ == (ServerListView { base: BaseView { classes: added(self@.base.classes, class@), ..self@.base }, ..self@ }),
    {
        let mut c = self;
        c.base.classes.add(class);
        c
    }

    /// The servers.
    pub fn get_servers(&self) -> (r: &Vec<VpnServer>)
        ensures
            servers_view(r@) == self@.servers,
    {
        &self.servers
    }

    /// The first server whose id is the selected id, if any.
    pub fn get_selected(&self) -> (r: Option<&VpnServer>)
        ensures
            match r {
                Some(s) => match self@.selected_id {
                    Some(id) => match first_server(self@.servers, id) {
                        Some(k) => s@ == self@.servers[k],
                        None => false,
                    },
                    None => false,
                },
                None => match self@.selected_id {
                    Some(id) => first_server(self@.servers, id) is None,
                    None => true,
                },
            },
    {
        match &self.selected_id {
            Some(id) => {
                let ghost s = self@.servers;
                let mut i: usize = 0;
                while i < self.servers.len()
                    invariant
                        i <= self.servers.len(),
                        s == servers_view(self.servers@),
                        self@.selected_id == Some(id@),
                        forall|j: int| 0 <= j < i ==> s[j].id != id@,
                    decreases self.servers.len() - i,
                {
                    if str_eq(self.servers[i].id.as_str(), id.as_str()) {
                        proof {
                            lemma_first_server_unique(s, id@, i as int);
                        }
                        return Some(&self.servers[i]);
                    }
                    i = i + 1;
                }
                assert(!exists|k: int| first_server_at(s, id@, k));
                None
            },
            None => None,
        }
    }

    /// The background of server `i` (see `server_background`).
    pub fn item_background(&self, i: usize) -> (r: ColorChoice)
        requires
            i < self@.servers.len(),
        ensures
            r == server_background(self@, i as int),
    {
        let selected = match &self.selected_id {
            Some(id) => str_eq(id.as_str(), self.servers[i].id.as_str()),
            None => false,
        };
        if selected {
            ColorChoice { color: ThemeColor::Primary, adjust: ColorAdjust::AlphaPercent(15) }
        } else if i < self.item_states.len() && self.item_states[i] {
            ColorChoice { color: ThemeColor::Muted, adjust: ColorAdjust::AlphaPercent(50) }
        } else {
            ColorChoice { color: ThemeColor::Transparent, adjust: ColorAdjust::Plain }
        }
    }

    /// Select the server with id `id`, when the list has one.
    pub fn select(&mut self, id: &str)
        ensures
            final(self)@ == (if exists|i: int| 0 <= i < old(self)@.servers.len() && #[trigger] old(self)@.servers[i].id == id@ {
                ServerListView { selected_id: Some(id@), ..old(self)@ }
            } else {
                old(self)@
            }),
    {
        let ghost s = self@.servers;
        let mut i: usize = 0;
        while i < self.servers.len()
            invariant
                i <= self.servers.len(),
                s == servers_view(self.servers@),
                self@ == old(self)@,
                forall|j: int| 0 <= j < i ==> s[j].id != id@,
            decreases self.servers.len() - i,
        {
            if str_eq(self.servers[i].id.as_str(), id) {
                assert(s[i as int].id == id@);
                self.selected_id = Some(owned(id));
                return;
            }
            i = i + 1;
        }
    }

    /// Handles a pointer event; `row` is the row under the pointer when it
    /// lies inside the list. Moves track which item is hovered, a leave
    /// clears the hover, and releasing the left button on an item selects
    /// it. Returns the event result and the index of the server the select
    /// handler is to be told of.
    pub fn handle_pointer(&mut self, ev: PointerEvent, row: Option<usize>, ctx: &mut EventContext) -> (r: (EventResult, Option<usize>))
        ensures
            final(ctx).focus == old(ctx).focus,
            ({
                let v = old(self)@;
                let hit = if ev.in_bounds { server_hit(row, v.servers.len()) } else { None };
                match ev.kind {
                    MouseEventKind::Move | MouseEventKind::Enter => {
                        let flags = hover_flags(v.hovered.len(), hit);
                        &&& final(self)@ == (ServerListView { hovered: flags, ..v })
                        &&& r == (EventResult::Ignored, None::<usize>)
                        &&& final(ctx).should_redraw == (old(ctx).should_redraw || flags != v.hovered)
                    },
                    MouseEventKind::Leave => {
                        &&& final(self)@ == (ServerListView { hovered: hover_flags(v.hovered.len(), None), ..v })
                        &&& r == (EventResult::Ignored, None::<usize>)
                        &&& final(ctx).should_redraw
                    },
                    MouseEventKind::Up if is_left(ev.button) && hit is Some => {
                        &&& final(self)@ == (ServerListView { selected_id: Some(v.servers[hit->0 as int].id), ..v })
                        &&& r == (EventResult::Handled, hit)
                        &&& final(ctx).should_redraw
                    },
                    _ => {
                        &&& final(self)@ == v
                        &&& r == (EventResult::Ignored, None::<usize>)
                        &&& final(ctx).should_redraw == old(ctx).should_redraw
                    },
                }
            }),
    {
        let hit: Option<usize> = if ev.in_bounds {
            match row {
                Some(i) => if i < self.servers.len() { Some(i) } else { None },
                None => None,
            }
        } else {
            None
        };
        match ev.kind {
            MouseEventKind::Move | MouseEventKind::Enter | MouseEventKind::Leave => {
                let target: Option<usize> = if ev.kind == MouseEventKind::Leave { None } else { hit };
                let ghost n = self.item_states@.len();
                let mut changed = false;
                let mut i: usize = 0;
                while i < self.item_states.len()
                    invariant
                        i <= self.item_states.len(),
                        self.item_states@.len() == n,
                        n == old(self)@.hovered.len(),
                        self@ == (ServerListView { hovered: self.item_states@, ..old(self)@ }),
                        forall|j: int| 0 <= j < i ==> self.item_states@[j] == (target == Some(j as usize)),
                        forall|j: int| i <= j < n ==> self.item_states@[j] == old(self)@.hovered[j],
                        changed == exists|j: int| 0 <= j < i && #[trigger] old(self)@.hovered[j] != (target == Some(j as usize)),
                    decreases self.item_states.len() - i,
                {
                    let should = match target {
                        Some(t) => t == i,
                        None => false,
                    };
                    if self.item_states[i] != should {
                        self.item_states[i] = should;
                        changed = true;
                    }
                    i = i + 1;
                }
                assert(self.item_states@ =~= hover_flags(n, target));
                if changed {
                    let ghost j = choose|j: int| 0 <= j < n && #[trigger] old(self)@.hovered[j] != (target == Some(j as usize));
                    assert(hover_flags(n, target)[j] != old(self)@.hovered[j]);
                } else {
                    assert(hover_flags(n, target) =~= old(self)@.hovered);
                }
                if changed || ev.kind == MouseEventKind::Leave {
                    ctx.request_redraw();
                }
                (EventResult::Ignored, None)
            },
            MouseEventKind::Up => {
                if left_button(ev.button) {
                    if let Some(i) = hit {
                        let id = self.servers[i].id.clone();
                        self.selected_id = Some(id);
                        ctx.request_redraw();
                        return (EventResult::Handled, Some(i));
                    }
                }
                (EventResult::Ignored, None)
            },
            _ => (EventResult::Ignored, None),
        }
    }
}

impl Widget for ServerList {
    fn id(&self) -> (r: WidgetId)
        ensures
            r == self@.base.id,
    {
        self.base.id
    }

    fn widget_type_name(&self) -> (r: &'static str)
        ensures
            r@ == "server-list"@,
    {
        "server-list"
    }

    fn element_id(&self) -> (r: Option<&str>)
        ensures
            match r {
                Some(s) => self@.base.element_id == Some(s@),
                None => self@.base.element_id is None,
            },
    {
        self.base.element_id_str()
    }

    fn classes(&self) -> (r: &ClassList)
        ensures
            r@ == self@.base.classes,
    {
        &self.base.classes
    }

    fn state(&self) -> (r: WidgetState)
        ensures
            r == self@.base.state,
    {
        self.base.state
    }
}

} // verus!
