//! Battery indicator for the desktop panel.
use vstd::prelude::*;

use super::{BaseView, Widget, WidgetBase, WidgetId, WidgetIds, succ_id};
use crate::css::{added, ClassList, WidgetState};
use crate::text::{dec, owned, push_decimal, push_str};

verus! {

/// Battery charge status.
#[derive(Debug, Clone, Copy, PartialEq, Eq, Structural)]
pub enum BatteryStatus {
    Discharging,
    Charging,
    Full,
    NotPresent,
    Unknown,
}

impl Default for BatteryStatus {
    fn default() -> (r: Self)
        ensures
            r == BatteryStatus::Full,
    {
        BatteryStatus::Full
    }
}

/// Power profile.
#[derive(Debug, Clone, Copy, PartialEq, Eq, Structural)]
pub enum PowerProfile {
    PowerSaver,
    Balanced,
    Performance,
}

impl Default for PowerProfile {
    fn default() -> (r: Self)
        ensures
            r == PowerProfile::Balanced,
    {
        PowerProfile::Balanced
    }
}

/// Battery readings.
#[derive(Debug, Clone, Copy, PartialEq, Eq, Structural)]
pub struct BatteryInfo {
    pub level: u8,
    pub status: BatteryStatus,
    pub time_remaining: Option<u64>,
    pub power_profile: PowerProfile,
    pub health: Option<u8>,
    pub battery_saver: bool,
}

impl Default for BatteryInfo {
    fn default() -> (r: Self)
        ensures
            r == (BatteryInfo {
                level: 0,
                status: BatteryStatus::Full,
                time_remaining: None,
                power_profile: PowerProfile::Balanced,
                health: None,
                battery_saver: false,
            }),
    {
        BatteryInfo {
            level: 0,
            status: BatteryStatus::Full,
            time_remaining: None,
            power_profile: PowerProfile::Balanced,
            health: None,
            battery_saver: false,
        }
    }
}

/// How the battery icon is tinted.
#[derive(Debug, Clone, Copy, PartialEq, Eq, Structural)]
pub enum BatteryTint {
    /// Red: at or below the critical threshold while discharging.
    Critical,
    /// Orange: at or below the low threshold while discharging.
    Low,
    /// Green: charging.
    Charging,
    /// White.
    Normal,
}

/// Abstract contents of a `BatteryIndicator`.
pub struct BatteryIndicatorView {
    pub base: BaseView,
    pub info: BatteryInfo,
    pub is_open: bool,
    pub low_threshold: u8,
    pub critical_threshold: u8,
}

/// Battery indicator widget.
pub struct BatteryIndicator {
    base: WidgetBase,
    info: BatteryInfo,
    is_open: bool,
    low_threshold: u8,
    critical_threshold: u8,
}

impl View for BatteryIndicator {
    type V = BatteryIndicatorView;

    closed spec fn view(&self) -> BatteryIndicatorView {
        BatteryIndicatorView {
            base: self.base@,
            info: self.info,
            is_open: self.is_open,
            low_threshold: self.low_threshold,
            critical_threshold: self.critical_threshold,
        }
    }
}

/// The smaller of `a` and 100.
pub open spec fn clamp_level(a: u8) -> u8 {
    if a <= 100 { a } else { 100 }
}

/// The battery is low: discharging at or below the low threshold.
pub open spec fn battery_low(v: BatteryIndicatorView) -> bool {
    v.info.level <= v.low_threshold && v.info.status == BatteryStatus::Discharging
}

/// The battery is critical: discharging at or below the critical threshold.
pub open spec fn battery_critical(v: BatteryIndicatorView) -> bool {
    v.info.level <= v.critical_threshold && v.info.status == BatteryStatus::Discharging
}

/// The battery icon for a reading.
pub open spec fn battery_icon(info: BatteryInfo) -> Seq<char> {
    match info.status {
        BatteryStatus::Charging | BatteryStatus::Full => "🔌"@,
        BatteryStatus::NotPresent => "⚡"@,
        BatteryStatus::Unknown => "❓"@,
        BatteryStatus::Discharging => if info.level <= 10 { "🪫"@ } else { "🔋"@ },
    }
}

/// The remaining-time text for a number of seconds: `Hh Mm remaining`, or
/// `Mm remaining` under an hour.
pub open spec fn remaining_text(secs: nat) -> Seq<char> {
    let hours = secs / 3600;
    let minutes = (secs % 3600) / 60;
    if hours > 0 {
        dec(hours) + "h "@ + dec(minutes) + "m remaining"@
    } else {
        dec(minutes) + "m remaining"@
    }
}

impl BatteryIndicator {
    /// A closed indicator showing a full battery, low at 20% and critical at 10%.
    pub fn new(ids: &mut WidgetIds) -> (r: Self)
        ensures
            r@.base.id == old(ids)@,
            final(ids)@ == succ_id(old(ids)@),
            r@.base.classes == seq!["battery-indicator"@],
            r@.base.element_id is None,
            r@.info == (BatteryInfo {
                level: 100,
                status: BatteryStatus::Full,
                time_remaining: None,
                power_profile: PowerProfile::Balanced,
                health: None,
                battery_saver: false,
            }),
            !r@.is_open,
            r@.low_threshold == 20,
            r@.critical_threshold == 10,
    {
        BatteryIndicator {
            base: WidgetBase::new(ids).with_class("battery-indicator"),
            info: BatteryInfo { level: 100, status: BatteryStatus::Full, ..BatteryInfo::default() },
            is_open: false,
            low_threshold: 20,
            critical_threshold: 10,
        }
    }

    /// Replace the readings.
    pub fn info(self, info: BatteryInfo) -> (r: Self)
        ensures
            r@ == (BatteryIndicatorView { info, ..self@ }),
    {
        BatteryIndicator { info, ..self }
    }

    /// Set the charge level, capped at 100.
    pub fn level(self, level: u8) -> (r: Self)
        ensures
            r@ == (BatteryIndicatorView { info: BatteryInfo { level: clamp_level(level), ..self@.info }, ..self@ }),
    {
        let mut b = self;
        b.info.level = if level <= 100 { level } else { 100 };
        b
    }

    /// Set the charge status.
    pub fn status(self, status: BatteryStatus) -> (r: Self)
        ensures
            r@ == (BatteryIndicatorView { info: BatteryInfo { status, ..self@.info }, ..self@ }),
    {
        let mut b = self;
        b.info.status = status;
        b
    }

    /// Set the low threshold.
    pub fn low_threshold(self, threshold: u8) -> (r: Self)
        ensures
            r@ == (BatteryIndicatorView { low_threshold: threshold, ..self@ }),
    {
        BatteryIndicator { low_threshold: threshold, ..self }
    }

    /// Set the critical threshold.
    pub fn critical_threshold(self, threshold: u8) -> (r: Self)
        ensures
            r@ == (BatteryIndicatorView { critical_threshold: threshold, ..self@ }),
    {
        BatteryIndicator { critical_threshold: threshold, ..self }
    }

    /// Replace the readings.
    pub fn set_info(&mut self, info: BatteryInfo)
        ensures
            final(self)@ == (BatteryIndicatorView { info, ..old(self)@ }),
    {
        self.info = info;
    }

    /// Set the charge level, capped at 100.
    pub fn set_level(&mut self, level: u8)
        ensures
            final(self)@ == (BatteryIndicatorView { info: BatteryInfo { level: clamp_level(level), ..old(self)@.info }, ..old(self)@ }),
    {
        self.info.level = if level <= 100 { level } else { 100 };
    }

    /// Open the popup.
    pub fn open(&mut self)
        ensures
            final(self)@ == (BatteryIndicatorView { is_open: true, ..old(self)@ }),
    {
        self.is_open = true;
    }

    /// Close the popup.
    pub fn close(&mut self)
        ensures
            final(self)@ == (BatteryIndicatorView { is_open: false, ..old(self)@ }),
    {
        self.is_open = false;
    }

    /// Open the popup if closed, close it if open.
    pub fn toggle(&mut self)
        ensures
            final(self)@ == (BatteryIndicatorView { is_open: !old(self)@.is_open, ..old(self)@ }),
    {
        self.is_open = !self.is_open;
    }

    /// Whether the popup is open.
    pub fn is_open(&self) -> (r: bool)
        ensures
            r == self@.is_open,
    {
        self.is_open
    }

    /// Whether the battery is low (see `battery_low`).
    pub fn is_low(&self) -> (r: bool)
        ensures
            r == battery_low(self@),
    {
        self.info.level <= self.low_threshold && self.info.status == BatteryStatus::Discharging
    }

    /// Whether the battery is critical (see `battery_critical`).
    pub fn is_critical(&self) -> (r: bool)
        ensures
            r == battery_critical(self@),
    {
        self.info.level <= self.critical_threshold && self.info.status == BatteryStatus::Discharging
    }

    /// The battery icon.
    pub fn get_icon(&self) -> (r: &'static str)
        ensures
            r@ == battery_icon(self@.info),
    {
        match self.info.status {
            BatteryStatus::Charging | BatteryStatus::Full => "🔌",
            BatteryStatus::NotPresent => "⚡",
            BatteryStatus::Unknown => "❓",
            BatteryStatus::Discharging => if self.info.level <= 10 { "🪫" } else { "🔋" },
        }
    }

    /// The icon tint: critical, then low, then charging, else normal.
    pub fn get_color(&self) -> (r: BatteryTint)
        ensures
            r == (if battery_critical(self@) {
                BatteryTint::Critical
            } else if battery_low(self@) {
                BatteryTint::Low
            } else if self@.info.status == BatteryStatus::Charging {
                BatteryTint::Charging
            } else {
                BatteryTint::Normal
            }),
    {
        if self.is_critical() {
            BatteryTint::Critical
        } else if self.is_low() {
            BatteryTint::Low
        } else if self.info.status == BatteryStatus::Charging {
            BatteryTint::Charging
        } else {
            BatteryTint::Normal
        }
    }

    /// The remaining time as text, when known (see `remaining_text`).
    pub fn format_time_remaining(&self) -> (r: Option<String>)
        ensures
            match self@.info.time_remaining {
                Some(secs) => r matches Some(t) && t@ == remaining_text(secs as nat),
                None => r is None,
            },
    {
        match self.info.time_remaining {
            Some(secs) => {
                let hours = secs / 3600;
                let minutes = (secs % 3600) / 60;
                let mut t = String::new();
                if hours > 0 {
                    push_decimal(&mut t, hours);
                    push_str(&mut t, "h ");
                    push_decimal(&mut t, minutes);
                    push_str(&mut t, "m remaining");
                } else {
                    push_decimal(&mut t, minutes);
                    push_str(&mut t, "m remaining");
                }
                Some(t)
            },
            None => None,
        }
    }

    /// Add a CSS class.
    pub fn class(self, class: &str) -> (r: Self)
        ensures
            r@ == (BatteryIndicatorView { base: BaseView { classes: added(self@.base.classes, class@), ..self@.base }, ..self@ }),
    {
        let mut b = self;
        b.base.classes.add(class);
        b
    }

    /// Set the element ID.
    pub fn id(self, id: &str) -> (r: Self)
        ensures
            r@ == (BatteryIndicatorView { base: BaseView { element_id: Some(id@), ..self@.base }, ..self@ }),
    {
        let mut b = self;
        b.base.element_id = Some(owned(id));
        b
    }
}

/// A critical battery is also a low one when the critical threshold does
/// not exceed the low threshold.
pub proof fn lemma_critical_implies_low(v: BatteryIndicatorView)
    requires
        v.critical_threshold <= v.low_threshold,
        battery_critical(v),
    ensures
        battery_low(v),
{
}

impl Widget for BatteryIndicator {
    fn id(&self) -> (r: WidgetId)
        ensures
            r == self@.base.id,
    {
        self.base.id
    }

    fn widget_type_name(&self) -> (r: &'static str)
        ensures
            r@ == "battery-indicator"@,
    {
        "battery-indicator"
    }

    fn element_id(&self) -> (r: Option<&str>)
        ensures
            match r {
                Some(s) => self@.base.element_id == Some(s@),
                None => self@.base.element_id is None,
            },
    {
        self.base.element_id_str()
    }

    fn classes(&self) -> (r: &ClassList)
        ensures
            r@ == self@.base.classes,
    {
        &self.base.classes
    }

    fn state(&self) -> (r: WidgetState)
        ensures
            r == self@.base.state,
    {
        self.base.state
    }
}

} // verus!
