//! Label widget for displaying text.
use vstd::prelude::*;

use super::{BaseView, Widget, WidgetBase, WidgetId, WidgetIds, succ_id};
use crate::css::{added, ClassList, WidgetState};
use crate::text::owned;

verus! {

/// Abstract contents of a `Label`.
pub struct LabelView {
    pub base: BaseView,
    pub text: Seq<char>,
}

/// A text label widget.
pub struct Label {
    base: WidgetBase,
    text: String,
}

impl View for Label {
    type V = LabelView;

    closed spec fn view(&self) -> LabelView {
        LabelView { base: self.base@, text: self.text@ }
    }
}

/// The font size, in pixels, that a label's classes ask for, if any.
pub open spec fn class_font_size(c: Seq<Seq<char>>) -> Option<u32> {
    if c.contains("hero-title"@) || c.contains("text-4xl"@) {
        Some(36)
    } else if c.contains("title"@) || c.contains("text-3xl"@) || c.contains("h1"@) {
        Some(30)
    } else if c.contains("heading"@) || c.contains("text-2xl"@) || c.contains("h2"@) {
        Some(24)
    } else if c.contains("subheading"@) || c.contains("text-xl"@) || c.contains("h3"@) {
        Some(20)
    } else if c.contains("text-lg"@) {
        Some(18)
    } else if c.contains("text-sm"@) || c.contains("subtitle"@) {
        Some(14)
    } else if c.contains("text-xs"@) || c.contains("section-title"@) || c.contains("caption"@) {
        Some(12)
    } else {
        None
    }
}

/// The opacity, in percent, that a label's classes ask for.
pub open spec fn class_opacity(c: Seq<Seq<char>>) -> u8 {
    if c.contains("subtitle"@) || c.contains("muted"@) {
        70
    } else if c.contains("section-title"@) || c.contains("caption"@) {
        50
    } else {
        100
    }
}

impl Label {
    /// A label showing `text`.
    pub fn new(ids: &mut WidgetIds, text: &str) -> (r: Self)
        ensures
            r@.base.id == old(ids)@,
            final(ids)@ == succ_id(old(ids)@),
            r@.base.classes == seq!["label"@],
            r@.base.element_id is None,
            r@.text == text@,
    {
        Label { base: WidgetBase::new(ids).with_class("label"), text: owned(text) }
    }

    /// Set the text.
    pub fn text(self, text: &str) -> (r: Self)
        ensures
            r@ == (LabelView { text: text@, ..self@ }),
    {
        Label { text: owned(text), ..self }
    }

    /// Add a CSS class.
    pub fn class(self, class: &str) -> (r: Self)
        ensures
            r@ == (LabelView { base: BaseView { classes: added(self@.base.classes, class@), ..self@.base }, ..self@ }),
    {
        let mut l = self;
        l.base.classes.add(class);
        l
    }

    /// Set the element ID.
    pub fn id(self, id: &str) -> (r: Self)
        ensures
            r@ == (LabelView { base: BaseView { element_id: Some(id@), ..self@.base }, ..self@ }),
    {
        let mut l = self;
        l.base.element_id = Some(owned(id));
        l
    }

    /// The text.
    pub fn get_text(&self) -> (r: &str)
        ensures
            r@ == self@.text,
    {
        self.text.as_str()
    }

    /// Replace the text.
    pub fn set_text(&mut self, text: &str)
        ensures
            final(self)@ == (LabelView { text: text@, ..old(self)@ }),
    {
        self.text = owned(text);
    }

    /// The font size the classes ask for (see `class_font_size`).
    pub fn font_size_for_class(&self) -> (r: Option<u32>)
        ensures
            r == class_font_size(self@.base.classes),
    {
        let c = &self.base.classes;
        if c.contains("hero-title") || c.contains("text-4xl") {
            Some(36)
        } else if c.contains("title") || c.contains("text-3xl") || c.contains("h1") {
            Some(30)
        } else if c.contains("heading") || c.contains("text-2xl") || c.contains("h2") {
            Some(24)
        } else if c.contains("subheading") || c.contains("text-xl") || c.contains("h3") {
            Some(20)
        } else if c.contains("text-lg") {
            Some(18)
        } else if c.contains("text-sm") || c.contains("subtitle") {
            Some(14)
        } else if c.contains("text-xs") || c.contains("section-title") || c.contains("caption") {
            Some(12)
        } else {
            None
        }
    }

    /// The font size the label is drawn at: what its classes ask for, else
    /// the default of 16.
    pub fn font_size(&self) -> (r: u32)
        ensures
            r == (match class_font_size(self@.base.classes) {
                Some(size) => size,
                None => 16u32,
            }),
    {
        match self.font_size_for_class() {
            Some(size) => size,
            None => 16,
        }
    }

    /// The opacity the classes ask for, in percent (see `class_opacity`).
    pub fn opacity_for_class(&self) -> (r: u8)
        ensures
            r == class_opacity(self@.base.classes),
    {
        let c = &self.base.classes;
        if c.contains("subtitle") || c.contains("muted") {
            70
        } else if c.contains("section-title") || c.contains("caption") {
            50
        } else {
            100
        }
    }
}

impl Widget for Label {
    fn id(&self) -> (r: WidgetId)
        ensures
            r == self@.base.id,
    {
        self.base.id
    }

    fn widget_type_name(&self) -> (r: &'static str)
        ensures
            r@ == "label"@,
    {
        "label"
    }

    fn element_id(&self) -> (r: Option<&str>)
        ensures
            match r {
                Some(s) => self@.base.element_id == Some(s@),
                None => self@.base.element_id is None,
            },
    {
        self.base.element_id_str()
    }

    fn classes(&self) -> (r: &ClassList)
        ensures
            r@ == self@.base.classes,
    {
        &self.base.classes
    }

    fn state(&self) -> (r: WidgetState)
        ensures
            r == self@.base.state,
    {
        self.base.state
    }
}

} // verus!
