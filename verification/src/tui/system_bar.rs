//! A line of text that only shows itself.

use crate::tui::events::{ComponentType, Event, EventHandler, EventType, Reaction, Triggered};
use crate::tui::renderer::{span, spanned, string_ops, DrawView, RenderBox, Renderer, TextStyle};
use crate::tui::{Component, Position};
use vstd::prelude::*;
use vstd::string::StringExecFns;

verus! {

/// A label of a fixed width. It takes no focus and hears no event.
#[derive(Debug)]
pub struct SystemBar {
    label: String,
    width: i32,
}

/// The mathematical content of a [`SystemBar`].
pub struct SystemBarView {
    pub label: Seq<char>,
    pub width: i32,
}

impl SystemBarView {
    /// The commands that write the label at `top`, `left`.
    pub open spec fn rendering(self, top: int, left: int) -> Seq<DrawView> {
        string_ops(
            self.label,
            TextStyle::Normal,
            false,
            RenderBox { top: span(top), left: span(left), width: span(self.width as int), height: 1 },
        )
    }

    /// No event does anything to a bar.
    pub open spec fn trigger(self) -> Reaction<SystemBarView> {
        Reaction { state: self, consumed: false, fired: None }
    }
}

impl View for SystemBar {
    type V = SystemBarView;

    closed spec fn view(&self) -> SystemBarView {
        SystemBarView { label: self.label@, width: self.width }
    }
}

impl SystemBar {
    /// A bar that shows `label` in `width` cells.
    pub fn new(label: &str, width: i32) -> (bar: SystemBar)
        ensures
            bar@ == (SystemBarView { label: label@, width }),
    {
        SystemBar { label: String::from_str(label), width }
    }
}

impl Component for SystemBar {
    fn render(&self, renderer: &mut Renderer, position: &Position)
        ensures
            final(renderer).drawn() == old(renderer).drawn() + self@.rendering(
                position@.0,
                position@.1,
            ),
    {
        renderer.draw_string(
            self.label.as_str(),
            TextStyle::Normal,
            false,
            &RenderBox {
                top: spanned(position.top() as i128),
                left: spanned(position.left() as i128),
                width: spanned(self.width as i128),
                height: 1,
            },
        );
    }

    fn render_focus(&self, renderer: &mut Renderer, position: &Position)
        ensures
            final(renderer).drawn() == old(renderer).drawn(),
    {
    }

    fn trigger(&mut self, event: &Event) -> (r: Triggered)
        ensures
            final(self)@ == old(self)@,
            r.answers(old(self)@.trigger()),
    {
        Triggered { consumed: false, fired: None }
    }

    fn add_event_listener(&mut self, event_type: EventType, handler: EventHandler)
        ensures
            final(self)@ == old(self)@,
    {
    }

    fn toggle_focus(&mut self)
        ensures
            final(self)@ == old(self)@,
    {
    }

    fn get_component_type(&self) -> (kind: ComponentType)
        ensures
            kind == ComponentType::SystemBar,
    {
        ComponentType::SystemBar
    }

    fn is_focusable(&self) -> (focusable: bool)
        ensures
            !focusable,
    {
        false
    }
}

} // verus!
