//! What the plugin asks of the engine's user interface: the messages it
//! sends to widgets, and the shape of the loading overlay it builds.

use crate::handle::Handle;
use vstd::prelude::*;

verus! {

/// A message for one widget of the engine's user interface. Lengths are in
/// whole pixels and progress in per cent; the caller scales them to what the
/// engine takes.
#[derive(Clone, Debug, PartialEq, Eq)]
pub enum UiCommand {
    Width { widget: Handle, value: u32 },
    Height { widget: Handle, value: u32 },
    Visibility { widget: Handle, visible: bool },
    Progress { widget: Handle, percent: usize },
    Text { widget: Handle, text: String },
}

/// The mathematical content of a [`UiCommand`].
pub enum UiCommandView {
    Width { widget: Handle, value: u32 },
    Height { widget: Handle, value: u32 },
    Visibility { widget: Handle, visible: bool },
    Progress { widget: Handle, percent: usize },
    Text { widget: Handle, text: Seq<char> },
}

impl View for UiCommand {
    type V = UiCommandView;

    open spec fn view(&self) -> UiCommandView {
        match *self {
            UiCommand::Width { widget, value } => UiCommandView::Width { widget, value },
            UiCommand::Height { widget, value } => UiCommandView::Height { widget, value },
            UiCommand::Visibility { widget, visible } => UiCommandView::Visibility {
                widget,
                visible,
            },
            UiCommand::Progress { widget, percent } => UiCommandView::Progress { widget, percent },
            UiCommand::Text { widget, text } => UiCommandView::Text { widget, text: text@ },
        }
    }
}

/// The content of a list of commands, in order.
pub open spec fn command_views(commands: Seq<UiCommand>) -> Seq<UiCommandView> {
    commands.map_values(|c: UiCommand| c@)
}

/// The two messages that fit a widget to a size: its width, then its height.
pub open spec fn resize_commands(widget: Handle, width: u32, height: u32) -> Seq<UiCommandView> {
    seq![
        UiCommandView::Width { widget, value: width },
        UiCommandView::Height { widget, value: height },
    ]
}

/// How a grid sizes one of its columns or rows.
#[derive(Clone, Copy, Debug, PartialEq, Eq, Structural)]
pub enum Track {
    /// Takes a share of what the fixed tracks leave.
    Stretch,
    /// Has exactly this many pixels.
    Strict(u32),
}

/// Where a widget sits in the room that its parent gives it.
#[derive(Clone, Copy, Debug, PartialEq, Eq, Structural)]
pub enum Alignment {
    Stretch,
    Start,
    Center,
    End,
}

/// The loading overlay: a grid over the whole window whose middle cell holds
/// a panel with a caption and, below it, a progress bar.
#[derive(Clone, Debug, PartialEq, Eq)]
pub struct OverlayLayout {
    pub columns: Vec<Track>,
    pub rows: Vec<Track>,
    pub panel_row: usize,
    pub panel_column: usize,
    pub panel_vertical_alignment: Alignment,
    pub caption: String,
    pub caption_alignment: Alignment,
    pub bar_height: u32,
    pub bar_margin: u32,
}

impl OverlayLayout {
    /// The panel's cell exists in the grid.
    pub open spec fn well_formed(&self) -> bool {
        &&& self.panel_row < self.rows@.len()
        &&& self.panel_column < self.columns@.len()
    }

    /// The overlay of this game: a cell of 200 by 100 pixels in the middle of
    /// the window, the caption centred in it, and a bar 25 pixels high with a
    /// margin of 2 pixels on every side.
    pub open spec fn is_loading_overlay(&self) -> bool {
        &&& self.columns@ == seq![Track::Stretch, Track::Strict(200), Track::Stretch]
        &&& self.rows@ == seq![Track::Stretch, Track::Strict(100), Track::Stretch]
        &&& self.panel_row == 1
        &&& self.panel_column == 1
        &&& self.panel_vertical_alignment == Alignment::Center
        &&& self.caption@ == "Loading... Please wait."@
        &&& self.caption_alignment == Alignment::Center
        &&& self.bar_height == 25
        &&& self.bar_margin == 2
    }

    /// Describes the loading overlay.
    pub fn loading() -> (layout: OverlayLayout)
        ensures
            layout.is_loading_overlay(),
            layout.well_formed(),
    {
        let mut columns: Vec<Track> = Vec::new();
        columns.push(Track::Stretch);
        columns.push(Track::Strict(200));
        columns.push(Track::Stretch);
        let mut rows: Vec<Track> = Vec::new();
        rows.push(Track::Stretch);
        rows.push(Track::Strict(100));
        rows.push(Track::Stretch);
        assert(columns@ =~= seq![Track::Stretch, Track::Strict(200), Track::Stretch]);
        assert(rows@ =~= seq![Track::Stretch, Track::Strict(100), Track::Stretch]);
        OverlayLayout {
            columns,
            rows,
            panel_row: 1,
            panel_column: 1,
            panel_vertical_alignment: Alignment::Center,
            caption: "Loading... Please wait.".to_owned(),
            caption_alignment: Alignment::Center,
            bar_height: 25,
            bar_margin: 2,
        }
    }
}

} // verus!
