//! The settings of a segment of the status line, as far as this crate
//! reads them.

use vstd::prelude::*;

verus! {

/// The segments that a status line can have.
#[derive(Debug, Clone, Copy, PartialEq, Eq, Structural)]
pub enum SegmentId {
    Model,
    Directory,
    Git,
    ContextWindow,
    Usage,
    Cost,
    Session,
    OutputStyle,
    Update,
    ByeByeCodeUsage,
    ByeByeCodeSubscription,
    ByeByeCodeStatus,
}

/// The sets of icons among which a status line chooses.
#[derive(Debug, Clone, Copy, PartialEq, Eq, Structural)]
pub enum StyleMode {
    Plain,
    NerdFont,
    Powerline,
}

/// A colour of the terminal: one of the 16, one of the 256, or one given
/// by its red, green and blue parts.
#[derive(Debug, Clone, Copy, PartialEq, Eq, Structural)]
pub enum AnsiColor {
    Color16 { c16: u8 },
    Color256 { c256: u8 },
    Rgb { r: u8, g: u8, b: u8 },
}

/// The settings of one segment. Of its options only their number is held.
#[derive(Debug, Clone)]
pub struct SegmentSettings {
    pub id: SegmentId,
    pub enabled: bool,
    pub icon_plain: String,
    pub icon_nerd_font: String,
    pub icon_color: Option<AnsiColor>,
    pub text_color: Option<AnsiColor>,
    pub background_color: Option<AnsiColor>,
    pub text_bold: bool,
    pub option_count: usize,
}

/// What a `SegmentSettings` holds.
pub struct SegmentSettingsView {
    pub id: SegmentId,
    pub enabled: bool,
    pub icon_plain: Seq<char>,
    pub icon_nerd_font: Seq<char>,
    pub icon_color: Option<AnsiColor>,
    pub text_color: Option<AnsiColor>,
    pub background_color: Option<AnsiColor>,
    pub text_bold: bool,
    pub option_count: nat,
}

impl View for SegmentSettings {
    type V = SegmentSettingsView;

    open spec fn view(&self) -> SegmentSettingsView {
        SegmentSettingsView {
            id: self.id,
            enabled: self.enabled,
            icon_plain: self.icon_plain@,
            icon_nerd_font: self.icon_nerd_font@,
            icon_color: self.icon_color,
            text_color: self.text_color,
            background_color: self.background_color,
            text_bold: self.text_bold,
            option_count: self.option_count as nat,
        }
    }
}

} // verus!
