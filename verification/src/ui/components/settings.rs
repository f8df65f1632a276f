//! The panel that shows the settings of the segment that is picked.
//!
//! The panel is made here as lines of coloured spans of text; drawing them
//! is left to whoever has a screen.

use crate::config::{AnsiColor, SegmentId, SegmentSettings, SegmentSettingsView, StyleMode};
use crate::text::{digits_of, push_digits};
use vstd::prelude::*;
use vstd::string::StringExecFns;

verus! {

/// The panels of the configuration screen.
#[derive(Debug, Clone, Copy, PartialEq, Eq, Structural)]
pub enum Panel {
    SegmentList,
    Settings,
}

/// The fields of the settings panel, from top to bottom.
#[derive(Debug, Clone, Copy, PartialEq, Eq, Structural)]
pub enum FieldSelection {
    Enabled,
    Icon,
    IconColor,
    TextColor,
    BackgroundColor,
    TextStyle,
    Options,
}

/// A colour as a screen shows it.
#[derive(Debug, Clone, Copy, PartialEq, Eq, Structural)]
pub enum ScreenColor {
    Black,
    Red,
    Green,
    Yellow,
    Blue,
    Magenta,
    Cyan,
    White,
    DarkGray,
    LightRed,
    LightGreen,
    LightYellow,
    LightBlue,
    LightMagenta,
    LightCyan,
    Gray,
    Indexed(u8),
    Rgb(u8, u8, u8),
}

/// A piece of text in one colour, or in the colour of the screen.
#[derive(Debug, Clone)]
pub struct PanelSpan {
    pub text: String,
    pub color: Option<ScreenColor>,
}

/// What a `PanelSpan` holds.
pub struct SpanView {
    pub text: Seq<char>,
    pub color: Option<ScreenColor>,
}

impl View for PanelSpan {
    type V = SpanView;

    open spec fn view(&self) -> SpanView {
        SpanView { text: self.text@, color: self.color }
    }
}

/// A line of the panel.
#[derive(Debug, Clone)]
pub struct PanelLine {
    pub spans: Vec<PanelSpan>,
}

impl View for PanelLine {
    type V = Seq<SpanView>;

    open spec fn view(&self) -> Seq<SpanView> {
        Seq::new(self.spans@.len(), |i: int| self.spans@[i]@)
    }
}

/// The settings panel: its frame is highlighted where the panel is the
/// one that is picked.
#[derive(Debug, Clone)]
pub struct SettingsPanel {
    pub highlighted: bool,
    pub lines: Vec<PanelLine>,
}

/// What a `SettingsPanel` holds.
pub struct PanelView {
    pub highlighted: bool,
    pub lines: Seq<Seq<SpanView>>,
}

impl View for SettingsPanel {
    type V = PanelView;

    open spec fn view(&self) -> PanelView {
        PanelView {
            highlighted: self.highlighted,
            lines: Seq::new(self.lines@.len(), |i: int| self.lines@[i]@),
        }
    }
}

/// The name of a segment.
pub open spec fn segment_name_of(id: SegmentId) -> Seq<char> {
    match id {
        SegmentId::Model => "模型"@,
        SegmentId::Directory => "目录"@,
        SegmentId::Git => "Git"@,
        SegmentId::ContextWindow => "上下文窗口"@,
        SegmentId::Usage => "用量"@,
        SegmentId::Cost => "费用"@,
        SegmentId::Session => "会话"@,
        SegmentId::OutputStyle => "输出样式"@,
        SegmentId::Update => "更新"@,
        SegmentId::ByeByeCodeUsage => "88code 用量"@,
        SegmentId::ByeByeCodeSubscription => "88code 订阅"@,
        SegmentId::ByeByeCodeStatus => "88code 状态"@,
    }
}

/// The colour of the screen for one of the 16 colours; white for a number
/// that is none of them.
pub open spec fn screen_color16(c16: u8) -> ScreenColor {
    if c16 == 0 {
        ScreenColor::Black
    } else if c16 == 1 {
        ScreenColor::Red
    } else if c16 == 2 {
        ScreenColor::Green
    } else if c16 == 3 {
        ScreenColor::Yellow
    } else if c16 == 4 {
        ScreenColor::Blue
    } else if c16 == 5 {
        ScreenColor::Magenta
    } else if c16 == 6 {
        ScreenColor::Cyan
    } else if c16 == 7 {
        ScreenColor::White
    } else if c16 == 8 {
        ScreenColor::DarkGray
    } else if c16 == 9 {
        ScreenColor::LightRed
    } else if c16 == 10 {
        ScreenColor::LightGreen
    } else if c16 == 11 {
        ScreenColor::LightYellow
    } else if c16 == 12 {
        ScreenColor::LightBlue
    } else if c16 == 13 {
        ScreenColor::LightMagenta
    } else if c16 == 14 {
        ScreenColor::LightCyan
    } else if c16 == 15 {
        ScreenColor::Gray
    } else {
        ScreenColor::White
    }
}

/// The colour of the screen for a colour that may be unset; white for one
/// that is.
pub open spec fn screen_color_of(color: Option<AnsiColor>) -> ScreenColor {
    match color {
        Some(AnsiColor::Color16 { c16 }) => screen_color16(c16),
        Some(AnsiColor::Color256 { c256 }) => ScreenColor::Indexed(c256),
        Some(AnsiColor::Rgb { r, g, b }) => ScreenColor::Rgb(r, g, b),
        None => ScreenColor::White,
    }
}

/// The name of one of the 16 colours; `ANSI` and the number for a number
/// that is none of them.
pub open spec fn color16_name(c16: u8) -> Seq<char> {
    if c16 == 0 {
        "Black"@
    } else if c16 == 1 {
        "Red"@
    } else if c16 == 2 {
        "Green"@
    } else if c16 == 3 {
        "Yellow"@
    } else if c16 == 4 {
        "Blue"@
    } else if c16 == 5 {
        "Magenta"@
    } else if c16 == 6 {
        "Cyan"@
    } else if c16 == 7 {
        "White"@
    } else if c16 == 8 {
        "Dark Gray"@
    } else if c16 == 9 {
        "Light Red"@
    } else if c16 == 10 {
        "Light Green"@
    } else if c16 == 11 {
        "Light Yellow"@
    } else if c16 == 12 {
        "Light Blue"@
    } else if c16 == 13 {
        "Light Magenta"@
    } else if c16 == 14 {
        "Light Cyan"@
    } else if c16 == 15 {
        "Gray"@
    } else {
        "ANSI "@ + digits_of(c16 as nat)
    }
}

/// A colour in words; `unset` for a colour that is unset.
pub open spec fn color_description_of(color: Option<AnsiColor>, unset: Seq<char>) -> Seq<char> {
    match color {
        Some(AnsiColor::Color16 { c16 }) => color16_name(c16),
        Some(AnsiColor::Color256 { c256 }) => "256:"@ + digits_of(c256 as nat),
        Some(AnsiColor::Rgb { r, g, b }) => "RGB("@ + digits_of(r as nat) + ","@ + digits_of(
            g as nat,
        ) + ","@ + digits_of(b as nat) + ")"@,
        None => unset,
    }
}

/// A span of text in the colour of the screen.
pub open spec fn raw(text: Seq<char>) -> SpanView {
    SpanView { text, color: None }
}

/// A span of text in a colour.
pub open spec fn styled(text: Seq<char>, color: ScreenColor) -> SpanView {
    SpanView { text, color: Some(color) }
}

/// The line of a field: a mark where the field is the one that is picked,
/// blanks where it is not, and then what the field shows.
pub open spec fn field_line_of(picked: bool, content: Seq<SpanView>) -> Seq<SpanView> {
    seq![
        if picked {
            styled("▶ "@, ScreenColor::Cyan)
        } else {
            raw("  "@)
        },
    ] + content
}

/// The icon of a segment in a set of icons.
pub open spec fn icon_of(segment: SegmentSettingsView, mode: StyleMode) -> Seq<char> {
    match mode {
        StyleMode::Plain => segment.icon_plain,
        _ => segment.icon_nerd_font,
    }
}

/// The lines that show the settings of a segment. `on_field` tells of
/// each field whether it is the one that is picked.
pub open spec fn segment_lines(
    segment: SegmentSettingsView,
    mode: StyleMode,
    on_field: spec_fn(FieldSelection) -> bool,
) -> Seq<Seq<SpanView>> {
    seq![
        seq![raw(segment_name_of(segment.id) + " 状态段"@)],
        field_line_of(
            on_field(FieldSelection::Enabled),
            seq![
                raw(
                    "├─ 启用: "@ + (if segment.enabled {
                        "✓"@
                    } else {
                        "✗"@
                    }),
                ),
            ],
        ),
        field_line_of(
            on_field(FieldSelection::Icon),
            seq![
                raw("├─ 图标: "@),
                styled(icon_of(segment, mode), screen_color_of(segment.icon_color)),
            ],
        ),
        field_line_of(
            on_field(FieldSelection::IconColor),
            seq![
                raw(
                    "├─ 图标颜色: "@ + color_description_of(segment.icon_color, "Default"@)
                        + " "@,
                ),
                styled("██"@, screen_color_of(segment.icon_color)),
            ],
        ),
        field_line_of(
            on_field(FieldSelection::TextColor),
            seq![
                raw(
                    "├─ 文本颜色: "@ + color_description_of(segment.text_color, "Default"@)
                        + " "@,
                ),
                styled("██"@, screen_color_of(segment.text_color)),
            ],
        ),
        field_line_of(
            on_field(FieldSelection::BackgroundColor),
            seq![
                raw(
                    "├─ 背景颜色: "@ + color_description_of(segment.background_color, "None"@)
                        + " "@,
                ),
                if segment.background_color is Some {
                    styled("██"@, screen_color_of(segment.background_color))
                } else {
                    styled("--"@, ScreenColor::DarkGray)
                },
            ],
        ),
        field_line_of(
            on_field(FieldSelection::TextStyle),
            seq![
                raw(
                    "├─ 文本样式: 加粗 "@ + (if segment.text_bold {
                        "[✓]"@
                    } else {
                        "[ ]"@
                    }),
                ),
            ],
        ),
        field_line_of(
            on_field(FieldSelection::Options),
            seq![raw("└─ 选项: "@ + digits_of(segment.option_count) + " 项"@)],
        ),
    ]
}

/// Whether a field is the one that is picked: the settings panel is the
/// panel that is picked, and the field the field.
pub open spec fn picked(panel: Panel, field: FieldSelection) -> spec_fn(FieldSelection) -> bool {
    |f: FieldSelection| panel == Panel::Settings && field == f
}

/// The settings panel for the segment that is picked, or for none.
pub open spec fn panel_of(
    segment: Option<SegmentSettingsView>,
    mode: StyleMode,
    panel: Panel,
    field: FieldSelection,
) -> PanelView {
    PanelView {
        highlighted: panel == Panel::Settings,
        lines: match segment {
            Some(s) => segment_lines(s, mode, picked(panel, field)),
            None => seq![seq![raw("未选择状态段"@)]],
        },
    }
}

/// The name of a segment.
pub fn segment_name(id: SegmentId) -> (r: &'static str)
    ensures
        r@ == segment_name_of(id),
{
    match id {
        SegmentId::Model => "模型",
        SegmentId::Directory => "目录",
        SegmentId::Git => "Git",
        SegmentId::ContextWindow => "上下文窗口",
        SegmentId::Usage => "用量",
        SegmentId::Cost => "费用",
        SegmentId::Session => "会话",
        SegmentId::OutputStyle => "输出样式",
        SegmentId::Update => "更新",
        SegmentId::ByeByeCodeUsage => "88code 用量",
        SegmentId::ByeByeCodeSubscription => "88code 订阅",
        SegmentId::ByeByeCodeStatus => "88code 状态",
    }
}

/// The colour of the screen for a colour that may be unset.
pub fn screen_color(color: Option<AnsiColor>) -> (r: ScreenColor)
    ensures
        r == screen_color_of(color),
{
    match color {
        Some(AnsiColor::Color16 { c16 }) => {
            if c16 == 0 {
                ScreenColor::Black
            } else if c16 == 1 {
                ScreenColor::Red
            } else if c16 == 2 {
                ScreenColor::Green
            } else if c16 == 3 {
                ScreenColor::Yellow
            } else if c16 == 4 {
                ScreenColor::Blue
            } else if c16 == 5 {
                ScreenColor::Magenta
            } else if c16 == 6 {
                ScreenColor::Cyan
            } else if c16 == 7 {
                ScreenColor::White
            } else if c16 == 8 {
                ScreenColor::DarkGray
            } else if c16 == 9 {
                ScreenColor::LightRed
            } else if c16 == 10 {
                ScreenColor::LightGreen
            } else if c16 == 11 {
                ScreenColor::LightYellow
            } else if c16 == 12 {
                ScreenColor::LightBlue
            } else if c16 == 13 {
                ScreenColor::LightMagenta
            } else if c16 == 14 {
                ScreenColor::LightCyan
            } else if c16 == 15 {
                ScreenColor::Gray
            } else {
                ScreenColor::White
            }
        },
        Some(AnsiColor::Color256 { c256 }) => ScreenColor::Indexed(c256),
        Some(AnsiColor::Rgb { r, g, b }) => ScreenColor::Rgb(r, g, b),
        None => ScreenColor::White,
    }
}

/// The name of one of the 16 colours.
fn color16_text(c16: u8) -> (r: String)
    ensures
        r@ == color16_name(c16),
{
    if c16 == 0 {
        String::from_str("Black")
    } else if c16 == 1 {
        String::from_str("Red")
    } else if c16 == 2 {
        String::from_str("Green")
    } else if c16 == 3 {
        String::from_str("Yellow")
    } else if c16 == 4 {
        String::from_str("Blue")
    } else if c16 == 5 {
        String::from_str("Magenta")
    } else if c16 == 6 {
        String::from_str("Cyan")
    } else if c16 == 7 {
        String::from_str("White")
    } else if c16 == 8 {
        String::from_str("Dark Gray")
    } else if c16 == 9 {
        String::from_str("Light Red")
    } else if c16 == 10 {
        String::from_str("Light Green")
    } else if c16 == 11 {
        String::from_str("Light Yellow")
    } else if c16 == 12 {
        String::from_str("Light Blue")
    } else if c16 == 13 {
        String::from_str("Light Magenta")
    } else if c16 == 14 {
        String::from_str("Light Cyan")
    } else if c16 == 15 {
        String::from_str("Gray")
    } else {
        let mut text = String::from_str("ANSI ");
        push_digits(&mut text, c16 as u64);
        text
    }
}

/// A colour in words; `unset` for a colour that is unset.
pub fn color_description(color: Option<AnsiColor>, unset: &str) -> (r: String)
    ensures
        r@ == color_description_of(color, unset@),
{
    match color {
        Some(AnsiColor::Color16 { c16 }) => color16_text(c16),
        Some(AnsiColor::Color256 { c256 }) => {
            let mut text = String::from_str("256:");
            push_digits(&mut text, c256 as u64);
            text
        },
        Some(AnsiColor::Rgb { r, g, b }) => {
            let mut text = String::from_str("RGB(");
            push_digits(&mut text, r as u64);
            text.append(",");
            push_digits(&mut text, g as u64);
            text.append(",");
            push_digits(&mut text, b as u64);
            text.append(")");
            text
        },
        None => String::from_str(unset),
    }
}

/// A span of text in the colour of the screen.
fn raw_span(text: String) -> (r: PanelSpan)
    ensures
        r@ == raw(text@),
{
    PanelSpan { text, color: None }
}

/// A span of text in a colour.
fn styled_span(text: &str, color: ScreenColor) -> (r: PanelSpan)
    ensures
        r@ == styled(text@, color),
{
    PanelSpan { text: String::from_str(text), color: Some(color) }
}

/// The text `head`, then `tail`.
fn paired(head: &str, tail: &str) -> (r: String)
    ensures
        r@ == head@ + tail@,
{
    let mut text = String::from_str(head);
    text.append(tail);
    text
}

/// The text `head`, then `middle`, then `tail`.
fn joined(head: &str, middle: &str, tail: &str) -> (r: String)
    ensures
        r@ == head@ + middle@ + tail@,
{
    let mut text = String::from_str(head);
    text.append(middle);
    text.append(tail);
    text
}

/// The line of a field that shows one span.
fn field_line_one(picked: bool, first: PanelSpan) -> (r: PanelLine)
    ensures
        r@ == field_line_of(picked, seq![first@]),
{
    let mut spans: Vec<PanelSpan> = Vec::new();
    if picked {
        spans.push(styled_span("▶ ", ScreenColor::Cyan));
    } else {
        spans.push(raw_span(String::from_str("  ")));
    }
    spans.push(first);
    let line = PanelLine { spans };
    assert(line@ =~= field_line_of(picked, seq![first@]));
    line
}

/// The line of a field that shows two spans.
fn field_line_two(picked: bool, first: PanelSpan, second: PanelSpan) -> (r: PanelLine)
    ensures
        r@ == field_line_of(picked, seq![first@, second@]),
{
    let mut spans: Vec<PanelSpan> = Vec::new();
    if picked {
        spans.push(styled_span("▶ ", ScreenColor::Cyan));
    } else {
        spans.push(raw_span(String::from_str("  ")));
    }
    spans.push(first);
    spans.push(second);
    let line = PanelLine { spans };
    assert(line@ =~= field_line_of(picked, seq![first@, second@]));
    line
}

/// A line of one span of text in the colour of the screen.
fn plain_line(text: String) -> (r: PanelLine)
    ensures
        r@ == seq![raw(text@)],
{
    let mut spans: Vec<PanelSpan> = Vec::new();
    spans.push(raw_span(text));
    let line = PanelLine { spans };
    assert(line@ =~= seq![raw(text@)]);
    line
}

/// The line of a field that shows a colour: its name in words, and a
/// sample of it, or of what stands for a colour that is unset.
fn color_line(
    picked: bool,
    label: &str,
    color: Option<AnsiColor>,
    unset: &str,
    sample: PanelSpan,
) -> (r: PanelLine)
    ensures
        r@ == field_line_of(
            picked,
            seq![raw(label@ + color_description_of(color, unset@) + " "@), sample@],
        ),
{
    let words = color_description(color, unset);
    field_line_two(picked, raw_span(joined(label, words.as_str(), " ")), sample)
}

/// The panel that shows the settings of a segment.
#[derive(Default)]
pub struct SettingsComponent;

impl SettingsComponent {
    pub fn new() -> (r: Self) {
        SettingsComponent
    }

    /// The settings panel for the segment that is picked, `None` where none
    /// is: the name of the segment, and a line for each field, with a mark
    /// before the field that is picked.
    pub fn render(
        &self,
        segment: Option<&SegmentSettings>,
        mode: StyleMode,
        selected_panel: Panel,
        selected_field: FieldSelection,
    ) -> (r: SettingsPanel)
        ensures
            r@ == panel_of(
                match segment {
                    Some(s) => Some(s@),
                    None => None,
                },
                mode,
                selected_panel,
                selected_field,
            ),
    {
        let highlighted = selected_panel == Panel::Settings;
        let mut lines: Vec<PanelLine> = Vec::new();
        let s = match segment {
            Some(s) => s,
            None => {
                lines.push(plain_line(String::from_str("未选择状态段")));
                let panel = SettingsPanel { highlighted, lines };
                assert(panel@.lines =~= seq![seq![raw("未选择状态段"@)]]);
                return panel;
            },
        };
        let ghost on_field = picked(selected_panel, selected_field);
        let icon = match mode {
            StyleMode::Plain => s.icon_plain.as_str(),
            _ => s.icon_nerd_font.as_str(),
        };
        let mut counted = String::from_str("└─ 选项: ");
        push_digits(&mut counted, s.option_count as u64);
        counted.append(" 项");

        lines.push(plain_line(paired(segment_name(s.id), " 状态段")));
        lines.push(
            field_line_one(
                highlighted && selected_field == FieldSelection::Enabled,
                raw_span(
                    paired(
                        "├─ 启用: ",
                        if s.enabled {
                            "✓"
                        } else {
                            "✗"
                        },
                    ),
                ),
            ),
        );
        lines.push(
            field_line_two(
                highlighted && selected_field == FieldSelection::Icon,
                raw_span(String::from_str("├─ 图标: ")),
                styled_span(icon, screen_color(s.icon_color)),
            ),
        );
        lines.push(
            color_line(
                highlighted && selected_field == FieldSelection::IconColor,
                "├─ 图标颜色: ",
                s.icon_color,
                "Default",
                styled_span("██", screen_color(s.icon_color)),
            ),
        );
        lines.push(
            color_line(
                highlighted && selected_field == FieldSelection::TextColor,
                "├─ 文本颜色: ",
                s.text_color,
                "Default",
                styled_span("██", screen_color(s.text_color)),
            ),
        );
        lines.push(
            color_line(
                highlighted && selected_field == FieldSelection::BackgroundColor,
                "├─ 背景颜色: ",
                s.background_color,
                "None",
                if s.background_color.is_some() {
                    styled_span("██", screen_color(s.background_color))
                } else {
                    styled_span("--", ScreenColor::DarkGray)
                },
            ),
        );
        lines.push(
            field_line_one(
                highlighted && selected_field == FieldSelection::TextStyle,
                raw_span(
                    paired(
                        "├─ 文本样式: 加粗 ",
                        if s.text_bold {
                            "[✓]"
                        } else {
                            "[ ]"
                        },
                    ),
                ),
            ),
        );
        lines.push(
            field_line_one(
                highlighted && selected_field == FieldSelection::Options,
                raw_span(counted),
            ),
        );
        let panel = SettingsPanel { highlighted, lines };
        proof {
            let want = segment_lines(s@, mode, on_field);
            assert(panel@.lines.len() == 8);
            assert(panel@.lines[0] =~= want[0]);
            assert(panel@.lines[1] =~= want[1]);
            assert(panel@.lines[2] =~= want[2]);
            assert(panel@.lines[3] =~= want[3]);
            assert(panel@.lines[4] =~= want[4]);
            assert(panel@.lines[5] =~= want[5]);
            assert(panel@.lines[6] =~= want[6]);
            assert(panel@.lines[7] =~= want[7]);
            assert(panel@.lines =~= want);
        }
        panel
    }
}

} // verus!
