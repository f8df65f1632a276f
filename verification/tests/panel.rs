use byebyecode::config::{AnsiColor, SegmentId, SegmentSettings, StyleMode};
use byebyecode::ui::components::settings::{
    color_description, screen_color, segment_name, FieldSelection, Panel, PanelLine, ScreenColor,
    SettingsComponent,
};

fn settings() -> SegmentSettings {
    SegmentSettings {
        id: SegmentId::ByeByeCodeUsage,
        enabled: true,
        icon_plain: "$".to_string(),
        icon_nerd_font: "\u{f155}".to_string(),
        icon_color: Some(AnsiColor::Color16 { c16: 14 }),
        text_color: Some(AnsiColor::Rgb { r: 1, g: 20, b: 255 }),
        background_color: None,
        text_bold: false,
        option_count: 3,
    }
}

fn spans(line: &PanelLine) -> Vec<(String, Option<ScreenColor>)> {
    line.spans.iter().map(|s| (s.text.clone(), s.color)).collect()
}

fn raw(text: &str) -> (String, Option<ScreenColor>) {
    (text.to_string(), None)
}

fn styled(text: &str, color: ScreenColor) -> (String, Option<ScreenColor>) {
    (text.to_string(), Some(color))
}

#[test]
fn segment_names() {
    assert_eq!(segment_name(SegmentId::Model), "模型");
    assert_eq!(segment_name(SegmentId::Directory), "目录");
    assert_eq!(segment_name(SegmentId::Git), "Git");
    assert_eq!(segment_name(SegmentId::ContextWindow), "上下文窗口");
    assert_eq!(segment_name(SegmentId::Usage), "用量");
    assert_eq!(segment_name(SegmentId::Cost), "费用");
    assert_eq!(segment_name(SegmentId::Session), "会话");
    assert_eq!(segment_name(SegmentId::OutputStyle), "输出样式");
    assert_eq!(segment_name(SegmentId::Update), "更新");
    assert_eq!(segment_name(SegmentId::ByeByeCodeUsage), "88code 用量");
    assert_eq!(segment_name(SegmentId::ByeByeCodeSubscription), "88code 订阅");
    assert_eq!(segment_name(SegmentId::ByeByeCodeStatus), "88code 状态");
}

#[test]
fn screen_colours() {
    let named = [
        ScreenColor::Black,
        ScreenColor::Red,
        ScreenColor::Green,
        ScreenColor::Yellow,
        ScreenColor::Blue,
        ScreenColor::Magenta,
        ScreenColor::Cyan,
        ScreenColor::White,
        ScreenColor::DarkGray,
        ScreenColor::LightRed,
        ScreenColor::LightGreen,
        ScreenColor::LightYellow,
        ScreenColor::LightBlue,
        ScreenColor::LightMagenta,
        ScreenColor::LightCyan,
        ScreenColor::Gray,
    ];
    for (i, want) in named.iter().enumerate() {
        assert_eq!(screen_color(Some(AnsiColor::Color16 { c16: i as u8 })), *want);
    }
    assert_eq!(screen_color(Some(AnsiColor::Color16 { c16: 16 })), ScreenColor::White);
    assert_eq!(screen_color(Some(AnsiColor::Color256 { c256: 214 })), ScreenColor::Indexed(214));
    assert_eq!(
        screen_color(Some(AnsiColor::Rgb { r: 1, g: 2, b: 3 })),
        ScreenColor::Rgb(1, 2, 3)
    );
    assert_eq!(screen_color(None), ScreenColor::White);
}

#[test]
fn colour_descriptions() {
    let names = [
        "Black",
        "Red",
        "Green",
        "Yellow",
        "Blue",
        "Magenta",
        "Cyan",
        "White",
        "Dark Gray",
        "Light Red",
        "Light Green",
        "Light Yellow",
        "Light Blue",
        "Light Magenta",
        "Light Cyan",
        "Gray",
    ];
    for (i, want) in names.iter().enumerate() {
        assert_eq!(color_description(Some(AnsiColor::Color16 { c16: i as u8 }), "x"), *want);
    }
    assert_eq!(color_description(Some(AnsiColor::Color16 { c16: 16 }), "x"), "ANSI 16");
    assert_eq!(color_description(Some(AnsiColor::Color16 { c16: 255 }), "x"), "ANSI 255");
    assert_eq!(color_description(Some(AnsiColor::Color256 { c256: 0 }), "x"), "256:0");
    assert_eq!(color_description(Some(AnsiColor::Color256 { c256: 214 }), "x"), "256:214");
    assert_eq!(
        color_description(Some(AnsiColor::Rgb { r: 0, g: 20, b: 255 }), "x"),
        "RGB(0,20,255)"
    );
    assert_eq!(color_description(None, "Default"), "Default");
    assert_eq!(color_description(None, "None"), "None");
}

#[test]
fn panel_without_a_segment() {
    let panel = SettingsComponent::new().render(
        None,
        StyleMode::Plain,
        Panel::SegmentList,
        FieldSelection::Enabled,
    );
    assert!(!panel.highlighted);
    assert_eq!(panel.lines.len(), 1);
    assert_eq!(spans(&panel.lines[0]), vec![raw("未选择状态段")]);
    let panel =
        SettingsComponent.render(None, StyleMode::Plain, Panel::Settings, FieldSelection::Icon);
    assert!(panel.highlighted);
}

#[test]
fn panel_of_a_segment() {
    let s = settings();
    let panel = SettingsComponent::new().render(
        Some(&s),
        StyleMode::Plain,
        Panel::Settings,
        FieldSelection::IconColor,
    );
    assert!(panel.highlighted);
    assert_eq!(panel.lines.len(), 8);
    assert_eq!(spans(&panel.lines[0]), vec![raw("88code 用量 状态段")]);
    assert_eq!(spans(&panel.lines[1]), vec![raw("  "), raw("├─ 启用: ✓")]);
    assert_eq!(
        spans(&panel.lines[2]),
        vec![raw("  "), raw("├─ 图标: "), styled("$", ScreenColor::LightCyan)]
    );
    assert_eq!(
        spans(&panel.lines[3]),
        vec![
            styled("▶ ", ScreenColor::Cyan),
            raw("├─ 图标颜色: Light Cyan "),
            styled("██", ScreenColor::LightCyan)
        ]
    );
    assert_eq!(
        spans(&panel.lines[4]),
        vec![
            raw("  "),
            raw("├─ 文本颜色: RGB(1,20,255) "),
            styled("██", ScreenColor::Rgb(1, 20, 255))
        ]
    );
    assert_eq!(
        spans(&panel.lines[5]),
        vec![raw("  "), raw("├─ 背景颜色: None "), styled("--", ScreenColor::DarkGray)]
    );
    assert_eq!(spans(&panel.lines[6]), vec![raw("  "), raw("├─ 文本样式: 加粗 [ ]")]);
    assert_eq!(spans(&panel.lines[7]), vec![raw("  "), raw("└─ 选项: 3 项")]);
}

#[test]
fn panel_marks_nothing_when_another_panel_is_picked() {
    let mut s = settings();
    s.enabled = false;
    s.text_bold = true;
    s.icon_color = None;
    s.background_color = Some(AnsiColor::Color256 { c256: 7 });
    s.option_count = 0;
    let panel = SettingsComponent::new().render(
        Some(&s),
        StyleMode::Powerline,
        Panel::SegmentList,
        FieldSelection::Enabled,
    );
    assert!(!panel.highlighted);
    assert_eq!(spans(&panel.lines[1]), vec![raw("  "), raw("├─ 启用: ✗")]);
    assert_eq!(
        spans(&panel.lines[2]),
        vec![raw("  "), raw("├─ 图标: "), styled("\u{f155}", ScreenColor::White)]
    );
    assert_eq!(
        spans(&panel.lines[3]),
        vec![raw("  "), raw("├─ 图标颜色: Default "), styled("██", ScreenColor::White)]
    );
    assert_eq!(
        spans(&panel.lines[5]),
        vec![raw("  "), raw("├─ 背景颜色: 256:7 "), styled("██", ScreenColor::Indexed(7))]
    );
    assert_eq!(spans(&panel.lines[6]), vec![raw("  "), raw("├─ 文本样式: 加粗 [✓]")]);
    assert_eq!(spans(&panel.lines[7]), vec![raw("  "), raw("└─ 选项: 0 项")]);
    let nerd = SettingsComponent::new().render(
        Some(&s),
        StyleMode::NerdFont,
        Panel::Settings,
        FieldSelection::Options,
    );
    assert_eq!(spans(&nerd.lines[7]), vec![styled("▶ ", ScreenColor::Cyan), raw("└─ 选项: 0 项")]);
    assert_eq!(spans(&nerd.lines[1]), vec![raw("  "), raw("├─ 启用: ✗")]);
}
