use gtk_layout_inspector::output::truncate_str;
use gtk_layout_inspector::{LayoutDump, LayoutEntry, WidgetInfo};

fn entry(info: WidgetInfo) -> LayoutEntry {
    LayoutEntry {
        depth: 0,
        info,
        x: 10,
        y: 20,
        width: 300,
        height: 40,
        visible: true,
        sensitive: true,
        css_classes: Vec::new(),
        widget_name: None,
        background_color: None,
        foreground_color: None,
    }
}

fn assert_short_desc(info: WidgetInfo, expected: &str) {
    assert_eq!(info.short_desc(), expected);
}

/// Whole-number percentage text, as a progress or level bar reading is shown.
fn percent(fraction: f64) -> String {
    format!("{:.0}", fraction * 100.0)
}

/// One-decimal text, as a scale or spin button reading is shown.
fn one_decimal(value: f64) -> String {
    format!("{:.1}", value)
}

#[test]
fn short_desc_formats_labeled_text_and_contextual_widgets() {
    assert_short_desc(WidgetInfo::Window { title: None }, "Window");
    assert_short_desc(
        WidgetInfo::Window {
            title: Some("Preferences".into()),
        },
        "Window \"Preferences\"",
    );
    assert_short_desc(
        WidgetInfo::Button {
            label: Some("Save".into()),
        },
        "Button \"Save\"",
    );
    assert_short_desc(
        WidgetInfo::Label {
            text: "abcdefghijklmnopqrstuvwxyzABCDEFGHIJKLMNOPQRSTUVWXYZ0123456789".into(),
        },
        "Label \"abcdefghijklmnopqrstuvwxyzABCDEFGHIJKLMNOPQRSTUVWXYZ01234...\"",
    );
    assert_short_desc(
        WidgetInfo::Label {
            text: "éclair".into(),
        },
        "Label \"éclair\"",
    );
    assert_short_desc(
        WidgetInfo::Entry {
            text: "typed".into(),
            placeholder: Some("Email".into()),
        },
        "Entry [Email]",
    );
    assert_short_desc(
        WidgetInfo::Entry {
            text: "typed".into(),
            placeholder: None,
        },
        "Entry",
    );
    assert_short_desc(
        WidgetInfo::StackPage {
            name: Some("main".into()),
        },
        "StackPage \"main\"",
    );
    assert_short_desc(WidgetInfo::Frame { label: None }, "Frame");
    assert_short_desc(
        WidgetInfo::LinkButton {
            uri: "https://example.com".into(),
            label: Some("Docs".into()),
        },
        "LinkButton \"Docs\"",
    );
    assert_short_desc(
        WidgetInfo::LinkButton {
            uri: "https://example.com".into(),
            label: None,
        },
        "LinkButton",
    );
}

#[test]
fn short_desc_formats_stateful_widgets() {
    assert_short_desc(WidgetInfo::Spinner { spinning: true }, "Spinner(on)");
    assert_short_desc(WidgetInfo::Spinner { spinning: false }, "Spinner(off)");
    assert_short_desc(
        WidgetInfo::ProgressBar { percent: percent(0.42) },
        "ProgressBar(42%)",
    );
    assert_short_desc(WidgetInfo::LevelBar { percent: percent(0.95) }, "LevelBar(95%)");
    assert_short_desc(WidgetInfo::Scale { value: one_decimal(12.345) }, "Scale(12.3)");
    assert_short_desc(WidgetInfo::SpinButton { value: one_decimal(7.89) }, "SpinButton(7.9)");
    assert_short_desc(WidgetInfo::Switch { active: true }, "Switch(on)");
    assert_short_desc(
        WidgetInfo::CheckButton {
            active: false,
            label: Some("Remember".into()),
        },
        "CheckButton [ ] \"Remember\"",
    );
    assert_short_desc(
        WidgetInfo::ToggleButton {
            active: true,
            label: None,
        },
        "ToggleButton(on)",
    );
    assert_short_desc(
        WidgetInfo::Expander {
            expanded: false,
            label: Some("Advanced".into()),
        },
        "Expander(closed) \"Advanced\"",
    );
    assert_short_desc(WidgetInfo::Revealer { revealed: true }, "Revealer(shown)");
    assert_short_desc(WidgetInfo::Revealer { revealed: false }, "Revealer(hidden)");
}

#[test]
fn short_desc_covers_simple_and_unknown_widgets() {
    let cases = [
        (
            WidgetInfo::Box {
                orientation: "horizontal".into(),
            },
            "Box(horizontal)",
        ),
        (
            WidgetInfo::Paned {
                orientation: "vertical".into(),
            },
            "Paned(vertical)",
        ),
        (
            WidgetInfo::TextView {
                text: "ignored".into(),
            },
            "TextView",
        ),
        (WidgetInfo::ScrolledWindow, "ScrolledWindow"),
        (WidgetInfo::ListBox, "ListBox"),
        (WidgetInfo::ListBoxRow, "ListBoxRow"),
        (WidgetInfo::Stack, "Stack"),
        (
            WidgetInfo::HeaderBar {
                title: Some("Title".into()),
            },
            "HeaderBar \"Title\"",
        ),
        (WidgetInfo::Notebook, "Notebook"),
        (WidgetInfo::Grid, "Grid"),
        (WidgetInfo::FlowBox, "FlowBox"),
        (WidgetInfo::Picture, "Picture"),
        (WidgetInfo::Image, "Image"),
        (WidgetInfo::ComboBox, "ComboBox"),
        (WidgetInfo::DropDown, "DropDown"),
        (WidgetInfo::Popover, "Popover"),
        (WidgetInfo::MenuButton { label: None }, "MenuButton"),
        (WidgetInfo::Separator, "Separator"),
        (WidgetInfo::AspectFrame, "AspectFrame"),
        (WidgetInfo::Overlay, "Overlay"),
        (WidgetInfo::Fixed, "Fixed"),
        (WidgetInfo::DrawingArea, "DrawingArea"),
        (WidgetInfo::GLArea, "GLArea"),
        (WidgetInfo::Video, "Video"),
        (WidgetInfo::MediaControls, "MediaControls"),
        (WidgetInfo::Calendar, "Calendar"),
        (WidgetInfo::ColorButton, "ColorButton"),
        (WidgetInfo::FontButton, "FontButton"),
        (
            WidgetInfo::SearchEntry {
                text: "ignored".into(),
            },
            "SearchEntry",
        ),
        (WidgetInfo::PasswordEntry, "PasswordEntry"),
        (
            WidgetInfo::Unknown {
                class_name: "CustomWidget".into(),
            },
            "CustomWidget",
        ),
    ];

    for (info, expected) in cases {
        assert_short_desc(info, expected);
    }
}

#[test]
fn format_line_includes_geometry_state_classes_names_and_colors() {
    let formatted = LayoutEntry {
        depth: 2,
        info: WidgetInfo::Button {
            label: Some("Run".into()),
        },
        x: 10,
        y: 20,
        width: 300,
        height: 40,
        visible: false,
        sensitive: false,
        css_classes: vec!["suggested-action".into(), "pill".into()],
        widget_name: Some("run-button".into()),
        background_color: Some("#112233".into()),
        foreground_color: Some("#ddeeff".into()),
    }
    .format_line();

    assert_eq!(
        formatted,
        "    Button \"Run\" @ (10, 20) 300x40 [hidden] [insensitive] .suggested-action.pill #run-button bg:#112233 fg:#ddeeff"
    );
}

#[test]
fn dump_collects_formats_serializes_and_searches_entries() {
    let mut dump = LayoutDump::new();
    assert!(dump.is_empty());

    dump.push(entry(WidgetInfo::Button {
        label: Some("Save changes".into()),
    }));
    dump.push(entry(WidgetInfo::Entry {
        text: "typed".into(),
        placeholder: Some("Email address".into()),
    }));
    dump.push(entry(WidgetInfo::Label {
        text: "Status".into(),
    }));

    assert_eq!(dump.len(), 3);
    assert!(!dump.is_empty());
    assert_eq!(dump.find_buttons("Save").len(), 1);
    assert_eq!(dump.find_entries("Email").len(), 1);
    assert_eq!(dump.find(|entry| entry.width == 300).len(), 3);

    let text = dump.to_text();
    assert!(text.starts_with("=== GTK Layout Dump (3 widgets) ==="));
    assert!(text.contains("Button \"Save changes\" @ (10, 20) 300x40"));
    assert!(text.contains("Entry [Email address] @ (10, 20) 300x40"));
}

#[test]
fn default_dump_is_empty() {
    let dump = LayoutDump::default();
    assert_eq!(dump.len(), 0);
    assert!(dump.is_empty());
}

#[test]
fn truncate_keeps_text_at_the_limit_and_cuts_longer_text() {
    assert_eq!(truncate_str("abcdef", 6), "abcdef");
    assert_eq!(truncate_str("abcdefg", 6), "abc...");
    assert_eq!(truncate_str("", 0), "");
    assert_eq!(truncate_str("héllo wörld", 8), "héllo...");
}

#[test]
fn truncated_label_has_exactly_sixty_characters() {
    let long: String = "é".repeat(61);
    let desc = WidgetInfo::Label { text: long }.short_desc();
    let inner = desc.trim_start_matches("Label \"").trim_end_matches('"');
    assert_eq!(inner.chars().count(), 60);
    assert!(inner.ends_with("..."));
    let exact: String = "x".repeat(60);
    assert_eq!(
        WidgetInfo::Label { text: exact.clone() }.short_desc(),
        format!("Label \"{}\"", exact)
    );
}

#[test]
fn format_line_of_plain_entry_has_no_markers() {
    let mut e = entry(WidgetInfo::Grid);
    e.x = -5;
    e.y = 0;
    e.width = 0;
    e.height = -2147483648;
    assert_eq!(e.format_line(), "Grid @ (-5, 0) 0x-2147483648");
    e.depth = 1;
    e.css_classes = vec!["only".into()];
    assert_eq!(e.format_line(), "  Grid @ (-5, 0) 0x-2147483648 .only");
}

#[test]
fn text_dump_has_header_then_one_line_per_entry() {
    let mut dump = LayoutDump::new();
    assert_eq!(dump.to_text(), "=== GTK Layout Dump (0 widgets) ===\n");
    dump.push(entry(WidgetInfo::Stack));
    let mut child = entry(WidgetInfo::Switch { active: false });
    child.depth = 1;
    dump.push(child);
    assert_eq!(
        dump.to_text(),
        "=== GTK Layout Dump (2 widgets) ===\nStack @ (10, 20) 300x40\n  Switch(off) @ (10, 20) 300x40\n"
    );
}

#[test]
fn searches_match_substrings_and_keep_order() {
    let mut dump = LayoutDump::new();
    dump.push(entry(WidgetInfo::Button { label: Some("Open file".into()) }));
    dump.push(entry(WidgetInfo::Button { label: None }));
    dump.push(entry(WidgetInfo::MenuButton { label: Some("Open".into()) }));
    dump.push(entry(WidgetInfo::Button { label: Some("Reopen".into()) }));
    dump.push(entry(WidgetInfo::Entry { text: "Open".into(), placeholder: None }));
    let found = dump.find_buttons("Open");
    assert_eq!(found.len(), 1);
    assert_eq!(found[0].info.short_desc(), "Button \"Open file\"");
    let found = dump.find_buttons("open");
    assert_eq!(found.len(), 1);
    assert_eq!(found[0].info.short_desc(), "Button \"Reopen\"");
    assert_eq!(dump.find_buttons("").len(), 2);
    assert_eq!(dump.find_entries("").len(), 0);
    let wide = dump.find(|e| matches!(e.info, WidgetInfo::Button { .. }));
    assert_eq!(wide.len(), 3);
}
