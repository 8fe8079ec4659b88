use gtk_layout_inspector::style::{
    background_color_names, background_color_step, pick_background_color, rgb_to_hex, BackgroundStep,
    Rgb8,
};
use gtk_layout_inspector::traverse::{
    identify_widget, primary_class_of, Orientation, WidgetClass, WidgetNode, WidgetProps,
};
use gtk_layout_inspector::{dump_widget_tree, find_button_by_label, find_entry_by_placeholder};

fn props() -> WidgetProps {
    WidgetProps {
        title: None,
        orientation: Orientation::Other,
        text: String::new(),
        placeholder: None,
        label: None,
        active: false,
        expanded: false,
        revealed: false,
        spinning: false,
        uri: String::new(),
        percent: String::new(),
        value: String::new(),
        class_name: "GtkWidget".into(),
    }
}

fn node(classes: Vec<WidgetClass>, props: WidgetProps, children: Vec<WidgetNode>) -> WidgetNode {
    WidgetNode {
        classes,
        props,
        x: 1,
        y: 2,
        width: 3,
        height: 4,
        visible: true,
        sensitive: true,
        css_classes: Vec::new(),
        widget_name: String::new(),
        background_color: None,
        foreground_color: Some("#ffffff".into()),
        children,
    }
}

fn desc(classes: Vec<WidgetClass>, p: WidgetProps) -> String {
    identify_widget(&classes, &p).short_desc()
}

#[test]
fn identification_prefers_the_most_specific_class() {
    let mut p = props();
    p.title = Some("Main".into());
    assert_eq!(desc(vec![WidgetClass::Window, WidgetClass::ApplicationWindow], p), "Window \"Main\"");
    let mut p = props();
    p.label = Some("Bold".into());
    p.active = true;
    assert_eq!(
        desc(vec![WidgetClass::Button, WidgetClass::ToggleButton], p.clone()),
        "ToggleButton(on) \"Bold\""
    );
    assert_eq!(desc(vec![WidgetClass::Button], p), "Button \"Bold\"");
    let mut p = props();
    p.text = "query".into();
    p.placeholder = Some("Search".into());
    assert_eq!(desc(vec![WidgetClass::Entry, WidgetClass::SearchEntry], p.clone()), "SearchEntry");
    assert_eq!(desc(vec![WidgetClass::Entry], p), "Entry [Search]");
    assert_eq!(desc(vec![], props()), "GtkWidget");
    assert_eq!(desc(vec![WidgetClass::ComboBoxText], props()), "ComboBox");
    assert_eq!(primary_class_of(&vec![WidgetClass::Calendar, WidgetClass::Box]), Some(WidgetClass::Box));
    assert_eq!(primary_class_of(&vec![]), None);
}

#[test]
fn orientation_and_readings_are_rendered() {
    let mut p = props();
    p.orientation = Orientation::Horizontal;
    assert_eq!(desc(vec![WidgetClass::Box], p.clone()), "Box(horizontal)");
    p.orientation = Orientation::Other;
    assert_eq!(desc(vec![WidgetClass::Paned], p), "Paned(unknown)");
    let mut p = props();
    p.percent = "42".into();
    assert_eq!(desc(vec![WidgetClass::ProgressBar], p.clone()), "ProgressBar(42%)");
    assert_eq!(desc(vec![WidgetClass::LevelBar], p), "LevelBar(42%)");
    let mut p = props();
    p.value = "7.5".into();
    assert_eq!(desc(vec![WidgetClass::Scale], p.clone()), "Scale(7.5)");
    assert_eq!(desc(vec![WidgetClass::SpinButton], p), "SpinButton(7.5)");
}

fn sample_tree() -> WidgetNode {
    let mut save = props();
    save.label = Some("Save changes".into());
    let mut email = props();
    email.placeholder = Some("Email address".into());
    let mut title = props();
    title.title = Some("App".into());
    let mut column = props();
    column.orientation = Orientation::Vertical;
    let mut named = node(vec![WidgetClass::Box], column, vec![
        node(vec![WidgetClass::Entry], email, vec![]),
        node(vec![WidgetClass::Button], save, vec![]),
    ]);
    named.widget_name = "form".into();
    node(vec![WidgetClass::Window], title, vec![named, node(vec![WidgetClass::Separator], props(), vec![])])
}

#[test]
fn dump_lists_widgets_in_preorder_with_depths() {
    let tree = sample_tree();
    let dump = dump_widget_tree(&tree);
    assert_eq!(dump.len(), 5);
    let depths: Vec<usize> = dump.entries.iter().map(|e| e.depth).collect();
    assert_eq!(depths, vec![0, 1, 2, 2, 1]);
    assert_eq!(
        dump.entries[1].format_line(),
        "  Box(vertical) @ (1, 2) 3x4 #form fg:#ffffff"
    );
    assert_eq!(dump.entries[0].widget_name, None);
    assert_eq!(
        dump.to_text(),
        "=== GTK Layout Dump (5 widgets) ===\n\
Window \"App\" @ (1, 2) 3x4 fg:#ffffff\n  \
Box(vertical) @ (1, 2) 3x4 #form fg:#ffffff\n    \
Entry [Email address] @ (1, 2) 3x4 fg:#ffffff\n    \
Button \"Save changes\" @ (1, 2) 3x4 fg:#ffffff\n  \
Separator @ (1, 2) 3x4 fg:#ffffff\n"
    );
}

#[test]
fn finds_return_preorder_positions() {
    let tree = sample_tree();
    assert_eq!(find_button_by_label(&tree, "Save"), Some(3));
    assert_eq!(find_button_by_label(&tree, "Cancel"), None);
    assert_eq!(find_entry_by_placeholder(&tree, "Email"), Some(2));
    assert_eq!(find_entry_by_placeholder(&tree, "Phone"), None);
    assert_eq!(find_button_by_label(&tree, ""), Some(3));
}

#[test]
fn colors_render_as_hex_and_background_takes_first_named_color() {
    assert_eq!(rgb_to_hex(Rgb8 { red: 0x1e, green: 0x1e, blue: 0x2e }), "#1e1e2e");
    assert_eq!(rgb_to_hex(Rgb8 { red: 255, green: 0, blue: 9 }), "#ff0009");
    let names = background_color_names();
    assert_eq!(names.len(), 14);
    assert_eq!(names[0], "window_bg_color");
    let fg = Some(Rgb8 { red: 0xdd, green: 0xee, blue: 0xff });
    let mut found = vec![None; 14];
    assert_eq!(pick_background_color(&found, None), None);
    assert_eq!(pick_background_color(&found, fg), Some("#ddeeff".to_string()));
    found[3] = Some(Rgb8 { red: 1, green: 2, blue: 3 });
    found[9] = Some(Rgb8 { red: 4, green: 5, blue: 6 });
    assert_eq!(pick_background_color(&found, fg), Some("#010203".to_string()));
    assert_eq!(background_color_step(0, None, fg), BackgroundStep::LookUp(1));
    assert_eq!(
        background_color_step(5, Some(Rgb8 { red: 0x1e, green: 0x1e, blue: 0x2e }), fg),
        BackgroundStep::Done(Some("#1e1e2e".to_string()))
    );
    assert_eq!(background_color_step(13, None, fg), BackgroundStep::Done(Some("#ddeeff".to_string())));
    assert_eq!(background_color_step(13, None, None), BackgroundStep::Done(None));
}
