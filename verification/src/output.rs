//! Layout dump output format.

use vstd::prelude::*;
use vstd::string::*;

use crate::text::{
    contains_str, decimal, has_substring, occurs_at, push_char, push_decimal, push_signed, push_str,
    repeat_char, signed_decimal,
};

verus! {

/// The text `s` cut to `max_chars` characters: kept whole when it fits,
/// otherwise its first `max_chars - 3` characters followed by "...".
pub open spec fn truncated(s: Seq<char>, max_chars: nat) -> Seq<char> {
    if s.len() <= max_chars {
        s
    } else {
        s.take(max_chars - 3) + "..."@
    }
}

/// Truncate a string to max_chars, adding "..." if truncated.
/// Counts characters, not bytes, so multi-byte UTF-8 text is cut between
/// characters.
pub fn truncate_str(s: &str, max_chars: usize) -> (r: String)
    requires
        s@.len() <= max_chars || max_chars >= 3,
    ensures
        r@ == truncated(s@, max_chars as nat),
{
    let char_count = s.unicode_len();
    if char_count <= max_chars {
        String::from_str(s)
    } else {
        let head = s.substring_char(0, max_chars - 3);
        let mut r = String::from_str(head);
        push_str(&mut r, "...");
        assert(s@.subrange(0, max_chars - 3) =~= s@.take(max_chars - 3));
        r
    }
}

/// A truncated text never exceeds the limit; a text within the limit is kept
/// as it is, and a longer one keeps its first `max_chars - 3` characters.
pub proof fn lemma_truncated_within_limit(s: Seq<char>, max_chars: nat)
    requires
        s.len() <= max_chars || max_chars >= 3,
    ensures
        truncated(s, max_chars).len() <= max_chars,
        s.len() <= max_chars ==> truncated(s, max_chars) == s,
        s.len() > max_chars ==> truncated(s, max_chars).len() == max_chars
            && truncated(s, max_chars).take(max_chars - 3) == s.take(max_chars - 3),
{
    reveal_strlit("...");
    if s.len() > max_chars {
        let t = truncated(s, max_chars);
        assert(t.take(max_chars - 3) =~= s.take(max_chars - 3));
    }
}

/// The longest label text shown in a short description.
pub const LABEL_MAX_CHARS: usize = 60;

/// Information about a widget's type and content.
///
/// Numeric readings (progress, level, scale and spin button values) are held
/// as the decimal text they are displayed with: percentages rounded to whole
/// numbers, other values to one decimal place.
#[derive(Debug, Clone)]
pub enum WidgetInfo {
    Window { title: Option<String> },
    Box { orientation: String },
    Button { label: Option<String> },
    Label { text: String },
    Entry { text: String, placeholder: Option<String> },
    TextView { text: String },
    ScrolledWindow,
    ListBox,
    ListBoxRow,
    Stack,
    StackPage { name: Option<String> },
    HeaderBar { title: Option<String> },
    Paned { orientation: String },
    Notebook,
    Grid,
    FlowBox,
    Picture,
    Image,
    Spinner { spinning: bool },
    /// Progress as a whole-number percentage, e.g. "42".
    ProgressBar { percent: String },
    /// Value with one decimal place, e.g. "12.3".
    Scale { value: String },
    Switch { active: bool },
    CheckButton { active: bool, label: Option<String> },
    ToggleButton { active: bool, label: Option<String> },
    ComboBox,
    DropDown,
    Popover,
    MenuButton { label: Option<String> },
    Revealer { revealed: bool },
    Expander { expanded: bool, label: Option<String> },
    Separator,
    Frame { label: Option<String> },
    AspectFrame,
    Overlay,
    Fixed,
    DrawingArea,
    GLArea,
    Video,
    MediaControls,
    Calendar,
    ColorButton,
    FontButton,
    LinkButton { uri: String, label: Option<String> },
    /// Level as a whole-number percentage, e.g. "95".
    LevelBar { percent: String },
    SearchEntry { text: String },
    PasswordEntry,
    /// Value with one decimal place, e.g. "7.9".
    SpinButton { value: String },
    /// Unknown widget type - includes the GTK type name
    Unknown { class_name: String },
}

/// `kind`, followed by the quoted text when there is one: `Kind "text"`.
pub open spec fn kind_quoted(kind: Seq<char>, text: Option<String>) -> Seq<char> {
    match text {
        None => kind,
        Some(t) => kind + " \""@ + t@ + "\""@,
    }
}

/// `kind(inner)`.
pub open spec fn kind_paren(kind: Seq<char>, inner: Seq<char>) -> Seq<char> {
    kind + "("@ + inner + ")"@
}

pub open spec fn on_off(b: bool) -> Seq<char> {
    if b {
        "on"@
    } else {
        "off"@
    }
}

/// The short description of a widget.
pub open spec fn short_desc_spec(info: WidgetInfo) -> Seq<char> {
    match info {
        WidgetInfo::Window { title } => kind_quoted("Window"@, title),
        WidgetInfo::Box { orientation } => kind_paren("Box"@, orientation@),
        WidgetInfo::Button { label } => kind_quoted("Button"@, label),
        WidgetInfo::Label { text } => "Label \""@ + truncated(text@, LABEL_MAX_CHARS as nat) + "\""@,
        WidgetInfo::Entry { placeholder, .. } => match placeholder {
            None => "Entry"@,
            Some(p) => "Entry ["@ + p@ + "]"@,
        },
        WidgetInfo::TextView { .. } => "TextView"@,
        WidgetInfo::ScrolledWindow => "ScrolledWindow"@,
        WidgetInfo::ListBox => "ListBox"@,
        WidgetInfo::ListBoxRow => "ListBoxRow"@,
        WidgetInfo::Stack => "Stack"@,
        WidgetInfo::StackPage { name } => kind_quoted("StackPage"@, name),
        WidgetInfo::HeaderBar { title } => kind_quoted("HeaderBar"@, title),
        WidgetInfo::Paned { orientation } => kind_paren("Paned"@, orientation@),
        WidgetInfo::Notebook => "Notebook"@,
        WidgetInfo::Grid => "Grid"@,
        WidgetInfo::FlowBox => "FlowBox"@,
        WidgetInfo::Picture => "Picture"@,
        WidgetInfo::Image => "Image"@,
        WidgetInfo::Spinner { spinning } => kind_paren("Spinner"@, on_off(spinning)),
        WidgetInfo::ProgressBar { percent } => kind_paren("ProgressBar"@, percent@ + "%"@),
        WidgetInfo::Scale { value } => kind_paren("Scale"@, value@),
        WidgetInfo::Switch { active } => kind_paren("Switch"@, on_off(active)),
        WidgetInfo::CheckButton { active, label } => kind_quoted(
            "CheckButton "@ + (if active {
                "[x]"@
            } else {
                "[ ]"@
            }),
            label,
        ),
        WidgetInfo::ToggleButton { active, label } => kind_quoted(
            kind_paren("ToggleButton"@, on_off(active)),
            label,
        ),
        WidgetInfo::ComboBox => "ComboBox"@,
        WidgetInfo::DropDown => "DropDown"@,
        WidgetInfo::Popover => "Popover"@,
        WidgetInfo::MenuButton { label } => kind_quoted("MenuButton"@, label),
        WidgetInfo::Revealer { revealed } => kind_paren(
            "Revealer"@,
            if revealed {
                "shown"@
            } else {
                "hidden"@
            },
        ),
        WidgetInfo::Expander { expanded, label } => kind_quoted(
            kind_paren(
                "Expander"@,
                if expanded {
                    "open"@
                } else {
                    "closed"@
                },
            ),
            label,
        ),
        WidgetInfo::Separator => "Separator"@,
        WidgetInfo::Frame { label } => kind_quoted("Frame"@, label),
        WidgetInfo::AspectFrame => "AspectFrame"@,
        WidgetInfo::Overlay => "Overlay"@,
        WidgetInfo::Fixed => "Fixed"@,
        WidgetInfo::DrawingArea => "DrawingArea"@,
        WidgetInfo::GLArea => "GLArea"@,
        WidgetInfo::Video => "Video"@,
        WidgetInfo::MediaControls => "MediaControls"@,
        WidgetInfo::Calendar => "Calendar"@,
        WidgetInfo::ColorButton => "ColorButton"@,
        WidgetInfo::FontButton => "FontButton"@,
        WidgetInfo::LinkButton { label, .. } => kind_quoted("LinkButton"@, label),
        WidgetInfo::LevelBar { percent } => kind_paren("LevelBar"@, percent@ + "%"@),
        WidgetInfo::SearchEntry { .. } => "SearchEntry"@,
        WidgetInfo::PasswordEntry => "PasswordEntry"@,
        WidgetInfo::SpinButton { value } => kind_paren("SpinButton"@, value@),
        WidgetInfo::Unknown { class_name } => class_name@,
    }
}

fn quoted_kind(kind: &str, text: &Option<String>) -> (s: String)
    ensures
        s@ == kind_quoted(kind@, *text),
{
    let mut s = String::from_str(kind);
    match text {
        None => {},
        Some(t) => {
            push_str(&mut s, " \"");
            push_str(&mut s, t.as_str());
            push_str(&mut s, "\"");
        },
    }
    s
}

fn paren_kind(kind: &str, inner: &str) -> (s: String)
    ensures
        s@ == kind_paren(kind@, inner@),
{
    let mut s = String::from_str(kind);
    push_str(&mut s, "(");
    push_str(&mut s, inner);
    push_str(&mut s, ")");
    s
}

fn on_off_str(b: bool) -> (s: &'static str)
    ensures
        s@ == on_off(b),
{
    if b {
        "on"
    } else {
        "off"
    }
}

fn percent_text(n: &String) -> (s: String)
    ensures
        s@ == n@ + "%"@,
{
    let mut s = n.clone();
    push_str(&mut s, "%");
    s
}

impl WidgetInfo {
    /// Get a short description for display.
    pub fn short_desc(&self) -> (s: String)
        ensures
            s@ == short_desc_spec(*self),
    {
        match self {
            WidgetInfo::Window { title } => quoted_kind("Window", title),
            WidgetInfo::Box { orientation } => paren_kind("Box", orientation.as_str()),
            WidgetInfo::Button { label } => quoted_kind("Button", label),
            WidgetInfo::Label { text } => {
                let t = truncate_str(text.as_str(), LABEL_MAX_CHARS);
                let mut s = String::from_str("Label \"");
                push_str(&mut s, t.as_str());
                push_str(&mut s, "\"");
                s
            },
            WidgetInfo::Entry { placeholder, .. } => match placeholder {
                None => String::from_str("Entry"),
                Some(p) => {
                    let mut s = String::from_str("Entry [");
                    push_str(&mut s, p.as_str());
                    push_str(&mut s, "]");
                    s
                },
            },
            WidgetInfo::TextView { .. } => String::from_str("TextView"),
            WidgetInfo::ScrolledWindow => String::from_str("ScrolledWindow"),
            WidgetInfo::ListBox => String::from_str("ListBox"),
            WidgetInfo::ListBoxRow => String::from_str("ListBoxRow"),
            WidgetInfo::Stack => String::from_str("Stack"),
            WidgetInfo::StackPage { name } => quoted_kind("StackPage", name),
            WidgetInfo::HeaderBar { title } => quoted_kind("HeaderBar", title),
            WidgetInfo::Paned { orientation } => paren_kind("Paned", orientation.as_str()),
            WidgetInfo::Notebook => String::from_str("Notebook"),
            WidgetInfo::Grid => String::from_str("Grid"),
            WidgetInfo::FlowBox => String::from_str("FlowBox"),
            WidgetInfo::Picture => String::from_str("Picture"),
            WidgetInfo::Image => String::from_str("Image"),
            WidgetInfo::Spinner { spinning } => paren_kind("Spinner", on_off_str(*spinning)),
            WidgetInfo::ProgressBar { percent } => {
                let p = percent_text(percent);
                paren_kind("ProgressBar", p.as_str())
            },
            WidgetInfo::Scale { value } => paren_kind("Scale", value.as_str()),
            WidgetInfo::Switch { active } => paren_kind("Switch", on_off_str(*active)),
            WidgetInfo::CheckButton { active, label } => {
                let mut kind = String::from_str("CheckButton ");
                push_str(
                    &mut kind,
                    if *active {
                        "[x]"
                    } else {
                        "[ ]"
                    },
                );
                quoted_kind(kind.as_str(), label)
            },
            WidgetInfo::ToggleButton { active, label } => {
                let kind = paren_kind("ToggleButton", on_off_str(*active));
                quoted_kind(kind.as_str(), label)
            },
            WidgetInfo::ComboBox => String::from_str("ComboBox"),
            WidgetInfo::DropDown => String::from_str("DropDown"),
            WidgetInfo::Popover => String::from_str("Popover"),
            WidgetInfo::MenuButton { label } => quoted_kind("MenuButton", label),
            WidgetInfo::Revealer { revealed } => paren_kind(
                "Revealer",
                if *revealed {
                    "shown"
                } else {
                    "hidden"
                },
            ),
            WidgetInfo::Expander { expanded, label } => {
                let kind = paren_kind(
                    "Expander",
                    if *expanded {
                        "open"
                    } else {
                        "closed"
                    },
                );
                quoted_kind(kind.as_str(), label)
            },
            WidgetInfo::Separator => String::from_str("Separator"),
            WidgetInfo::Frame { label } => quoted_kind("Frame", label),
            WidgetInfo::AspectFrame => String::from_str("AspectFrame"),
            WidgetInfo::Overlay => String::from_str("Overlay"),
            WidgetInfo::Fixed => String::from_str("Fixed"),
            WidgetInfo::DrawingArea => String::from_str("DrawingArea"),
            WidgetInfo::GLArea => String::from_str("GLArea"),
            WidgetInfo::Video => String::from_str("Video"),
            WidgetInfo::MediaControls => String::from_str("MediaControls"),
            WidgetInfo::Calendar => String::from_str("Calendar"),
            WidgetInfo::ColorButton => String::from_str("ColorButton"),
            WidgetInfo::FontButton => String::from_str("FontButton"),
            WidgetInfo::LinkButton { label, .. } => quoted_kind("LinkButton", label),
            WidgetInfo::LevelBar { percent } => {
                let p = percent_text(percent);
                paren_kind("LevelBar", p.as_str())
            },
            WidgetInfo::SearchEntry { .. } => String::from_str("SearchEntry"),
            WidgetInfo::PasswordEntry => String::from_str("PasswordEntry"),
            WidgetInfo::SpinButton { value } => paren_kind("SpinButton", value.as_str()),
            WidgetInfo::Unknown { class_name } => class_name.clone(),
        }
    }
}

/// A single entry in the layout dump.
#[derive(Debug, Clone)]
pub struct LayoutEntry {
    pub depth: usize,
    pub info: WidgetInfo,
    pub x: i32,
    pub y: i32,
    pub width: i32,
    pub height: i32,
    pub visible: bool,
    pub sensitive: bool,
    pub css_classes: Vec<String>,
    pub widget_name: Option<String>,
    /// Background color as hex (e.g., "#1e1e2e") if available
    pub background_color: Option<String>,
    /// Foreground/text color as hex (e.g., "#ffffff") if available
    pub foreground_color: Option<String>,
}

/// The items of `list` with `sep` between consecutive ones.
pub open spec fn join(list: Seq<Seq<char>>, sep: Seq<char>) -> Seq<char>
    decreases list.len(),
{
    if list.len() == 0 {
        Seq::empty()
    } else if list.len() == 1 {
        list[0]
    } else {
        join(list.drop_last(), sep) + sep + list.last()
    }
}

pub open spec fn string_views(v: Seq<String>) -> Seq<Seq<char>> {
    v.map_values(|s: String| s@)
}

/// Two spaces per level of depth.
pub open spec fn indent(depth: nat) -> Seq<char> {
    repeat_char(' ', 2 * depth)
}

/// `[hidden]` and `[insensitive]` markers.
pub open spec fn flags_text(visible: bool, sensitive: bool) -> Seq<char> {
    (if visible {
        Seq::empty()
    } else {
        " [hidden]"@
    }) + (if sensitive {
        Seq::empty()
    } else {
        " [insensitive]"@
    })
}

/// The CSS classes as ` .a.b`, or nothing when there are none.
pub open spec fn classes_text(classes: Seq<Seq<char>>) -> Seq<char> {
    if classes.len() == 0 {
        Seq::empty()
    } else {
        " ."@ + join(classes, "."@)
    }
}

/// `tag` followed by the text when there is one.
pub open spec fn tagged(tag: Seq<char>, text: Option<String>) -> Seq<char> {
    match text {
        None => Seq::empty(),
        Some(t) => tag + t@,
    }
}

/// One line of the text dump:
/// `{indent}{short desc} @ ({x}, {y}) {w}x{h}{flags}{classes}{name}{bg}{fg}`.
pub open spec fn format_line_spec(e: LayoutEntry) -> Seq<char> {
    indent(e.depth as nat) + short_desc_spec(e.info) + " @ ("@ + signed_decimal(e.x as int) + ", "@
        + signed_decimal(e.y as int) + ") "@ + signed_decimal(e.width as int) + "x"@
        + signed_decimal(e.height as int) + flags_text(e.visible, e.sensitive) + classes_text(
        string_views(e.css_classes@),
    ) + tagged(" #"@, e.widget_name) + tagged(" bg:"@, e.background_color) + tagged(
        " fg:"@,
        e.foreground_color,
    )
}

/// The state marker of a check button follows its `active` flag: the
/// description starts with `CheckButton [x]` when it is checked and with
/// `CheckButton [ ]` when it is not, whatever its label.
pub proof fn lemma_check_button_marker(active: bool, label: Option<String>)
    ensures
        occurs_at(
            short_desc_spec(WidgetInfo::CheckButton { active, label }),
            if active {
                "CheckButton [x]"@
            } else {
                "CheckButton [ ]"@
            },
            0,
        ),
{
    reveal_strlit("CheckButton [x]");
    reveal_strlit("CheckButton [ ]");
    reveal_strlit("CheckButton ");
    reveal_strlit("[x]");
    reveal_strlit("[ ]");
    reveal_strlit(" \"");
    reveal_strlit("\"");
    let kind = "CheckButton "@ + (if active {
        "[x]"@
    } else {
        "[ ]"@
    });
    let d = short_desc_spec(WidgetInfo::CheckButton { active, label });
    assert(kind =~= if active {
        "CheckButton [x]"@
    } else {
        "CheckButton [ ]"@
    });
    assert(d.subrange(0, kind.len() as int) =~= kind);
}

/// The other on/off states are shown by their own flag too: a switch as
/// `Switch(on)` or `Switch(off)`, a spinner as `Spinner(on)` or
/// `Spinner(off)`, a revealer as `Revealer(shown)` or `Revealer(hidden)`,
/// and a toggle button and an expander start with `ToggleButton(on)` /
/// `ToggleButton(off)` and `Expander(open)` / `Expander(closed)`.
pub proof fn lemma_state_markers(flag: bool, label: Option<String>)
    ensures
        short_desc_spec(WidgetInfo::Switch { active: flag }) == if flag {
            "Switch(on)"@
        } else {
            "Switch(off)"@
        },
        short_desc_spec(WidgetInfo::Spinner { spinning: flag }) == if flag {
            "Spinner(on)"@
        } else {
            "Spinner(off)"@
        },
        short_desc_spec(WidgetInfo::Revealer { revealed: flag }) == if flag {
            "Revealer(shown)"@
        } else {
            "Revealer(hidden)"@
        },
        occurs_at(
            short_desc_spec(WidgetInfo::ToggleButton { active: flag, label }),
            if flag {
                "ToggleButton(on)"@
            } else {
                "ToggleButton(off)"@
            },
            0,
        ),
        occurs_at(
            short_desc_spec(WidgetInfo::Expander { expanded: flag, label }),
            if flag {
                "Expander(open)"@
            } else {
                "Expander(closed)"@
            },
            0,
        ),
{
    reveal_strlit("Switch(on)");
    reveal_strlit("Switch(off)");
    reveal_strlit("Spinner(on)");
    reveal_strlit("Spinner(off)");
    reveal_strlit("Revealer(shown)");
    reveal_strlit("Revealer(hidden)");
    reveal_strlit("ToggleButton(on)");
    reveal_strlit("ToggleButton(off)");
    reveal_strlit("Expander(open)");
    reveal_strlit("Expander(closed)");
    reveal_strlit("Switch");
    reveal_strlit("Spinner");
    reveal_strlit("Revealer");
    reveal_strlit("ToggleButton");
    reveal_strlit("Expander");
    reveal_strlit("on");
    reveal_strlit("off");
    reveal_strlit("shown");
    reveal_strlit("hidden");
    reveal_strlit("open");
    reveal_strlit("closed");
    reveal_strlit("(");
    reveal_strlit(")");
    assert(kind_paren("Switch"@, on_off(flag)) =~= if flag {
        "Switch(on)"@
    } else {
        "Switch(off)"@
    });
    assert(kind_paren("Spinner"@, on_off(flag)) =~= if flag {
        "Spinner(on)"@
    } else {
        "Spinner(off)"@
    });
    assert(kind_paren(
        "Revealer"@,
        if flag {
            "shown"@
        } else {
            "hidden"@
        },
    ) =~= if flag {
        "Revealer(shown)"@
    } else {
        "Revealer(hidden)"@
    });
    let tk = kind_paren("ToggleButton"@, on_off(flag));
    assert(tk =~= if flag {
        "ToggleButton(on)"@
    } else {
        "ToggleButton(off)"@
    });
    let td = short_desc_spec(WidgetInfo::ToggleButton { active: flag, label });
    assert(td.subrange(0, tk.len() as int) =~= tk);
    let ek = kind_paren(
        "Expander"@,
        if flag {
            "open"@
        } else {
            "closed"@
        },
    );
    assert(ek =~= if flag {
        "Expander(open)"@
    } else {
        "Expander(closed)"@
    });
    let ed = short_desc_spec(WidgetInfo::Expander { expanded: flag, label });
    assert(ed.subrange(0, ek.len() as int) =~= ek);
}

/// Everything of a line but its flags: what comes before the
/// `[hidden]`/`[insensitive]` markers and what comes after them.
pub open spec fn line_before_flags(e: LayoutEntry) -> Seq<char> {
    indent(e.depth as nat) + short_desc_spec(e.info) + " @ ("@ + signed_decimal(e.x as int) + ", "@
        + signed_decimal(e.y as int) + ") "@ + signed_decimal(e.width as int) + "x"@
        + signed_decimal(e.height as int)
}

/// What comes after the markers: CSS classes, name and colors.
pub open spec fn line_after_flags(e: LayoutEntry) -> Seq<char> {
    classes_text(string_views(e.css_classes@)) + tagged(" #"@, e.widget_name) + tagged(
        " bg:"@,
        e.background_color,
    ) + tagged(" fg:"@, e.foreground_color)
}

proof fn lemma_line_parts(e: LayoutEntry)
    ensures
        format_line_spec(e) == line_before_flags(e) + flags_text(e.visible, e.sensitive)
            + line_after_flags(e),
{
    assert(format_line_spec(e) =~= line_before_flags(e) + flags_text(e.visible, e.sensitive)
        + line_after_flags(e));
}

proof fn lemma_inserted(pre: Seq<char>, mid: Seq<char>, post: Seq<char>)
    ensures
        exists|k: int|
            0 <= k <= (pre + post).len() && pre + mid + post == (pre + post).take(k) + mid + (pre
                + post).skip(k),
{
    let k = pre.len() as int;
    assert((pre + post).take(k) =~= pre);
    assert((pre + post).skip(k) =~= post);
    assert(pre + mid + post =~= (pre + post).take(k) + mid + (pre + post).skip(k));
}

/// A hidden widget's line is its shown line with ` [hidden]` added, and an
/// insensitive widget's line is its sensitive line with ` [insensitive]`
/// added, each at one place and with nothing else changed: each marker
/// follows its own flag alone.
pub proof fn lemma_flag_markers(e: LayoutEntry)
    ensures
        ({
            let shown = format_line_spec(LayoutEntry { visible: true, ..e });
            let hidden = format_line_spec(LayoutEntry { visible: false, ..e });
            exists|k: int|
                0 <= k <= shown.len() && hidden == shown.take(k) + " [hidden]"@ + shown.skip(k)
        }),
        ({
            let active = format_line_spec(LayoutEntry { sensitive: true, ..e });
            let inactive = format_line_spec(LayoutEntry { sensitive: false, ..e });
            exists|k: int|
                0 <= k <= active.len() && inactive == active.take(k) + " [insensitive]"@
                    + active.skip(k)
        }),
{
    let p = line_before_flags(e);
    let r = line_after_flags(e);
    let sens = flags_text(true, e.sensitive);
    let vis = flags_text(e.visible, true);
    let e1 = LayoutEntry { visible: true, ..e };
    let e2 = LayoutEntry { visible: false, ..e };
    lemma_line_parts(e1);
    lemma_line_parts(e2);
    assert(line_before_flags(e1) == p && line_before_flags(e2) == p);
    assert(line_after_flags(e1) == r && line_after_flags(e2) == r);
    assert(flags_text(false, e.sensitive) =~= " [hidden]"@ + sens);
    assert(flags_text(true, e.sensitive) =~= sens);
    assert(format_line_spec(e1) =~= p + (sens + r));
    assert(format_line_spec(e2) =~= p + " [hidden]"@ + (sens + r));
    lemma_inserted(p, " [hidden]"@, sens + r);
    let e3 = LayoutEntry { sensitive: true, ..e };
    let e4 = LayoutEntry { sensitive: false, ..e };
    lemma_line_parts(e3);
    lemma_line_parts(e4);
    assert(line_before_flags(e3) == p && line_before_flags(e4) == p);
    assert(line_after_flags(e3) == r && line_after_flags(e4) == r);
    assert(flags_text(e.visible, false) =~= vis + " [insensitive]"@);
    assert(format_line_spec(e3) =~= (p + vis) + r);
    assert(format_line_spec(e4) =~= (p + vis) + " [insensitive]"@ + r);
    lemma_inserted(p + vis, " [insensitive]"@, r);
}

/// Join strings with a separator.
pub fn join_strings(list: &Vec<String>, sep: &str) -> (r: String)
    ensures
        r@ == join(string_views(list@), sep@),
{
    let mut r = String::new();
    let ghost views = string_views(list@);
    let n = list.len();
    let mut i: usize = 0;
    while i < n
        invariant
            n == list@.len(),
            i <= n,
            views == string_views(list@),
            r@ == join(views.take(i as int), sep@),
        decreases n - i,
    {
        assert(views.take(i + 1).drop_last() =~= views.take(i as int));
        if i != 0 {
            push_str(&mut r, sep);
        } else {
            assert(views.take(1) =~= seq![views[0]]);
        }
        push_str(&mut r, list[i].as_str());
        i = i + 1;
    }
    assert(views.take(n as int) =~= views);
    r
}

fn push_tagged(s: &mut String, tag: &str, text: &Option<String>)
    ensures
        final(s)@ == old(s)@ + tagged(tag@, *text),
{
    match text {
        None => {
            assert(final(s)@ =~= old(s)@ + Seq::<char>::empty());
        },
        Some(t) => {
            push_str(s, tag);
            push_str(s, t.as_str());
            assert(final(s)@ =~= old(s)@ + (tag@ + t@));
        },
    }
}

impl LayoutEntry {
    /// Format as a single line for text output.
    pub fn format_line(&self) -> (s: String)
        ensures
            s@ == format_line_spec(*self),
    {
        let mut s = String::new();
        let mut i: usize = 0;
        while i < self.depth
            invariant
                i <= self.depth,
                s@ == indent(i as nat),
            decreases self.depth - i,
        {
            push_str(&mut s, "  ");
            i = i + 1;
            assert(s@ =~= indent(i as nat)) by {
                reveal_strlit("  ");
            }
        }
        let ghost s0 = s@;
        let desc = self.info.short_desc();
        push_str(&mut s, desc.as_str());
        push_str(&mut s, " @ (");
        push_signed(&mut s, self.x as i64);
        push_str(&mut s, ", ");
        push_signed(&mut s, self.y as i64);
        push_str(&mut s, ") ");
        push_signed(&mut s, self.width as i64);
        push_str(&mut s, "x");
        push_signed(&mut s, self.height as i64);
        let ghost s1 = s@;
        if !self.visible {
            push_str(&mut s, " [hidden]");
        }
        if !self.sensitive {
            push_str(&mut s, " [insensitive]");
        }
        assert(s@ =~= s1 + flags_text(self.visible, self.sensitive));
        let ghost s2 = s@;
        if self.css_classes.len() > 0 {
            push_str(&mut s, " .");
            let joined = join_strings(&self.css_classes, ".");
            push_str(&mut s, joined.as_str());
        }
        assert(s@ =~= s2 + classes_text(string_views(self.css_classes@)));
        push_tagged(&mut s, " #", &self.widget_name);
        push_tagged(&mut s, " bg:", &self.background_color);
        push_tagged(&mut s, " fg:", &self.foreground_color);
        assert(s@ =~= format_line_spec(*self));
        s
    }
}

/// Complete layout dump of a widget tree.
#[derive(Debug, Clone)]
pub struct LayoutDump {
    pub entries: Vec<LayoutEntry>,
}

/// A button whose label contains `label`.
pub open spec fn is_button_labelled(info: WidgetInfo, label: Seq<char>) -> bool {
    info matches WidgetInfo::Button { label: Some(l) } && has_substring(l@, label)
}

/// An entry whose placeholder contains `placeholder`.
pub open spec fn is_entry_with_placeholder(info: WidgetInfo, placeholder: Seq<char>) -> bool {
    info matches WidgetInfo::Entry { placeholder: Some(p), .. } && has_substring(p@, placeholder)
}

/// The entries of `s` whose flag in `keep` is set, in order.
pub open spec fn select(s: Seq<LayoutEntry>, keep: Seq<bool>) -> Seq<LayoutEntry>
    decreases s.len(),
{
    if s.len() == 0 {
        s
    } else {
        let rest = select(s.drop_last(), keep.take(s.len() - 1));
        if keep[s.len() - 1] {
            rest.push(s.last())
        } else {
            rest
        }
    }
}

pub open spec fn derefs(v: Seq<&LayoutEntry>) -> Seq<LayoutEntry> {
    v.map_values(|e: &LayoutEntry| *e)
}

/// The lines of the text dump, one per entry, each ending in a newline.
pub open spec fn dump_lines(entries: Seq<LayoutEntry>) -> Seq<char>
    decreases entries.len(),
{
    if entries.len() == 0 {
        Seq::empty()
    } else {
        dump_lines(entries.drop_last()) + format_line_spec(entries.last()) + "\n"@
    }
}

/// The text dump: a header with the number of widgets, then one line per
/// widget.
pub open spec fn dump_text_spec(entries: Seq<LayoutEntry>) -> Seq<char> {
    "=== GTK Layout Dump ("@ + decimal(entries.len()) + " widgets) ===\n"@ + dump_lines(entries)
}

impl LayoutDump {
    pub fn new() -> (d: Self)
        ensures
            d.entries@ == Seq::<LayoutEntry>::empty(),
    {
        LayoutDump { entries: Vec::new() }
    }

    /// Add an entry to the dump.
    pub fn push(&mut self, entry: LayoutEntry)
        ensures
            final(self).entries@ == old(self).entries@.push(entry),
    {
        self.entries.push(entry);
    }

    /// Get the number of widgets in the dump.
    pub fn len(&self) -> (n: usize)
        ensures
            n == self.entries@.len(),
    {
        self.entries.len()
    }

    /// Check if the dump is empty.
    pub fn is_empty(&self) -> (b: bool)
        ensures
            b == (self.entries@.len() == 0),
    {
        self.entries.len() == 0
    }

    /// Find entries matching a predicate, in dump order.
    pub fn find<'a, F: Fn(&LayoutEntry) -> bool>(&'a self, predicate: F) -> (found: Vec<&'a LayoutEntry>)
        requires
            forall|i: int|
                0 <= i < self.entries@.len() ==> #[trigger] predicate.requires((&self.entries@[i],)),
        ensures
            exists|keep: Seq<bool>|
                {
                    &&& keep.len() == self.entries@.len()
                    &&& forall|i: int|
                        0 <= i < keep.len() ==> #[trigger] predicate.ensures(
                            (&self.entries@[i],),
                            keep[i],
                        )
                    &&& derefs(found@) == select(self.entries@, keep)
                },
    {
        let mut found: Vec<&'a LayoutEntry> = Vec::new();
        let ghost mut keep: Seq<bool> = Seq::empty();
        let n = self.entries.len();
        let mut i: usize = 0;
        while i < n
            invariant
                n == self.entries@.len(),
                i <= n,
                keep.len() == i,
                forall|j: int|
                    0 <= j < self.entries@.len() ==> #[trigger] predicate.requires(
                        (&self.entries@[j],),
                    ),
                forall|j: int|
                    0 <= j < i ==> #[trigger] predicate.ensures((&self.entries@[j],), keep[j]),
                derefs(found@) == select(self.entries@.take(i as int), keep),
            decreases n - i,
        {
            let e = &self.entries[i];
            let b = predicate(e);
            let ghost old_keep = keep;
            proof {
                keep = keep.push(b);
            }
            assert(self.entries@.take(i + 1).drop_last() =~= self.entries@.take(i as int));
            assert(keep.take(i as int) =~= old_keep);
            if b {
                found.push(e);
                assert(derefs(found@) =~= select(self.entries@.take(i as int), old_keep).push(*e));
            }
            i = i + 1;
        }
        assert(self.entries@.take(n as int) =~= self.entries@);
        found
    }

    /// Find buttons by label text.
    pub fn find_buttons<'a>(&'a self, label: &str) -> (found: Vec<&'a LayoutEntry>)
        ensures
            derefs(found@) == self.entries@.filter(
                |e: LayoutEntry| is_button_labelled(e.info, label@),
            ),
    {
        let mut found: Vec<&'a LayoutEntry> = Vec::new();
        let ghost pred = |e: LayoutEntry| is_button_labelled(e.info, label@);
        let n = self.entries.len();
        let mut i: usize = 0;
        while i < n
            invariant
                n == self.entries@.len(),
                i <= n,
                pred == (|e: LayoutEntry| is_button_labelled(e.info, label@)),
                derefs(found@) == self.entries@.take(i as int).filter(pred),
            decreases n - i,
        {
            reveal_with_fuel(Seq::<_>::filter, 1);
            let e = &self.entries[i];
            let hit = match &e.info {
                WidgetInfo::Button { label: Some(l) } => contains_str(l.as_str(), label),
                _ => false,
            };
            assert(self.entries@.take(i + 1).drop_last() =~= self.entries@.take(i as int));
            assert(hit == pred(*e));
            if hit {
                found.push(e);
                assert(derefs(found@) =~= self.entries@.take(i as int).filter(pred).push(*e));
            }
            i = i + 1;
        }
        assert(self.entries@.take(n as int) =~= self.entries@);
        found
    }

    /// Find entries by placeholder text.
    pub fn find_entries<'a>(&'a self, placeholder: &str) -> (found: Vec<&'a LayoutEntry>)
        ensures
            derefs(found@) == self.entries@.filter(
                |e: LayoutEntry| is_entry_with_placeholder(e.info, placeholder@),
            ),
    {
        let mut found: Vec<&'a LayoutEntry> = Vec::new();
        let ghost pred = |e: LayoutEntry| is_entry_with_placeholder(e.info, placeholder@);
        let n = self.entries.len();
        let mut i: usize = 0;
        while i < n
            invariant
                n == self.entries@.len(),
                i <= n,
                pred == (|e: LayoutEntry| is_entry_with_placeholder(e.info, placeholder@)),
                derefs(found@) == self.entries@.take(i as int).filter(pred),
            decreases n - i,
        {
            reveal_with_fuel(Seq::<_>::filter, 1);
            let e = &self.entries[i];
            let hit = match &e.info {
                WidgetInfo::Entry { placeholder: Some(p), .. } => contains_str(p.as_str(), placeholder),
                _ => false,
            };
            assert(self.entries@.take(i + 1).drop_last() =~= self.entries@.take(i as int));
            assert(hit == pred(*e));
            if hit {
                found.push(e);
                assert(derefs(found@) =~= self.entries@.take(i as int).filter(pred).push(*e));
            }
            i = i + 1;
        }
        assert(self.entries@.take(n as int) =~= self.entries@);
        found
    }

    /// The text dump, as displayed: a header line
    /// `=== GTK Layout Dump (N widgets) ===`, then one line per entry.
    pub fn to_text(&self) -> (s: String)
        ensures
            s@ == dump_text_spec(self.entries@),
    {
        let mut s = String::from_str("=== GTK Layout Dump (");
        push_decimal(&mut s, self.entries.len() as u64);
        push_str(&mut s, " widgets) ===\n");
        let ghost head = s@;
        let n = self.entries.len();
        let mut i: usize = 0;
        while i < n
            invariant
                n == self.entries@.len(),
                i <= n,
                s@ == head + dump_lines(self.entries@.take(i as int)),
            decreases n - i,
        {
            let line = self.entries[i].format_line();
            push_str(&mut s, line.as_str());
            push_str(&mut s, "\n");
            assert(self.entries@.take(i + 1).drop_last() =~= self.entries@.take(i as int));
            i = i + 1;
            assert(s@ =~= head + dump_lines(self.entries@.take(i as int)));
        }
        assert(self.entries@.take(n as int) =~= self.entries@);
        s
    }
}

impl Default for LayoutDump {
    fn default() -> (d: Self)
        ensures
            d.entries@ == Seq::<LayoutEntry>::empty(),
    {
        Self::new()
    }
}

} // verus!
