//! Widget tree traversal.
//!
//! The tree is a snapshot of the GTK widget hierarchy: for each widget, the
//! widget classes it is an instance of, the properties read from it, its
//! geometry and style, and its children in order.

use vstd::prelude::*;
use vstd::string::*;

use crate::output::{LayoutDump, LayoutEntry, WidgetInfo};
use crate::text::{contains_str, has_substring};

verus! {

broadcast use vstd::std_specs::vec::axiom_vec_decreases_to_view;

/// The GTK widget classes that identification distinguishes, listed in the
/// order in which they are tried.
#[derive(Debug, Clone, Copy, PartialEq, Eq)]
pub enum WidgetClass {
    ApplicationWindow,
    Window,
    Box,
    ScrolledWindow,
    ListBox,
    ListBoxRow,
    Stack,
    HeaderBar,
    Paned,
    Notebook,
    Grid,
    FlowBox,
    Overlay,
    Fixed,
    Revealer,
    Expander,
    Frame,
    AspectFrame,
    Popover,
    SearchEntry,
    PasswordEntry,
    Entry,
    TextView,
    SpinButton,
    Scale,
    Switch,
    CheckButton,
    ToggleButton,
    MenuButton,
    LinkButton,
    ColorButton,
    FontButton,
    Button,
    Label,
    Picture,
    Image,
    Spinner,
    ProgressBar,
    LevelBar,
    Separator,
    ComboBoxText,
    DropDown,
    DrawingArea,
    GLArea,
    Video,
    MediaControls,
    Calendar,
}

/// A box's or paned's orientation.
#[derive(Debug, Clone, Copy, PartialEq, Eq)]
pub enum Orientation {
    Horizontal,
    Vertical,
    Other,
}

/// Properties read from a widget. Each is read through the getter of the
/// widget's own class; those that do not apply keep their empty value.
#[derive(Debug, Clone)]
pub struct WidgetProps {
    /// Window title, or the text of a header bar's title label.
    pub title: Option<String>,
    pub orientation: Orientation,
    /// Entry or label text, or the whole text of a text view's buffer.
    pub text: String,
    pub placeholder: Option<String>,
    pub label: Option<String>,
    pub active: bool,
    pub expanded: bool,
    pub revealed: bool,
    pub spinning: bool,
    pub uri: String,
    /// Progress or level bar fraction as a whole-number percentage.
    pub percent: String,
    /// Scale or spin button value with one decimal place.
    pub value: String,
    /// The GTK type name.
    pub class_name: String,
}

/// A widget and its children.
#[derive(Debug)]
pub struct WidgetNode {
    /// Every class of `WidgetClass` the widget is an instance of.
    pub classes: Vec<WidgetClass>,
    pub props: WidgetProps,
    pub x: i32,
    pub y: i32,
    pub width: i32,
    pub height: i32,
    pub visible: bool,
    pub sensitive: bool,
    pub css_classes: Vec<String>,
    /// The widget name, empty when unset.
    pub widget_name: String,
    pub background_color: Option<String>,
    pub foreground_color: Option<String>,
    pub children: Vec<WidgetNode>,
}

/// Where a class stands in the order identification tries classes: a class
/// that derives from another comes before it (an application window before
/// a window, a search entry before an entry, the specialised buttons before
/// the plain button).
pub open spec fn class_rank(c: WidgetClass) -> nat {
    match c {
        WidgetClass::ApplicationWindow => 0,
        WidgetClass::Window => 1,
        WidgetClass::Box => 2,
        WidgetClass::ScrolledWindow => 3,
        WidgetClass::ListBox => 4,
        WidgetClass::ListBoxRow => 5,
        WidgetClass::Stack => 6,
        WidgetClass::HeaderBar => 7,
        WidgetClass::Paned => 8,
        WidgetClass::Notebook => 9,
        WidgetClass::Grid => 10,
        WidgetClass::FlowBox => 11,
        WidgetClass::Overlay => 12,
        WidgetClass::Fixed => 13,
        WidgetClass::Revealer => 14,
        WidgetClass::Expander => 15,
        WidgetClass::Frame => 16,
        WidgetClass::AspectFrame => 17,
        WidgetClass::Popover => 18,
        WidgetClass::SearchEntry => 19,
        WidgetClass::PasswordEntry => 20,
        WidgetClass::Entry => 21,
        WidgetClass::TextView => 22,
        WidgetClass::SpinButton => 23,
        WidgetClass::Scale => 24,
        WidgetClass::Switch => 25,
        WidgetClass::CheckButton => 26,
        WidgetClass::ToggleButton => 27,
        WidgetClass::MenuButton => 28,
        WidgetClass::LinkButton => 29,
        WidgetClass::ColorButton => 30,
        WidgetClass::FontButton => 31,
        WidgetClass::Button => 32,
        WidgetClass::Label => 33,
        WidgetClass::Picture => 34,
        WidgetClass::Image => 35,
        WidgetClass::Spinner => 36,
        WidgetClass::ProgressBar => 37,
        WidgetClass::LevelBar => 38,
        WidgetClass::Separator => 39,
        WidgetClass::ComboBoxText => 40,
        WidgetClass::DropDown => 41,
        WidgetClass::DrawingArea => 42,
        WidgetClass::GLArea => 43,
        WidgetClass::Video => 44,
        WidgetClass::MediaControls => 45,
        WidgetClass::Calendar => 46,
    }
}

fn rank_of(c: WidgetClass) -> (r: u8)
    ensures
        r as nat == class_rank(c),
{
    match c {
        WidgetClass::ApplicationWindow => 0,
        WidgetClass::Window => 1,
        WidgetClass::Box => 2,
        WidgetClass::ScrolledWindow => 3,
        WidgetClass::ListBox => 4,
        WidgetClass::ListBoxRow => 5,
        WidgetClass::Stack => 6,
        WidgetClass::HeaderBar => 7,
        WidgetClass::Paned => 8,
        WidgetClass::Notebook => 9,
        WidgetClass::Grid => 10,
        WidgetClass::FlowBox => 11,
        WidgetClass::Overlay => 12,
        WidgetClass::Fixed => 13,
        WidgetClass::Revealer => 14,
        WidgetClass::Expander => 15,
        WidgetClass::Frame => 16,
        WidgetClass::AspectFrame => 17,
        WidgetClass::Popover => 18,
        WidgetClass::SearchEntry => 19,
        WidgetClass::PasswordEntry => 20,
        WidgetClass::Entry => 21,
        WidgetClass::TextView => 22,
        WidgetClass::SpinButton => 23,
        WidgetClass::Scale => 24,
        WidgetClass::Switch => 25,
        WidgetClass::CheckButton => 26,
        WidgetClass::ToggleButton => 27,
        WidgetClass::MenuButton => 28,
        WidgetClass::LinkButton => 29,
        WidgetClass::ColorButton => 30,
        WidgetClass::FontButton => 31,
        WidgetClass::Button => 32,
        WidgetClass::Label => 33,
        WidgetClass::Picture => 34,
        WidgetClass::Image => 35,
        WidgetClass::Spinner => 36,
        WidgetClass::ProgressBar => 37,
        WidgetClass::LevelBar => 38,
        WidgetClass::Separator => 39,
        WidgetClass::ComboBoxText => 40,
        WidgetClass::DropDown => 41,
        WidgetClass::DrawingArea => 42,
        WidgetClass::GLArea => 43,
        WidgetClass::Video => 44,
        WidgetClass::MediaControls => 45,
        WidgetClass::Calendar => 46,
    }
}

/// Identification goes by the class tried first: the primary class is one
/// of the widget's classes, no other class of the widget comes before it,
/// and a widget of none of the classes has none.
pub proof fn lemma_primary_class_comes_first(classes: Seq<WidgetClass>)
    ensures
        primary_class(classes) is None <==> classes.len() == 0,
        primary_class(classes) matches Some(c) ==> classes.contains(c) && forall|d: WidgetClass|
            #[trigger] classes.contains(d) ==> class_rank(c) <= class_rank(d),
    decreases classes.len(),
{
    if classes.len() > 0 {
        let init = classes.drop_last();
        lemma_primary_class_comes_first(init);
        let c = primary_class(classes)->0;
        assert(classes.contains(c)) by {
            if c == classes.last() {
                assert(classes[classes.len() - 1] == c);
            } else {
                let k = choose|k: int| 0 <= k < init.len() && init[k] == c;
                assert(classes[k] == c);
            }
        }
        assert forall|d: WidgetClass| #[trigger] classes.contains(d) implies class_rank(c) <= class_rank(
            d,
        ) by {
            let k = choose|k: int| 0 <= k < classes.len() && classes[k] == d;
            if k < classes.len() - 1 {
                assert(init[k] == d);
                assert(init.contains(d));
            }
        }
    }
}

/// `sub` is a GTK class derived from `sup`: a `GtkLinkButton` and a
/// `GtkToggleButton` are `GtkButton`s, a `GtkApplicationWindow` is a
/// `GtkWindow`.
pub open spec fn derives_from(sub: WidgetClass, sup: WidgetClass) -> bool {
    ||| sub == WidgetClass::LinkButton && sup == WidgetClass::Button
    ||| sub == WidgetClass::ToggleButton && sup == WidgetClass::Button
    ||| sub == WidgetClass::ApplicationWindow && sup == WidgetClass::Window
}

/// A widget of a derived class is identified by the derived class, never by
/// the class it derives from; a widget of just the two classes is identified
/// by the derived one.
pub proof fn lemma_derived_class_identified(classes: Seq<WidgetClass>, sub: WidgetClass, sup: WidgetClass)
    requires
        derives_from(sub, sup),
        classes.contains(sub),
        classes.contains(sup),
    ensures
        primary_class(classes) != Some(sup),
        (forall|d: WidgetClass| #[trigger] classes.contains(d) ==> d == sub || d == sup)
            ==> primary_class(classes) == Some(sub),
{
    lemma_primary_class_comes_first(classes);
    let c = primary_class(classes)->0;
    assert(class_rank(c) <= class_rank(sub));
}

/// The widgets of a tree in depth-first pre-order, each with its depth.
pub open spec fn preorder(node: WidgetNode, depth: nat) -> Seq<(WidgetNode, nat)>
    decreases node,
{
    seq![(node, depth)] + preorder_all(node.children@, depth + 1)
}

/// The pre-orders of a list of sibling trees, one after the other.
pub open spec fn preorder_all(nodes: Seq<WidgetNode>, depth: nat) -> Seq<(WidgetNode, nat)>
    decreases nodes,
{
    if nodes.len() == 0 {
        Seq::empty()
    } else {
        preorder_all(nodes.drop_last(), depth) + preorder(nodes.last(), depth)
    }
}

/// The class identification goes by: among the classes the widget is an
/// instance of, the one tried first.
pub open spec fn primary_class(classes: Seq<WidgetClass>) -> Option<WidgetClass>
    decreases classes.len(),
{
    if classes.len() == 0 {
        None
    } else {
        let c = classes.last();
        match primary_class(classes.drop_last()) {
            None => Some(c),
            Some(p) => if class_rank(c) < class_rank(p) {
                Some(c)
            } else {
                Some(p)
            },
        }
    }
}

pub open spec fn orientation_name(o: Orientation) -> Seq<char> {
    match o {
        Orientation::Horizontal => "horizontal"@,
        Orientation::Vertical => "vertical"@,
        Orientation::Other => "unknown"@,
    }
}

/// `info` is what a widget of primary class `class` with properties `p` is
/// identified as; a widget of none of the classes is `Unknown`, named by its
/// type name.
pub open spec fn identifies(info: WidgetInfo, class: Option<WidgetClass>, p: WidgetProps) -> bool {
    match class {
        None => info == WidgetInfo::Unknown { class_name: p.class_name },
        Some(c) => match c {
            WidgetClass::ApplicationWindow => info == WidgetInfo::Window { title: p.title },
            WidgetClass::Window => info == WidgetInfo::Window { title: p.title },
            WidgetClass::Box => info matches WidgetInfo::Box { orientation } && orientation@
                == orientation_name(p.orientation),
            WidgetClass::Paned => info matches WidgetInfo::Paned { orientation } && orientation@
                == orientation_name(p.orientation),
            WidgetClass::HeaderBar => info == WidgetInfo::HeaderBar { title: p.title },
            WidgetClass::Revealer => info == WidgetInfo::Revealer { revealed: p.revealed },
            WidgetClass::Expander => info == WidgetInfo::Expander {
                expanded: p.expanded,
                label: p.label,
            },
            WidgetClass::Frame => info == WidgetInfo::Frame { label: p.label },
            WidgetClass::SearchEntry => info == WidgetInfo::SearchEntry { text: p.text },
            WidgetClass::Entry => info == WidgetInfo::Entry {
                text: p.text,
                placeholder: p.placeholder,
            },
            WidgetClass::TextView => info == WidgetInfo::TextView { text: p.text },
            WidgetClass::SpinButton => info == WidgetInfo::SpinButton { value: p.value },
            WidgetClass::Scale => info == WidgetInfo::Scale { value: p.value },
            WidgetClass::Switch => info == WidgetInfo::Switch { active: p.active },
            WidgetClass::CheckButton => info == WidgetInfo::CheckButton {
                active: p.active,
                label: p.label,
            },
            WidgetClass::ToggleButton => info == WidgetInfo::ToggleButton {
                active: p.active,
                label: p.label,
            },
            WidgetClass::MenuButton => info == WidgetInfo::MenuButton { label: p.label },
            WidgetClass::LinkButton => info == WidgetInfo::LinkButton { uri: p.uri, label: p.label },
            WidgetClass::Button => info == WidgetInfo::Button { label: p.label },
            WidgetClass::Label => info == WidgetInfo::Label { text: p.text },
            WidgetClass::Spinner => info == WidgetInfo::Spinner { spinning: p.spinning },
            WidgetClass::ProgressBar => info == WidgetInfo::ProgressBar { percent: p.percent },
            WidgetClass::LevelBar => info == WidgetInfo::LevelBar { percent: p.percent },
            WidgetClass::ComboBoxText => info == WidgetInfo::ComboBox,
            WidgetClass::ScrolledWindow => info == WidgetInfo::ScrolledWindow,
            WidgetClass::ListBox => info == WidgetInfo::ListBox,
            WidgetClass::ListBoxRow => info == WidgetInfo::ListBoxRow,
            WidgetClass::Stack => info == WidgetInfo::Stack,
            WidgetClass::Notebook => info == WidgetInfo::Notebook,
            WidgetClass::Grid => info == WidgetInfo::Grid,
            WidgetClass::FlowBox => info == WidgetInfo::FlowBox,
            WidgetClass::Overlay => info == WidgetInfo::Overlay,
            WidgetClass::Fixed => info == WidgetInfo::Fixed,
            WidgetClass::AspectFrame => info == WidgetInfo::AspectFrame,
            WidgetClass::Popover => info == WidgetInfo::Popover,
            WidgetClass::PasswordEntry => info == WidgetInfo::PasswordEntry,
            WidgetClass::ColorButton => info == WidgetInfo::ColorButton,
            WidgetClass::FontButton => info == WidgetInfo::FontButton,
            WidgetClass::Picture => info == WidgetInfo::Picture,
            WidgetClass::Image => info == WidgetInfo::Image,
            WidgetClass::Separator => info == WidgetInfo::Separator,
            WidgetClass::DropDown => info == WidgetInfo::DropDown,
            WidgetClass::DrawingArea => info == WidgetInfo::DrawingArea,
            WidgetClass::GLArea => info == WidgetInfo::GLArea,
            WidgetClass::Video => info == WidgetInfo::Video,
            WidgetClass::MediaControls => info == WidgetInfo::MediaControls,
            WidgetClass::Calendar => info == WidgetInfo::Calendar,
        },
    }
}

/// The first class, in identification order, among `classes`.
pub fn primary_class_of(classes: &Vec<WidgetClass>) -> (r: Option<WidgetClass>)
    ensures
        r == primary_class(classes@),
{
    let mut best: Option<WidgetClass> = None;
    let n = classes.len();
    let mut i: usize = 0;
    while i < n
        invariant
            n == classes@.len(),
            i <= n,
            best == primary_class(classes@.take(i as int)),
        decreases n - i,
    {
        let c = classes[i];
        assert(classes@.take(i + 1).drop_last() =~= classes@.take(i as int));
        best = match best {
            None => Some(c),
            Some(p) => if rank_of(c) < rank_of(p) {
                Some(c)
            } else {
                Some(p)
            },
        };
        i = i + 1;
    }
    assert(classes@.take(n as int) =~= classes@);
    best
}

fn clone_opt(s: &Option<String>) -> (r: Option<String>)
    ensures
        r == *s,
{
    match s {
        None => None,
        Some(t) => Some(t.clone()),
    }
}

fn orientation_text(o: Orientation) -> (s: String)
    ensures
        s@ == orientation_name(o),
{
    match o {
        Orientation::Horizontal => String::from_str("horizontal"),
        Orientation::Vertical => String::from_str("vertical"),
        Orientation::Other => String::from_str("unknown"),
    }
}

fn info_for_class(class: Option<WidgetClass>, p: &WidgetProps) -> (info: WidgetInfo)
    ensures
        identifies(info, class, *p),
{
    let c = match class {
        None => {
            return WidgetInfo::Unknown { class_name: p.class_name.clone() };
        },
        Some(c) => c,
    };
    match c {
        WidgetClass::ApplicationWindow => WidgetInfo::Window { title: clone_opt(&p.title) },
        WidgetClass::Window => WidgetInfo::Window { title: clone_opt(&p.title) },
        WidgetClass::Box => WidgetInfo::Box { orientation: orientation_text(p.orientation) },
        WidgetClass::Paned => WidgetInfo::Paned { orientation: orientation_text(p.orientation) },
        WidgetClass::HeaderBar => WidgetInfo::HeaderBar { title: clone_opt(&p.title) },
        WidgetClass::Revealer => WidgetInfo::Revealer { revealed: p.revealed },
        WidgetClass::Expander => WidgetInfo::Expander {
            expanded: p.expanded,
            label: clone_opt(&p.label),
        },
        WidgetClass::Frame => WidgetInfo::Frame { label: clone_opt(&p.label) },
        WidgetClass::SearchEntry => WidgetInfo::SearchEntry { text: p.text.clone() },
        WidgetClass::Entry => WidgetInfo::Entry {
            text: p.text.clone(),
            placeholder: clone_opt(&p.placeholder),
        },
        WidgetClass::TextView => WidgetInfo::TextView { text: p.text.clone() },
        WidgetClass::SpinButton => WidgetInfo::SpinButton { value: p.value.clone() },
        WidgetClass::Scale => WidgetInfo::Scale { value: p.value.clone() },
        WidgetClass::Switch => WidgetInfo::Switch { active: p.active },
        WidgetClass::CheckButton => WidgetInfo::CheckButton {
            active: p.active,
            label: clone_opt(&p.label),
        },
        WidgetClass::ToggleButton => WidgetInfo::ToggleButton {
            active: p.active,
            label: clone_opt(&p.label),
        },
        WidgetClass::MenuButton => WidgetInfo::MenuButton { label: clone_opt(&p.label) },
        WidgetClass::LinkButton => WidgetInfo::LinkButton {
            uri: p.uri.clone(),
            label: clone_opt(&p.label),
        },
        WidgetClass::Button => WidgetInfo::Button { label: clone_opt(&p.label) },
        WidgetClass::Label => WidgetInfo::Label { text: p.text.clone() },
        WidgetClass::Spinner => WidgetInfo::Spinner { spinning: p.spinning },
        WidgetClass::ProgressBar => WidgetInfo::ProgressBar { percent: p.percent.clone() },
        WidgetClass::LevelBar => WidgetInfo::LevelBar { percent: p.percent.clone() },
        WidgetClass::ComboBoxText => WidgetInfo::ComboBox,
        WidgetClass::ScrolledWindow => WidgetInfo::ScrolledWindow,
        WidgetClass::ListBox => WidgetInfo::ListBox,
        WidgetClass::ListBoxRow => WidgetInfo::ListBoxRow,
        WidgetClass::Stack => WidgetInfo::Stack,
        WidgetClass::Notebook => WidgetInfo::Notebook,
        WidgetClass::Grid => WidgetInfo::Grid,
        WidgetClass::FlowBox => WidgetInfo::FlowBox,
        WidgetClass::Overlay => WidgetInfo::Overlay,
        WidgetClass::Fixed => WidgetInfo::Fixed,
        WidgetClass::AspectFrame => WidgetInfo::AspectFrame,
        WidgetClass::Popover => WidgetInfo::Popover,
        WidgetClass::PasswordEntry => WidgetInfo::PasswordEntry,
        WidgetClass::ColorButton => WidgetInfo::ColorButton,
        WidgetClass::FontButton => WidgetInfo::FontButton,
        WidgetClass::Picture => WidgetInfo::Picture,
        WidgetClass::Image => WidgetInfo::Image,
        WidgetClass::Separator => WidgetInfo::Separator,
        WidgetClass::DropDown => WidgetInfo::DropDown,
        WidgetClass::DrawingArea => WidgetInfo::DrawingArea,
        WidgetClass::GLArea => WidgetInfo::GLArea,
        WidgetClass::Video => WidgetInfo::Video,
        WidgetClass::MediaControls => WidgetInfo::MediaControls,
        WidgetClass::Calendar => WidgetInfo::Calendar,
    }
}

/// Identify a widget from the classes it is an instance of and its
/// properties: the first class in identification order decides the kind.
pub fn identify_widget(classes: &Vec<WidgetClass>, props: &WidgetProps) -> (info: WidgetInfo)
    ensures
        identifies(info, primary_class(classes@), *props),
{
    let c = primary_class_of(classes);
    info_for_class(c, props)
}

/// The widget name as the dump shows it: none when empty.
pub open spec fn shown_name(node: WidgetNode) -> Option<String> {
    if node.widget_name@.len() == 0 {
        None
    } else {
        Some(node.widget_name)
    }
}

/// `e` is the dump entry of the widget `node` at depth `depth`.
pub open spec fn describes(e: LayoutEntry, node: WidgetNode, depth: nat) -> bool {
    &&& e.depth == depth
    &&& identifies(e.info, primary_class(node.classes@), node.props)
    &&& e.x == node.x
    &&& e.y == node.y
    &&& e.width == node.width
    &&& e.height == node.height
    &&& e.visible == node.visible
    &&& e.sensitive == node.sensitive
    &&& e.css_classes@ == node.css_classes@
    &&& e.widget_name == shown_name(node)
    &&& e.background_color == node.background_color
    &&& e.foreground_color == node.foreground_color
}

/// The entries describe the widgets listed, one for one and in order.
pub open spec fn dump_describes(entries: Seq<LayoutEntry>, order: Seq<(WidgetNode, nat)>) -> bool {
    &&& entries.len() == order.len()
    &&& forall|i: int| 0 <= i < entries.len() ==> describes(#[trigger] entries[i], order[i].0, order[i].1)
}

proof fn lemma_describes_append(
    a: Seq<LayoutEntry>,
    p: Seq<(WidgetNode, nat)>,
    b: Seq<LayoutEntry>,
    q: Seq<(WidgetNode, nat)>,
)
    requires
        dump_describes(a, p),
        dump_describes(b, q),
    ensures
        dump_describes(a + b, p + q),
{
    assert forall|i: int| 0 <= i < (a + b).len() implies describes(
        #[trigger] (a + b)[i],
        (p + q)[i].0,
        (p + q)[i].1,
    ) by {
        if i < a.len() {
            assert((a + b)[i] == a[i]);
            assert((p + q)[i] == p[i]);
        } else {
            assert((a + b)[i] == b[i - a.len()]);
            assert((p + q)[i] == q[i - a.len()]);
        }
    }
}

proof fn lemma_preorder_all_step(s: Seq<WidgetNode>, i: int, depth: nat)
    requires
        0 <= i < s.len(),
    ensures
        preorder_all(s.take(i + 1), depth) == preorder_all(s.take(i), depth) + preorder(s[i], depth),
{
    assert(s.take(i + 1).drop_last() =~= s.take(i));
}

proof fn lemma_preorder_all_take_len(s: Seq<WidgetNode>, k: int, depth: nat)
    requires
        0 <= k <= s.len(),
    ensures
        preorder_all(s.take(k), depth).len() <= preorder_all(s, depth).len(),
    decreases s.len(),
{
    if k == s.len() {
        assert(s.take(k) =~= s);
    } else {
        assert(s.drop_last().take(k) =~= s.take(k));
        lemma_preorder_all_take_len(s.drop_last(), k, depth);
    }
}

proof fn lemma_preorder_len(node: WidgetNode, depth: nat)
    ensures
        preorder(node, depth).len() == 1 + preorder_all(node.children@, depth + 1).len(),
{
}

fn clone_strings(v: &Vec<String>) -> (r: Vec<String>)
    ensures
        r@ == v@,
{
    let mut r: Vec<String> = Vec::new();
    let n = v.len();
    let mut i: usize = 0;
    while i < n
        invariant
            n == v@.len(),
            i <= n,
            r@ == v@.take(i as int),
        decreases n - i,
    {
        r.push(v[i].clone());
        i = i + 1;
        assert(r@ =~= v@.take(i as int));
    }
    assert(v@.take(n as int) =~= v@);
    r
}

fn entry_for(node: &WidgetNode, depth: usize) -> (e: LayoutEntry)
    ensures
        describes(e, *node, depth as nat),
{
    let widget_name = if node.widget_name.unicode_len() == 0 {
        None
    } else {
        Some(node.widget_name.clone())
    };
    LayoutEntry {
        depth,
        info: identify_widget(&node.classes, &node.props),
        x: node.x,
        y: node.y,
        width: node.width,
        height: node.height,
        visible: node.visible,
        sensitive: node.sensitive,
        css_classes: clone_strings(&node.css_classes),
        widget_name,
        background_color: clone_opt(&node.background_color),
        foreground_color: clone_opt(&node.foreground_color),
    }
}

/// Append the entries of `node` and its descendants, in pre-order, to the dump.
pub fn traverse_widget(node: &WidgetNode, depth: usize, dump: &mut LayoutDump)
    requires
        depth + preorder(*node, depth as nat).len() <= usize::MAX,
    ensures
        final(dump).entries@.len() == old(dump).entries@.len() + preorder(*node, depth as nat).len(),
        final(dump).entries@.take(old(dump).entries@.len() as int) == old(dump).entries@,
        dump_describes(
            final(dump).entries@.skip(old(dump).entries@.len() as int),
            preorder(*node, depth as nat),
        ),
    decreases node,
{
    let ghost prior = dump.entries@;
    let ghost start = prior.len() as int;
    let ghost children = node.children@;
    let ghost d1 = (depth + 1) as nat;
    proof {
        lemma_preorder_len(*node, depth as nat);
    }
    let entry = entry_for(node, depth);
    dump.push(entry);
    assert(dump.entries@.skip(start) =~= seq![entry]);
    assert(children.take(0) =~= Seq::<WidgetNode>::empty());
    assert(seq![(*node, depth as nat)] + preorder_all(children.take(0), d1) =~= seq![
        (*node, depth as nat),
    ]);
    let n = node.children.len();
    let mut i: usize = 0;
    while i < n
        invariant
            n == children.len(),
            children == node.children@,
            i <= n,
            d1 == depth + 1,
            depth + preorder(*node, depth as nat).len() <= usize::MAX,
            preorder(*node, depth as nat).len() == 1 + preorder_all(children, d1).len(),
            start == prior.len(),
            dump.entries@.len() == start + 1 + preorder_all(children.take(i as int), d1).len(),
            dump.entries@.take(start) == prior,
            dump_describes(
                dump.entries@.skip(start),
                seq![(*node, depth as nat)] + preorder_all(children.take(i as int), d1),
            ),
        decreases n - i,
    {
        let ghost before = dump.entries@;
        proof {
            lemma_preorder_all_step(children, i as int, d1);
            lemma_preorder_all_take_len(children, i + 1, d1);
            assert(decreases_to!(node => node.children));
            assert(decreases_to!(node.children => node.children@));
            assert(decreases_to!(node.children@ => node.children@[i as int]));
        }
        traverse_widget(&node.children[i], depth + 1, dump);
        let ghost after = dump.entries@;
        proof {
            let added = after.skip(before.len() as int);
            assert(after.skip(start) =~= before.skip(start) + added);
            lemma_describes_append(
                before.skip(start),
                seq![(*node, depth as nat)] + preorder_all(children.take(i as int), d1),
                added,
                preorder(children[i as int], d1),
            );
            assert(seq![(*node, depth as nat)] + preorder_all(children.take(i + 1), d1) =~= seq![
                (*node, depth as nat),
            ] + preorder_all(children.take(i as int), d1) + preorder(children[i as int], d1));
            assert(after.take(start) =~= before.take(start));
        }
        i = i + 1;
    }
    assert(children.take(n as int) =~= children);
    assert(seq![(*node, depth as nat)] + preorder_all(children, d1) == preorder(*node, depth as nat));
}

/// Dump the widget tree starting from the given widget: one entry per widget,
/// in depth-first pre-order, the root at depth 0.
pub fn dump_widget_tree(root: &WidgetNode) -> (dump: LayoutDump)
    requires
        preorder(*root, 0).len() <= usize::MAX,
    ensures
        dump_describes(dump.entries@, preorder(*root, 0)),
{
    let mut dump = LayoutDump::new();
    traverse_widget(root, 0, &mut dump);
    assert(dump.entries@.skip(0) =~= dump.entries@);
    dump
}

/// A button (of any button class) whose label contains `label`.
pub open spec fn is_labelled_button(node: WidgetNode, label: Seq<char>) -> bool {
    &&& node.classes@.contains(WidgetClass::Button)
    &&& node.props.label matches Some(l) && has_substring(l@, label)
}

/// Every widget that is a button, of whatever further classes, and whose
/// label contains the text is a match; so a search finds such a widget or
/// an earlier one in the pre-order.
pub proof fn lemma_any_labelled_button_matches(
    order: Seq<(WidgetNode, nat)>,
    text: Seq<char>,
    r: Option<usize>,
    i: int,
)
    requires
        is_first_match(order, |w: WidgetNode| is_labelled_button(w, text), r),
        0 <= i < order.len(),
        order[i].0.classes@.contains(WidgetClass::Button),
        order[i].0.props.label matches Some(l) && has_substring(l@, text),
    ensures
        is_labelled_button(order[i].0, text),
        r matches Some(j) && j <= i,
{
    let pred = |w: WidgetNode| is_labelled_button(w, text);
    assert(pred(order[i].0));
    if r is None {
        assert(!pred(order[i].0));
    } else {
        let j = r->0;
        if i < j {
            assert(!pred(order[i].0));
        }
    }
}

/// An entry whose placeholder text contains `placeholder`.
pub open spec fn is_entry_with_placeholder(node: WidgetNode, placeholder: Seq<char>) -> bool {
    &&& node.classes@.contains(WidgetClass::Entry)
    &&& node.props.placeholder matches Some(p) && has_substring(p@, placeholder)
}

/// Every entry whose placeholder contains the text is a match, whatever
/// further classes it has; so a search finds such an entry or an earlier
/// one in the pre-order.
pub proof fn lemma_any_placeholder_entry_matches(
    order: Seq<(WidgetNode, nat)>,
    text: Seq<char>,
    r: Option<usize>,
    i: int,
)
    requires
        is_first_match(order, |w: WidgetNode| is_entry_with_placeholder(w, text), r),
        0 <= i < order.len(),
        order[i].0.classes@.contains(WidgetClass::Entry),
        order[i].0.props.placeholder matches Some(p) && has_substring(p@, text),
    ensures
        is_entry_with_placeholder(order[i].0, text),
        r matches Some(j) && j <= i,
{
    let pred = |w: WidgetNode| is_entry_with_placeholder(w, text);
    assert(pred(order[i].0));
    if r is None {
        assert(!pred(order[i].0));
    } else {
        let j = r->0;
        if i < j {
            assert(!pred(order[i].0));
        }
    }
}

/// What a search looks for.
pub enum Target {
    ButtonLabel,
    EntryPlaceholder,
}

pub open spec fn is_target(node: WidgetNode, target: Target, text: Seq<char>) -> bool {
    match target {
        Target::ButtonLabel => is_labelled_button(node, text),
        Target::EntryPlaceholder => is_entry_with_placeholder(node, text),
    }
}

/// `r` is the position of the first widget in `order` that satisfies `pred`,
/// or none when no widget does.
pub open spec fn is_first_match(
    order: Seq<(WidgetNode, nat)>,
    pred: spec_fn(WidgetNode) -> bool,
    r: Option<usize>,
) -> bool {
    match r {
        Some(i) => i < order.len() && pred(order[i as int].0) && forall|j: int|
            0 <= j < i ==> !pred(#[trigger] order[j].0),
        None => forall|j: int| 0 <= j < order.len() ==> !pred(#[trigger] order[j].0),
    }
}

fn has_class(classes: &Vec<WidgetClass>, wanted: WidgetClass) -> (b: bool)
    ensures
        b == classes@.contains(wanted),
{
    let n = classes.len();
    let mut i: usize = 0;
    while i < n
        invariant
            n == classes@.len(),
            i <= n,
            forall|j: int| 0 <= j < i ==> classes@[j] != wanted,
        decreases n - i,
    {
        if rank_of(classes[i]) == rank_of(wanted) {
            assert(classes@[i as int] == wanted) by {
                lemma_rank_injective(classes@[i as int], wanted);
            }
            return true;
        }
        i = i + 1;
    }
    false
}

proof fn lemma_rank_injective(a: WidgetClass, b: WidgetClass)
    requires
        class_rank(a) == class_rank(b),
    ensures
        a == b,
{
}

fn is_target_exec(node: &WidgetNode, target: &Target, text: &str) -> (b: bool)
    ensures
        b == is_target(*node, *target, text@),
{
    match target {
        Target::ButtonLabel => has_class(&node.classes, WidgetClass::Button) && match &node.props.label {
            Some(l) => contains_str(l.as_str(), text),
            None => false,
        },
        Target::EntryPlaceholder => has_class(&node.classes, WidgetClass::Entry) && match &node.props.placeholder {
            Some(p) => contains_str(p.as_str(), text),
            None => false,
        },
    }
}

/// Search the pre-order of `node` for the first target: `Ok` with its
/// position, or `Err` with the number of widgets searched.
fn search(node: &WidgetNode, target: &Target, text: &str, Ghost(depth): Ghost<nat>) -> (r: Result<
    usize,
    usize,
>)
    requires
        preorder(*node, depth).len() <= usize::MAX,
    ensures
        match r {
            Ok(i) => is_first_match(
                preorder(*node, depth),
                |w: WidgetNode| is_target(w, *target, text@),
                Some(i),
            ),
            Err(c) => c == preorder(*node, depth).len() && is_first_match(
                preorder(*node, depth),
                |w: WidgetNode| is_target(w, *target, text@),
                None,
            ),
        },
    decreases node,
{
    let ghost pred = |w: WidgetNode| is_target(w, *target, text@);
    let ghost children = node.children@;
    let ghost d1 = depth + 1;
    let ghost order = preorder(*node, depth);
    proof {
        lemma_preorder_len(*node, depth);
    }
    if is_target_exec(node, target, text) {
        assert(order[0].0 == *node);
        return Ok(0);
    }
    let mut count: usize = 1;
    let n = node.children.len();
    let mut i: usize = 0;
    assert(children.take(0) =~= Seq::<WidgetNode>::empty());
    while i < n
        invariant
            n == children.len(),
            children == node.children@,
            i <= n,
            d1 == depth + 1,
            order == preorder(*node, depth),
            order.len() <= usize::MAX,
            order == seq![(*node, depth)] + preorder_all(children, d1),
            pred == (|w: WidgetNode| is_target(w, *target, text@)),
            !pred(*node),
            count == 1 + preorder_all(children.take(i as int), d1).len(),
            forall|j: int| 0 <= j < count ==> !pred(#[trigger] order[j].0),
        decreases n - i,
    {
        proof {
            lemma_preorder_all_step(children, i as int, d1);
            lemma_preorder_all_take_len(children, i + 1, d1);
            lemma_preorder_all_prefix(children, i + 1, d1);
            assert(decreases_to!(node => node.children));
            assert(decreases_to!(node.children => node.children@));
            assert(decreases_to!(node.children@ => node.children@[i as int]));
        }
        let ghost sub = preorder(children[i as int], d1);
        let ghost prefix = seq![(*node, depth)] + preorder_all(children.take(i + 1), d1);
        assert(prefix =~= seq![(*node, depth)] + preorder_all(children.take(i as int), d1) + sub);
        assert(forall|k: int| 0 <= k < prefix.len() ==> #[trigger] prefix[k] == order[k]);
        match search(&node.children[i], target, text, Ghost(d1)) {
            Ok(k) => {
                assert(prefix[count + k] == sub[k as int]);
                assert forall|j: int| 0 <= j < count + k implies !pred(#[trigger] order[j].0) by {
                    if j >= count {
                        assert(prefix[j] == sub[j - count]);
                    }
                }
                return Ok(count + k);
            },
            Err(c) => {
                assert forall|j: int| 0 <= j < count + c implies !pred(#[trigger] order[j].0) by {
                    if j >= count {
                        assert(prefix[j] == sub[j - count]);
                    }
                }
                count = count + c;
            },
        }
        i = i + 1;
    }
    assert(children.take(n as int) =~= children);
    Err(count)
}

proof fn lemma_preorder_all_prefix(s: Seq<WidgetNode>, k: int, depth: nat)
    requires
        0 <= k <= s.len(),
    ensures
        forall|j: int|
            0 <= j < preorder_all(s.take(k), depth).len() ==> #[trigger] preorder_all(
                s.take(k),
                depth,
            )[j] == preorder_all(s, depth)[j],
    decreases s.len(),
{
    if k == s.len() {
        assert(s.take(k) =~= s);
    } else {
        assert(s.drop_last().take(k) =~= s.take(k));
        lemma_preorder_all_prefix(s.drop_last(), k, depth);
        lemma_preorder_all_take_len(s.drop_last(), k, depth);
        let a = preorder_all(s.drop_last(), depth);
        let b = preorder(s.last(), depth);
        assert(preorder_all(s, depth) == a + b);
        assert forall|j: int| 0 <= j < preorder_all(s.take(k), depth).len() implies #[trigger] preorder_all(
            s.take(k),
            depth,
        )[j] == preorder_all(s, depth)[j] by {
            assert((a + b)[j] == a[j]);
        }
    }
}

/// Find a button by its label text: the position, in the pre-order of the
/// tree, of the first button whose label contains `label`.
pub fn find_button_by_label(root: &WidgetNode, label: &str) -> (r: Option<usize>)
    requires
        preorder(*root, 0).len() <= usize::MAX,
    ensures
        is_first_match(preorder(*root, 0), |w: WidgetNode| is_labelled_button(w, label@), r),
{
    match search(root, &Target::ButtonLabel, label, Ghost(0)) {
        Ok(i) => Some(i),
        Err(_) => None,
    }
}

/// Find an entry by its placeholder text: the position, in the pre-order of
/// the tree, of the first entry whose placeholder contains `placeholder`.
pub fn find_entry_by_placeholder(root: &WidgetNode, placeholder: &str) -> (r: Option<usize>)
    requires
        preorder(*root, 0).len() <= usize::MAX,
    ensures
        is_first_match(
            preorder(*root, 0),
            |w: WidgetNode| is_entry_with_placeholder(w, placeholder@),
            r,
        ),
{
    match search(root, &Target::EntryPlaceholder, placeholder, Ghost(0)) {
        Ok(i) => Some(i),
        Err(_) => None,
    }
}

} // verus!
