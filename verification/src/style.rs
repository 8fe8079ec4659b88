//! Widget colors as the dump shows them.

use vstd::prelude::*;
use vstd::string::*;

use crate::text::{hex_byte, push_hex_byte};

verus! {

/// An 8-bit RGB color.
#[derive(Debug, Clone, Copy, PartialEq, Eq)]
pub struct Rgb8 {
    pub red: u8,
    pub green: u8,
    pub blue: u8,
}

/// `#rrggbb` in lowercase hex.
pub open spec fn hex_color_spec(c: Rgb8) -> Seq<char> {
    "#"@ + hex_byte(c.red) + hex_byte(c.green) + hex_byte(c.blue)
}

/// Convert a color to a hex color string, `#rrggbb`.
pub fn rgb_to_hex(c: Rgb8) -> (s: String)
    ensures
        s@ == hex_color_spec(c),
{
    let mut s = String::from_str("#");
    push_hex_byte(&mut s, c.red);
    push_hex_byte(&mut s, c.green);
    push_hex_byte(&mut s, c.blue);
    assert(s@ =~= hex_color_spec(c));
    s
}

/// The named theme colors tried for a widget's background, in order:
/// libadwaita names, older GTK3-style names, then custom application names.
pub open spec fn background_color_names_spec() -> Seq<Seq<char>> {
    seq![
        "window_bg_color"@,
        "view_bg_color"@,
        "card_bg_color"@,
        "headerbar_bg_color"@,
        "popover_bg_color"@,
        "dialog_bg_color"@,
        "sidebar_bg_color"@,
        "accent_bg_color"@,
        "theme_bg_color"@,
        "theme_base_color"@,
        "bg_color"@,
        "base_color"@,
        "ayu_bg"@,
        "ayu_bg_card"@,
    ]
}

/// The named theme colors tried for a widget's background, in order.
pub fn background_color_names() -> (names: Vec<&'static str>)
    ensures
        names@.map_values(|n: &str| n@) == background_color_names_spec(),
{
    let names = vec![
        "window_bg_color",
        "view_bg_color",
        "card_bg_color",
        "headerbar_bg_color",
        "popover_bg_color",
        "dialog_bg_color",
        "sidebar_bg_color",
        "accent_bg_color",
        "theme_bg_color",
        "theme_base_color",
        "bg_color",
        "base_color",
        "ayu_bg",
        "ayu_bg_card",
    ];
    assert(names@.map_values(|n: &str| n@) =~= background_color_names_spec());
    names
}

/// The background color shown for the lookups of the named colors, in
/// order: the hex of the first name that resolves; when none does, the hex of
/// the foreground color.
pub open spec fn background_color_spec(found: Seq<Option<Rgb8>>, fg: Option<Rgb8>) -> Option<Seq<char>>
    decreases found.len(),
{
    if found.len() == 0 {
        match fg {
            Some(c) => Some(hex_color_spec(c)),
            None => None,
        }
    } else {
        match found[0] {
            Some(c) => Some(hex_color_spec(c)),
            None => background_color_spec(found.drop_first(), fg),
        }
    }
}

/// The background is the first color that resolves, whatever the later
/// lookups gave; when none resolves, it is the foreground color.
pub proof fn lemma_first_resolved_color_wins(found: Seq<Option<Rgb8>>, fg: Option<Rgb8>, i: int)
    requires
        0 <= i <= found.len(),
        forall|j: int| 0 <= j < i ==> #[trigger] found[j] is None,
    ensures
        i < found.len() ==> (found[i] matches Some(c) ==> background_color_spec(found, fg) == Some(
            hex_color_spec(c),
        )),
        i == found.len() ==> background_color_spec(found, fg) == match fg {
            Some(c) => Some(hex_color_spec(c)),
            None => None::<Seq<char>>,
        },
    decreases i,
{
    if i > 0 {
        let rest = found.drop_first();
        assert(found[0] is None);
        assert forall|j: int| 0 <= j < i - 1 implies #[trigger] rest[j] is None by {
            assert(found[j + 1] is None);
        }
        lemma_first_resolved_color_wins(rest, fg, i - 1);
        if i < found.len() {
            assert(rest[i - 1] == found[i]);
        }
    }
}

pub open spec fn opt_text(s: Option<String>) -> Option<Seq<char>> {
    match s {
        Some(t) => Some(t@),
        None => None,
    }
}

/// What to do after looking up one of the named background colors.
#[derive(Debug, Clone, PartialEq, Eq)]
pub enum BackgroundStep {
    /// Look up the name at this position of `background_color_names()`.
    LookUp(usize),
    /// The background color is decided.
    Done(Option<String>),
}

/// The decision after the lookup of name number `index` (counting from 0) of
/// `background_color_names()` gave `found`: a resolved color is the
/// background; otherwise the next name is looked up, and after the last name
/// the foreground color `fg` is taken.
pub fn background_color_step(index: usize, found: Option<Rgb8>, fg: Option<Rgb8>) -> (step: BackgroundStep)
    requires
        index < 14,
    ensures
        match found {
            Some(c) => step matches BackgroundStep::Done(Some(t)) && t@ == hex_color_spec(c),
            None => if index + 1 < 14 {
                step == BackgroundStep::LookUp((index + 1) as usize)
            } else {
                step matches BackgroundStep::Done(r) && opt_text(r) == background_color_spec(
                    Seq::empty(),
                    fg,
                )
            },
        },
{
    match found {
        Some(c) => BackgroundStep::Done(Some(rgb_to_hex(c))),
        None => if index + 1 < 14 {
            BackgroundStep::LookUp(index + 1)
        } else {
            match fg {
                Some(c) => BackgroundStep::Done(Some(rgb_to_hex(c))),
                None => BackgroundStep::Done(None),
            }
        },
    }
}

/// Pick the background color from the results of looking up each name of
/// `background_color_names()` in the widget's style context, falling back
/// to the foreground color.
pub fn pick_background_color(found: &Vec<Option<Rgb8>>, fg: Option<Rgb8>) -> (r: Option<String>)
    requires
        found@.len() == 14,
    ensures
        opt_text(r) == background_color_spec(found@, fg),
{
    assert(found@.skip(0) =~= found@);
    let mut i: usize = 0;
    loop
        invariant
            found@.len() == 14,
            i < 14,
            background_color_spec(found@, fg) == background_color_spec(found@.skip(i as int), fg),
        decreases 14 - i,
    {
        let ghost rest = found@.skip(i as int);
        assert(rest.drop_first() =~= found@.skip(i + 1));
        assert(rest[0] == found@[i as int]);
        match background_color_step(i, found[i], fg) {
            BackgroundStep::Done(r) => {
                if i + 1 == 14 && found[i].is_none() {
                    assert(found@.skip(i + 1) =~= Seq::<Option<Rgb8>>::empty());
                }
                return r;
            },
            BackgroundStep::LookUp(next) => {
                i = next;
            },
        }
    }
}

} // verus!
