//! Drawing: the primitives a screen is made of, the shared helpers that
//! compose them, and durations as text.
//!
//! Screens are computed as lists of [`DrawCmd`]s; the platform layer only
//! renders them.

use vstd::prelude::*;
use crate::text::{dec, push_dec, push_str};

verus! {

/// A point on the screen, in pixels.
#[derive(Debug, Clone, Copy, PartialEq, Eq, Structural)]
pub struct Point {
    pub x: isize,
    pub y: isize,
}

/// A rectangle given by two opposite corners.
#[derive(Debug, Clone, Copy, PartialEq, Eq, Structural)]
pub struct Rect {
    pub x0: isize,
    pub y0: isize,
    pub x1: isize,
    pub y1: isize,
}

/// The two colors of the display.
#[derive(Debug, Clone, Copy, PartialEq, Eq, Structural)]
pub enum PixelColor {
    Light,
    Dark,
}

/// Text styles.
#[derive(Debug, Clone, Copy, PartialEq, Eq, Structural)]
pub enum GlyphStyle {
    Regular,
    Small,
    Bold,
    Monospace,
}

/// How a shape is drawn: fill, outline and outline width; a missing fill or
/// outline is not drawn.
#[derive(Debug, Clone, Copy, PartialEq, Eq, Structural)]
pub struct DrawStyle {
    pub fill: Option<PixelColor>,
    pub stroke: Option<PixelColor>,
    pub width: isize,
}

/// A drawing primitive.
pub enum DrawCmd {
    /// A rectangle.
    Rectangle { bounds: Rect, style: DrawStyle },
    /// A rectangle with rounded corners.
    RoundedRectangle { bounds: Rect, style: DrawStyle, radius: isize },
    /// A straight line.
    Line { from: Point, to: Point, style: DrawStyle },
    /// Text in a box; `border` draws a one-pixel frame, `clear` blanks the box
    /// first, `invert` swaps the colors, `margin` overrides the inner margin.
    Text {
        bounds: Rect,
        glyph: GlyphStyle,
        text: String,
        border: bool,
        clear: bool,
        invert: bool,
        margin: Option<Point>,
    },
}

/// A drawing primitive, its text as characters.
pub enum DrawItem {
    Rectangle { bounds: Rect, style: DrawStyle },
    RoundedRectangle { bounds: Rect, style: DrawStyle, radius: isize },
    Line { from: Point, to: Point, style: DrawStyle },
    Text {
        bounds: Rect,
        glyph: GlyphStyle,
        text: Seq<char>,
        border: bool,
        clear: bool,
        invert: bool,
        margin: Option<Point>,
    },
}

impl View for DrawCmd {
    type V = DrawItem;

    open spec fn view(&self) -> DrawItem {
        match self {
            DrawCmd::Rectangle { bounds, style } => DrawItem::Rectangle {
                bounds: *bounds,
                style: *style,
            },
            DrawCmd::RoundedRectangle { bounds, style, radius } => DrawItem::RoundedRectangle {
                bounds: *bounds,
                style: *style,
                radius: *radius,
            },
            DrawCmd::Line { from, to, style } => DrawItem::Line {
                from: *from,
                to: *to,
                style: *style,
            },
            DrawCmd::Text { bounds, glyph, text, border, clear, invert, margin } => DrawItem::Text {
                bounds: *bounds,
                glyph: *glyph,
                text: text@,
                border: *border,
                clear: *clear,
                invert: *invert,
                margin: *margin,
            },
        }
    }
}

/// The primitives a list of commands draws.
pub open spec fn items(cmds: Seq<DrawCmd>) -> Seq<DrawItem> {
    cmds.map_values(|c: DrawCmd| c@)
}

/// The text an item draws; empty for shapes.
pub open spec fn item_text(d: DrawItem) -> Seq<char> {
    match d {
        DrawItem::Text { text, .. } => text,
        _ => Seq::empty(),
    }
}

/// Whether an item is text drawn with swapped colors.
pub open spec fn item_inverted(d: DrawItem) -> bool {
    match d {
        DrawItem::Text { invert, .. } => invert,
        _ => false,
    }
}

/// The fill of a shape; none for text and lines.
pub open spec fn item_fill(d: DrawItem) -> Option<PixelColor> {
    match d {
        DrawItem::Rectangle { style, .. } => style.fill,
        DrawItem::RoundedRectangle { style, .. } => style.fill,
        _ => None,
    }
}

/// The box of a text item or a rectangle.
pub open spec fn item_bounds(d: DrawItem) -> Rect {
    match d {
        DrawItem::Text { bounds, .. } => bounds,
        DrawItem::Rectangle { bounds, .. } => bounds,
        DrawItem::RoundedRectangle { bounds, .. } => bounds,
        DrawItem::Line { from, to, .. } => Rect { x0: from.x, y0: from.y, x1: to.x, y1: to.y },
    }
}

/// Whether items `i` and `i + 1` of `l` draw `label` and, right of it on the
/// same row, `value`.
pub open spec fn labelled(l: Seq<DrawItem>, i: int, label: Seq<char>, value: Seq<char>) -> bool {
    &&& 0 <= i
    &&& i + 1 < l.len()
    &&& l[i] is Text
    &&& l[i + 1] is Text
    &&& item_text(l[i]) == label
    &&& item_text(l[i + 1]) == value
    &&& item_bounds(l[i + 1]).y0 == item_bounds(l[i]).y0
    &&& item_bounds(l[i + 1]).x0 == item_bounds(l[i]).x1
}

/// A rectangle from its corners.
pub open spec fn rect(x0: int, y0: int, x1: int, y1: int) -> Rect {
    Rect { x0: x0 as isize, y0: y0 as isize, x1: x1 as isize, y1: y1 as isize }
}

/// The style with both a fill and an outline (gam's `DrawStyle::new`).
pub open spec fn style(fill: PixelColor, stroke: PixelColor, width: isize) -> DrawStyle {
    DrawStyle { fill: Some(fill), stroke: Some(stroke), width }
}

/// A rectangle drawn with fill, outline and outline width.
pub open spec fn styled_rect(bounds: Rect, fill: PixelColor, stroke: PixelColor, width: isize) -> DrawItem {
    DrawItem::Rectangle { bounds, style: style(fill, stroke, width) }
}

/// Text without frame or margin override.
pub open spec fn plain_text(bounds: Rect, glyph: GlyphStyle, text: Seq<char>, clear: bool, invert: bool) -> DrawItem {
    DrawItem::Text { bounds, glyph, text, border: false, clear, invert, margin: None }
}

/// What clearing the screen draws: the whole screen filled light.
pub open spec fn clear_screen_item(screen: Point) -> DrawItem {
    DrawItem::Rectangle {
        bounds: rect(0, 0, screen.x as int, screen.y as int),
        style: DrawStyle { fill: Some(PixelColor::Light), stroke: None, width: 0 },
    }
}

/// What a section header draws: bold text in an 18 pixel high band that is
/// cleared first.
pub open spec fn section_header_item(x: int, y: int, width: int, text: Seq<char>) -> DrawItem {
    plain_text(rect(x, y, x + width, y + 18), GlyphStyle::Bold, text, true, false)
}

/// What a label and its value draw: the label in regular text, the value in
/// monospace to its right, both 16 pixels high and cleared first.
pub open spec fn label_value_items(
    x: int,
    y: int,
    label_width: int,
    value_width: int,
    label: Seq<char>,
    value: Seq<char>,
) -> Seq<DrawItem> {
    seq![
        plain_text(rect(x, y, x + label_width, y + 16), GlyphStyle::Regular, label, true, false),
        plain_text(
            rect(x + label_width, y, x + label_width + value_width, y + 16),
            GlyphStyle::Monospace,
            value,
            true,
            false,
        ),
    ]
}

/// Width of the filled part of a progress bar `width` pixels wide showing
/// `percent`: the inner width (two pixels of margin on each side), taken as a
/// 32-bit unsigned number (so that below 4 pixels it wraps around), scaled by
/// the percentage and rounded down.
pub open spec fn fill_width(width: int, percent: u8) -> int {
    let inner = if width >= 4 {
        width - 4
    } else {
        u32::MAX + 1 + (width - 4)
    };
    inner * percent / 100
}

/// What a progress bar draws: a light box with a dark frame, and a dark fill
/// of [`fill_width`] pixels, when that is not empty.
pub open spec fn progress_bar_items(x: int, y: int, width: int, height: int, percent: u8) -> Seq<DrawItem> {
    let fill = fill_width(width, percent);
    let outline = styled_rect(rect(x, y, x + width, y + height), PixelColor::Light, PixelColor::Dark, 1);
    if fill > 0 {
        seq![
            outline,
            styled_rect(
                rect(x + 2, y + 2, x + 2 + fill, y + height - 2),
                PixelColor::Dark,
                PixelColor::Dark,
                0,
            ),
        ]
    } else {
        seq![outline]
    }
}

/// Coordinates within which every layout computation stays far from overflow,
/// on 32-bit targets too.
pub open spec fn small(v: int) -> bool {
    -0x100_0000 <= v <= 0x100_0000
}

/// A screen of a size for which every layout computation stays far from
/// overflow, on 32-bit targets too.
pub open spec fn screen_fits(screen: Point) -> bool {
    0 <= screen.x <= 0x100_0000 && 0 <= screen.y <= 0x100_0000
}

/// A string with the characters of `t`.
pub fn string_of(t: &str) -> (s: String)
    ensures
        s@ == t@,
{
    let mut s = String::new();
    push_str(&mut s, t);
    s
}

/// Appends `c` to `cmds`.
pub fn push_cmd(cmds: &mut Vec<DrawCmd>, c: DrawCmd)
    ensures
        items(final(cmds)@) == items(old(cmds)@).push(c@),
{
    let ghost before = cmds@;
    cmds.push(c);
    assert(items(cmds@) =~= items(before).push(c@));
}

/// Appends text without frame or margin override.
pub fn push_text(
    cmds: &mut Vec<DrawCmd>,
    bounds: Rect,
    glyph: GlyphStyle,
    text: String,
    clear: bool,
    invert: bool,
)
    ensures
        items(final(cmds)@) == items(old(cmds)@).push(plain_text(bounds, glyph, text@, clear, invert)),
{
    push_cmd(cmds, DrawCmd::Text { bounds, glyph, text, border: false, clear, invert, margin: None });
}

/// Appends a rectangle with fill, stroke and stroke width.
pub fn push_styled_rect(cmds: &mut Vec<DrawCmd>, bounds: Rect, fill: PixelColor, stroke: PixelColor, width: isize)
    ensures
        items(final(cmds)@) == items(old(cmds)@).push(styled_rect(bounds, fill, stroke, width)),
{
    push_cmd(
        cmds,
        DrawCmd::Rectangle {
            bounds,
            style: DrawStyle { fill: Some(fill), stroke: Some(stroke), width },
        },
    );
}

/// Clearing the screen.
pub fn clear_screen(cmds: &mut Vec<DrawCmd>, screen: Point)
    ensures
        items(final(cmds)@) == items(old(cmds)@).push(clear_screen_item(screen)),
{
    push_cmd(
        cmds,
        DrawCmd::Rectangle {
            bounds: Rect { x0: 0, y0: 0, x1: screen.x, y1: screen.y },
            style: DrawStyle { fill: Some(PixelColor::Light), stroke: None, width: 0 },
        },
    );
}

/// A section header.
pub fn draw_section_header(cmds: &mut Vec<DrawCmd>, x: isize, y: isize, width: isize, text: &str)
    requires
        small(x as int),
        small(y as int),
        small(width as int),
    ensures
        items(final(cmds)@) == items(old(cmds)@).push(
            section_header_item(x as int, y as int, width as int, text@),
        ),
{
    push_text(
        cmds,
        Rect { x0: x, y0: y, x1: x + width, y1: y + 18 },
        GlyphStyle::Bold,
        string_of(text),
        true,
        false,
    );
}

/// A label and its value.
pub fn draw_label_value(
    cmds: &mut Vec<DrawCmd>,
    x: isize,
    y: isize,
    label_width: isize,
    value_width: isize,
    label: &str,
    value: String,
)
    requires
        small(x as int),
        small(y as int),
        small(label_width as int),
        small(value_width as int),
    ensures
        items(final(cmds)@) == items(old(cmds)@) + label_value_items(
            x as int,
            y as int,
            label_width as int,
            value_width as int,
            label@,
            value@,
        ),
{
    let ghost before = items(cmds@);
    push_text(
        cmds,
        Rect { x0: x, y0: y, x1: x + label_width, y1: y + 16 },
        GlyphStyle::Regular,
        string_of(label),
        true,
        false,
    );
    push_text(
        cmds,
        Rect { x0: x + label_width, y0: y, x1: x + label_width + value_width, y1: y + 16 },
        GlyphStyle::Monospace,
        value,
        true,
        false,
    );
    assert(items(cmds@) =~= before + label_value_items(
        x as int,
        y as int,
        label_width as int,
        value_width as int,
        label@,
        value@,
    ));
}

/// A progress bar.
pub fn draw_progress_bar(
    cmds: &mut Vec<DrawCmd>,
    x: isize,
    y: isize,
    width: isize,
    height: isize,
    percent: u8,
)
    requires
        small(x as int),
        small(y as int),
        small(width as int),
        4 <= width || percent <= 1,
        small(height as int),
    ensures
        items(final(cmds)@) == items(old(cmds)@) + progress_bar_items(
            x as int,
            y as int,
            width as int,
            height as int,
            percent,
        ),
{
    let ghost before = items(cmds@);
    push_styled_rect(
        cmds,
        Rect { x0: x, y0: y, x1: x + width, y1: y + height },
        PixelColor::Light,
        PixelColor::Dark,
        1,
    );
    let fill = progress_fill_width(width, percent);
    if fill > 0 {
        push_styled_rect(
            cmds,
            Rect { x0: x + 2, y0: y + 2, x1: x + 2 + fill, y1: y + height - 2 },
            PixelColor::Dark,
            PixelColor::Dark,
            0,
        );
    }
    assert(items(cmds@) =~= before + progress_bar_items(
        x as int,
        y as int,
        width as int,
        height as int,
        percent,
    ));
}

/// A duration in milliseconds as hours, minutes and seconds, leaving out
/// leading zero units: `1h 2m 3s`, `2m 3s`, `3s`.
pub open spec fn hms_text(total_ms: u64) -> Seq<char> {
    let secs = total_ms / 1000;
    let hours = secs / 3600;
    let minutes = (secs % 3600) / 60;
    let seconds = secs % 60;
    if hours > 0 {
        dec(hours as nat) + "h "@ + dec(minutes as nat) + "m "@ + dec(seconds as nat) + "s"@
    } else if minutes > 0 {
        dec(minutes as nat) + "m "@ + dec(seconds as nat) + "s"@
    } else {
        dec(seconds as nat) + "s"@
    }
}

/// A duration in milliseconds as hours, minutes and seconds.
pub fn format_duration_hms(total_ms: u64) -> (s: String)
    ensures
        s@ == hms_text(total_ms),
{
    let total_secs = total_ms / 1000;
    let hours = total_secs / 3600;
    let minutes = (total_secs % 3600) / 60;
    let seconds = total_secs % 60;
    let mut s = String::new();
    if hours > 0 {
        push_dec(&mut s, hours);
        push_str(&mut s, "h ");
        push_dec(&mut s, minutes);
        push_str(&mut s, "m ");
        push_dec(&mut s, seconds);
        push_str(&mut s, "s");
    } else if minutes > 0 {
        push_dec(&mut s, minutes);
        push_str(&mut s, "m ");
        push_dec(&mut s, seconds);
        push_str(&mut s, "s");
    } else {
        push_dec(&mut s, seconds);
        push_str(&mut s, "s");
    }
    assert(s@ =~= hms_text(total_ms));
    s
}

/// Width of the filled part of a progress bar `width` pixels wide showing
/// `percent`; the 32-bit product overflows for a bar narrower than 4 pixels
/// showing more than 1 percent.
pub fn progress_fill_width(width: isize, percent: u8) -> (fill: isize)
    requires
        small(width as int),
        4 <= width || percent <= 1,
    ensures
        fill == fill_width(width as int, percent),
        0 <= fill <= u32::MAX / 100,
{
    let inner: u32 = if width >= 4 {
        (width - 4) as u32
    } else {
        u32::MAX - ((4 - width) as u32) + 1
    };
    assert(inner * percent <= u32::MAX) by (nonlinear_arith)
        requires
            width >= 4 ==> inner <= 0x100_0000,
            width < 4 ==> percent <= 1,
            percent <= 255,
            inner <= u32::MAX,
    ;
    let f: u32 = inner * (percent as u32) / 100;
    assert(f <= u32::MAX / 100) by (nonlinear_arith)
        requires
            f == inner * percent / 100,
            inner * percent <= u32::MAX,
    ;
    f as isize
}

} // verus!
