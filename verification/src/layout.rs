//! Where things go on the terminal: the splits of each screen, the centred
//! overlays, the inside of a bordered box and the error box.
use crate::app::App;
use ratatui::layout::{Constraint, Direction, Layout, Rect};
use vstd::prelude::*;

verus! {

/// A rectangle of terminal cells.
#[derive(Debug, Clone, Copy, PartialEq, Eq, Structural)]
pub struct Area {
    pub x: u16,
    pub y: u16,
    pub width: u16,
    pub height: u16,
}

/// How much of a split a part asks for.
#[derive(Debug, Clone, Copy, PartialEq, Eq, Structural)]
pub enum Size {
    /// Exactly this many cells.
    Length(u16),
    /// At least this many cells.
    Min(u16),
    /// This percentage of the whole.
    Percentage(u16),
}

/// The column just right of an area, as ratatui's `Rect::right` gives it
/// (held at the last column of the terminal).
pub open spec fn right_of(a: Area) -> int {
    if a.x + a.width > u16::MAX {
        u16::MAX as int
    } else {
        a.x + a.width
    }
}

/// The row just below an area, as ratatui's `Rect::bottom` gives it (held at
/// the last row of the terminal).
pub open spec fn bottom_of(a: Area) -> int {
    if a.y + a.height > u16::MAX {
        u16::MAX as int
    } else {
        a.y + a.height
    }
}

/// `inner` lies within `outer`.
pub open spec fn lies_within(inner: Area, outer: Area) -> bool {
    &&& outer.x <= inner.x
    &&& inner.x + inner.width <= right_of(outer)
    &&& outer.y <= inner.y
    &&& inner.y + inner.height <= bottom_of(outer)
}

/// `part` lies within `area` along the direction of a split: between its
/// top and bottom rows for a vertical split, between its left and right
/// columns for a horizontal one.
pub open spec fn within_along(part: Area, area: Area, vertical: bool) -> bool {
    if vertical {
        area.y <= part.y && part.y + part.height <= bottom_of(area)
    } else {
        area.x <= part.x && part.x + part.width <= right_of(area)
    }
}

/// Where an area starts along a split: its top row for a vertical split,
/// its left column for a horizontal one.
pub open spec fn start_along(a: Area, vertical: bool) -> int {
    if vertical {
        a.y as int
    } else {
        a.x as int
    }
}

/// How far an area reaches along a split: its height for a vertical split,
/// its width for a horizontal one.
pub open spec fn extent_along(a: Area, vertical: bool) -> int {
    if vertical {
        a.height as int
    } else {
        a.width as int
    }
}

/// The cells a size asks for at least: its length, or its minimum.
pub open spec fn least(s: Size) -> int {
    match s {
        Size::Length(n) => n as int,
        Size::Min(m) => m as int,
        Size::Percentage(_) => 0,
    }
}

/// The cells that the sizes ask for at least, together.
pub open spec fn least_total(sizes: Seq<Size>) -> int
    decreases sizes.len(),
{
    if sizes.len() == 0 {
        0
    } else {
        least_total(sizes.drop_last()) + least(sizes.last())
    }
}

/// Sizes of lengths and minimums only, with at most one minimum, which fit
/// in the area along the split, the area ending within the terminal: the
/// split then has one outcome.
pub open spec fn fitting_sizes(area: Area, vertical: bool, sizes: Seq<Size>) -> bool {
    &&& forall|i: int| 0 <= i < sizes.len() ==> !(#[trigger] sizes[i] is Percentage)
    &&& forall|i: int, j: int|
        0 <= i < sizes.len() && 0 <= j < sizes.len() && #[trigger] sizes[i] is Min
            && #[trigger] sizes[j] is Min ==> i == j
    &&& least_total(sizes) <= extent_along(area, vertical)
    &&& start_along(area, vertical) + extent_along(area, vertical) <= u16::MAX
}

/// The outcome of a split by fitting sizes: the parts follow one another
/// from the area's start, each length gets exactly its cells, and the one
/// minimum takes all the cells that the lengths leave.
pub open spec fn split_exact(area: Area, vertical: bool, sizes: Seq<Size>, parts: Seq<Area>) -> bool {
    &&& parts.len() > 0 ==> start_along(parts[0], vertical) == start_along(area, vertical)
    &&& forall|i: int|
        0 <= i < parts.len() - 1 ==> start_along(#[trigger] parts[i + 1], vertical) == start_along(
            parts[i],
            vertical,
        ) + extent_along(parts[i], vertical)
    &&& forall|i: int|
        0 <= i < parts.len() && #[trigger] sizes[i] is Length ==> extent_along(parts[i], vertical)
            == least(sizes[i])
    &&& forall|i: int|
        0 <= i < parts.len() && #[trigger] sizes[i] is Min ==> extent_along(parts[i], vertical)
            == extent_along(area, vertical) - least_total(sizes) + least(sizes[i])
}

/// Splits an area into parts, one per size, with ratatui's `Layout::split`
/// (`vertical` stacks them, otherwise they stand side by side).
///
/// ratatui gives one part per size; each part keeps the area's columns in a
/// vertical split and its rows in a horizontal one, and lies between the
/// area's edges along the split, since the solver is bound to keep every
/// boundary between the area's start and its end (`Rect::bottom` or
/// `Rect::right`) and the boundaries are rounded to whole cells.
///
/// With the default `Flex::Start`, a length is held with more weight than a
/// minimum's growth to fill the area, which outweighs the last spacer's
/// growth, and the first and inner spacers are empty. So for lengths and at
/// most one minimum that fit, the constraints have a single optimum: the
/// parts follow one another from the start, each length gets its cells and
/// the minimum the rest (`split_exact`). Otherwise where the parts begin and
/// how long they are is left unsaid: ratatui's solver computes them in
/// floating point and may settle ties either way.
#[verifier::external_body]
pub(crate) fn split_area(area: Area, vertical: bool, sizes: &Vec<Size>) -> (res: Vec<Area>)
    ensures
        res.len() == sizes.len(),
        forall|i: int|
            0 <= i < res.len() ==> if vertical {
                res[i].x == area.x && res[i].width == area.width
            } else {
                res[i].y == area.y && res[i].height == area.height
            },
        forall|i: int| 0 <= i < res.len() ==> #[trigger] within_along(res[i], area, vertical),
        fitting_sizes(area, vertical, sizes@) ==> split_exact(area, vertical, sizes@, res@),
{
    let direction = match vertical {
        true => Direction::Vertical,
        false => Direction::Horizontal,
    };
    let constraints = sizes.iter().map(|s| match *s {
        Size::Length(n) => Constraint::Length(n),
        Size::Min(n) => Constraint::Min(n),
        Size::Percentage(n) => Constraint::Percentage(n),
    });
    let rect = Rect { x: area.x, y: area.y, width: area.width, height: area.height };
    let parts = Layout::default().direction(direction).constraints(constraints).split(rect);
    parts.iter().map(|r| Area { x: r.x, y: r.y, width: r.width, height: r.height }).collect()
}


/// The width of the sidebar when it is shown.
pub const SIDEBAR_WIDTH: u16 = 22;

/// The sidebar beside the rest: its width, or nothing when hidden.
pub open spec fn frame_sizes_of(sidebar_visible: bool) -> Seq<Size> {
    seq![Size::Length(if sidebar_visible { SIDEBAR_WIDTH } else { 0 }), Size::Min(0)]
}

/// The screen over its status line of two rows.
pub open spec fn content_sizes_of() -> Seq<Size> {
    seq![Size::Min(0), Size::Length(2)]
}

/// The login screen: title, e-mail, password, hint, the rest.
pub open spec fn login_sizes_of() -> Seq<Size> {
    seq![Size::Percentage(30), Size::Length(3), Size::Length(3), Size::Length(2), Size::Min(0)]
}

/// A cIRC room: its messages over an input of three rows.
pub open spec fn room_sizes_of() -> Seq<Size> {
    seq![Size::Min(3), Size::Length(3)]
}

/// The new-post modal: the title field over the content field.
pub open spec fn create_modal_sizes_of() -> Seq<Size> {
    seq![Size::Length(3), Size::Min(5)]
}

/// The reply modal: the message over a hint of one row.
pub open spec fn reply_modal_sizes_of() -> Seq<Size> {
    seq![Size::Min(3), Size::Length(1)]
}

/// A part of `percent` percent in the middle, the rest shared by both sides.
pub open spec fn centered_sizes_of(percent: u16) -> Seq<Size> {
    let side = ((100 - percent) / 2) as u16;
    seq![Size::Percentage(side), Size::Percentage(percent), Size::Percentage(side)]
}

/// The sizes of the split between sidebar and screen.
pub fn frame_sizes(sidebar_visible: bool) -> (res: Vec<Size>)
    ensures
        res@ == frame_sizes_of(sidebar_visible),
{
    let width = if sidebar_visible { SIDEBAR_WIDTH } else { 0 };
    vec![Size::Length(width), Size::Min(0)]
}

/// The sizes of the split between screen and status line.
pub fn content_sizes() -> (res: Vec<Size>)
    ensures
        res@ == content_sizes_of(),
{
    vec![Size::Min(0), Size::Length(2)]
}

/// The sizes of the rows of the login screen.
pub fn login_sizes() -> (res: Vec<Size>)
    ensures
        res@ == login_sizes_of(),
{
    vec![Size::Percentage(30), Size::Length(3), Size::Length(3), Size::Length(2), Size::Min(0)]
}

/// The sizes of the rows of a cIRC room.
pub fn room_sizes() -> (res: Vec<Size>)
    ensures
        res@ == room_sizes_of(),
{
    vec![Size::Min(3), Size::Length(3)]
}

/// The sizes of the rows of the new-post modal.
pub fn create_modal_sizes() -> (res: Vec<Size>)
    ensures
        res@ == create_modal_sizes_of(),
{
    vec![Size::Length(3), Size::Min(5)]
}

/// The sizes of the rows of the reply modal.
pub fn reply_modal_sizes() -> (res: Vec<Size>)
    ensures
        res@ == reply_modal_sizes_of(),
{
    vec![Size::Min(3), Size::Length(1)]
}

/// The sizes that centre a part of `percent` percent.
pub fn centered_sizes(percent: u16) -> (res: Vec<Size>)
    requires
        percent <= 100,
    ensures
        res@ == centered_sizes_of(percent),
{
    let side = (100 - percent) / 2;
    vec![Size::Percentage(side), Size::Percentage(percent), Size::Percentage(side)]
}

/// The parts of the terminal outside the login screen.
#[derive(Debug, Clone, Copy)]
pub struct FrameAreas {
    /// The sidebar, of no width when hidden.
    pub sidebar: Area,
    /// The screen itself.
    pub main: Area,
    /// The status line under it.
    pub status: Area,
}

proof fn lemma_two_sizes(area: Area, vertical: bool, a: Size, b: Size)
    requires
        !(a is Percentage),
        !(b is Percentage),
        !(a is Min && b is Min),
        least(a) + least(b) <= extent_along(area, vertical),
        start_along(area, vertical) + extent_along(area, vertical) <= u16::MAX,
    ensures
        least_total(seq![a, b]) == least(a) + least(b),
        fitting_sizes(area, vertical, seq![a, b]),
{
    let s = seq![a, b];
    assert(s.drop_last() =~= seq![a]);
    assert(seq![a].drop_last() =~= Seq::<Size>::empty());
    assert(least_total(Seq::<Size>::empty()) == 0);
    assert(least_total(seq![a]) == least(a));
    assert(least_total(s) == least_total(seq![a]) + least(b));
    assert forall|i: int, j: int|
        0 <= i < s.len() && 0 <= j < s.len() && #[trigger] s[i] is Min && #[trigger] s[j]
            is Min implies i == j by {
        if i != j {
            assert(s[0] == a && s[1] == b);
        }
    }
}

/// The width of the sidebar: its width when shown, none when hidden.
pub open spec fn sidebar_width(sidebar_visible: bool) -> int {
    if sidebar_visible {
        SIDEBAR_WIDTH as int
    } else {
        0
    }
}

/// Splits the terminal into sidebar, screen and status line: the sidebar
/// beside the rest, which is split into the screen over the status line.
/// Where the terminal is wide enough for the sidebar, the sidebar takes its
/// width at the left and the rest goes to the screen; where it is high
/// enough, the status line takes the two bottom rows and the screen the rows
/// above.
pub fn frame_areas(area: Area, sidebar_visible: bool) -> (res: FrameAreas)
    ensures
        res.sidebar.y == area.y,
        res.sidebar.height == area.height,
        res.main.x == res.status.x,
        res.main.width == res.status.width,
        area.x + area.width <= u16::MAX && area.width >= sidebar_width(sidebar_visible) ==> {
            &&& res.sidebar.x == area.x
            &&& res.sidebar.width == sidebar_width(sidebar_visible)
            &&& res.main.x == area.x + sidebar_width(sidebar_visible)
            &&& res.main.width == area.width - sidebar_width(sidebar_visible)
        },
        area.y + area.height <= u16::MAX && area.height >= 2 ==> {
            &&& res.main.y == area.y
            &&& res.main.height == area.height - 2
            &&& res.status.y == area.y + area.height - 2
            &&& res.status.height == 2
        },
{
    let sizes = frame_sizes(sidebar_visible);
    let columns = split_area(area, false, &sizes);
    let content = content_sizes();
    let rows = split_area(columns[1], true, &content);
    proof {
        if area.x + area.width <= u16::MAX && area.width >= sidebar_width(sidebar_visible) {
            lemma_two_parts(area, false, sizes@, columns@);
        }
        if area.y + area.height <= u16::MAX && area.height >= 2 {
            lemma_two_parts(columns[1], true, content@, rows@);
        }
    }
    FrameAreas { sidebar: columns[0], main: rows[0], status: rows[1] }
}

/// The rows of the login screen: title, e-mail, password, hint, the rest.
pub fn login_areas(area: Area) -> (res: Vec<Area>)
    ensures
        res.len() == login_sizes_of().len(),
        forall|i: int| 0 <= i < res.len() ==> res[i].x == area.x && res[i].width == area.width,
{
    split_area(area, true, &login_sizes())
}

/// A split by a length and a minimum that fit: the two parts follow one
/// another from the area's start and fill it, the length taking its cells.
proof fn lemma_two_parts(area: Area, vertical: bool, sizes: Seq<Size>, parts: Seq<Area>)
    requires
        sizes.len() == 2,
        parts.len() == 2,
        (sizes[0] is Length && sizes[1] is Min) || (sizes[0] is Min && sizes[1] is Length),
        least(sizes[0]) + least(sizes[1]) <= extent_along(area, vertical),
        start_along(area, vertical) + extent_along(area, vertical) <= u16::MAX,
        fitting_sizes(area, vertical, sizes) ==> split_exact(area, vertical, sizes, parts),
    ensures
        start_along(parts[0], vertical) == start_along(area, vertical),
        start_along(parts[1], vertical) == start_along(area, vertical) + extent_along(
            parts[0],
            vertical,
        ),
        extent_along(parts[0], vertical) + extent_along(parts[1], vertical) == extent_along(
            area,
            vertical,
        ),
        sizes[0] is Length ==> extent_along(parts[0], vertical) == least(sizes[0]),
        sizes[1] is Length ==> extent_along(parts[1], vertical) == least(sizes[1]),
{
    lemma_two_sizes(area, vertical, sizes[0], sizes[1]);
    assert(sizes =~= seq![sizes[0], sizes[1]]);
    assert(split_exact(area, vertical, sizes, parts));
    assert(start_along(parts[0int + 1], vertical) == start_along(parts[0], vertical) + extent_along(
        parts[0],
        vertical,
    ));
    if sizes[0] is Min {
        assert(sizes[1] is Length);
        assert(extent_along(parts[1], vertical) == least(sizes[1]));
        assert(extent_along(parts[0], vertical) == extent_along(area, vertical) - least(sizes[1]));
    } else {
        assert(sizes[1] is Min);
        assert(extent_along(parts[0], vertical) == least(sizes[0]));
        assert(extent_along(parts[1], vertical) == extent_along(area, vertical) - least(sizes[0]));
    }
}

/// The rows of a cIRC room: messages, then an input of three rows at the
/// bottom, where the room is at least six rows high.
pub fn room_areas(area: Area) -> (res: (Area, Area))
    ensures
        res.0.x == area.x && res.0.width == area.width,
        res.1.x == area.x && res.1.width == area.width,
        area.y + area.height <= u16::MAX && area.height >= 6 ==> {
            &&& res.0.y == area.y
            &&& res.0.height == area.height - 3
            &&& res.1.y == area.y + area.height - 3
            &&& res.1.height == 3
        },
{
    let sizes = room_sizes();
    let rows = split_area(area, true, &sizes);
    proof {
        if area.y + area.height <= u16::MAX && area.height >= 6 {
            lemma_two_parts(area, true, sizes@, rows@);
        }
    }
    (rows[0], rows[1])
}

/// The rows inside the new-post modal: a title field of three rows at the
/// top, then the content field, where the modal is at least eight rows high.
pub fn create_modal_areas(inner: Area) -> (res: (Area, Area))
    ensures
        res.0.x == inner.x && res.0.width == inner.width,
        res.1.x == inner.x && res.1.width == inner.width,
        inner.y + inner.height <= u16::MAX && inner.height >= 8 ==> {
            &&& res.0.y == inner.y
            &&& res.0.height == 3
            &&& res.1.y == inner.y + 3
            &&& res.1.height == inner.height - 3
        },
{
    let sizes = create_modal_sizes();
    let rows = split_area(inner, true, &sizes);
    proof {
        if inner.y + inner.height <= u16::MAX && inner.height >= 8 {
            lemma_two_parts(inner, true, sizes@, rows@);
        }
    }
    (rows[0], rows[1])
}

/// The rows inside the reply modal: the message, then a hint of one row at
/// the bottom, where the modal is at least four rows high.
pub fn reply_modal_areas(inner: Area) -> (res: (Area, Area))
    ensures
        res.0.x == inner.x && res.0.width == inner.width,
        res.1.x == inner.x && res.1.width == inner.width,
        inner.y + inner.height <= u16::MAX && inner.height >= 4 ==> {
            &&& res.0.y == inner.y
            &&& res.0.height == inner.height - 1
            &&& res.1.y == inner.y + inner.height - 1
            &&& res.1.height == 1
        },
{
    let sizes = reply_modal_sizes();
    let rows = split_area(inner, true, &sizes);
    proof {
        if inner.y + inner.height <= u16::MAX && inner.height >= 4 {
            lemma_two_parts(inner, true, sizes@, rows@);
        }
    }
    (rows[0], rows[1])
}

/// An overlay centred on an area, `width_percent` of its width and
/// `height_percent` of its height: the middle row of a vertical split by
/// `centered_sizes(height_percent)`, then the middle column of that by
/// `centered_sizes(width_percent)`. The overlay lies within the area.
pub fn centered(area: Area, width_percent: u16, height_percent: u16) -> (res: Area)
    requires
        width_percent <= 100,
        height_percent <= 100,
    ensures
        lies_within(res, area),
{
    let rows = split_area(area, true, &centered_sizes(height_percent));
    let columns = split_area(rows[1], false, &centered_sizes(width_percent));
    assert(within_along(rows[1], area, true));
    assert(within_along(columns[1], rows[1], false));
    columns[1]
}

/// The inside of a box with a border on each side, as ratatui's
/// `Block::inner` gives it for `Borders::ALL` without padding.
pub open spec fn bordered_inner_of(a: Area) -> Area {
    let right = if a.x + a.width > u16::MAX { u16::MAX as int } else { a.x + a.width };
    let bottom = if a.y + a.height > u16::MAX { u16::MAX as int } else { a.y + a.height };
    let x1 = if a.x + 1 > u16::MAX { u16::MAX as int } else { a.x + 1 };
    let y1 = if a.y + 1 > u16::MAX { u16::MAX as int } else { a.y + 1 };
    Area {
        x: (if x1 < right { x1 } else { right }) as u16,
        y: (if y1 < bottom { y1 } else { bottom }) as u16,
        width: (if a.width >= 2 { a.width - 2 } else { 0 }) as u16,
        height: (if a.height >= 2 { a.height - 2 } else { 0 }) as u16,
    }
}

/// The inside of a bordered box.
pub fn bordered_inner(a: Area) -> (res: Area)
    ensures
        res == bordered_inner_of(a),
{
    let right = a.x.saturating_add(a.width);
    let bottom = a.y.saturating_add(a.height);
    let x1 = a.x.saturating_add(1);
    let y1 = a.y.saturating_add(1);
    Area {
        x: if x1 < right { x1 } else { right },
        y: if y1 < bottom { y1 } else { bottom },
        width: a.width.saturating_sub(1).saturating_sub(1),
        height: a.height.saturating_sub(1).saturating_sub(1),
    }
}

/// The text area of the post view: two cells in from each side and one from
/// the top and bottom, as ratatui's `Rect::inner` gives it; nothing when the
/// area is too small for that margin.
pub open spec fn post_text_area_of(a: Area) -> Area {
    if a.width < 4 || a.height < 2 {
        Area { x: 0, y: 0, width: 0, height: 0 }
    } else {
        Area {
            x: (if a.x + 2 > u16::MAX { u16::MAX as int } else { a.x + 2 }) as u16,
            y: (if a.y + 1 > u16::MAX { u16::MAX as int } else { a.y + 1 }) as u16,
            width: (a.width - 4) as u16,
            height: (a.height - 2) as u16,
        }
    }
}

/// The text area of the post view.
pub fn post_text_area(a: Area) -> (res: Area)
    ensures
        res == post_text_area_of(a),
{
    if a.width < 4 || a.height < 2 {
        Area { x: 0, y: 0, width: 0, height: 0 }
    } else {
        Area {
            x: a.x.saturating_add(2),
            y: a.y.saturating_add(1),
            width: a.width - 4,
            height: a.height - 2,
        }
    }
}

/// The widest the error box gets.
pub const ERROR_BOX_MAX_WIDTH: u16 = 90;

/// The width of the error box over a screen: four cells narrower than the
/// screen, but at most 90.
pub open spec fn error_box_width(a: Area) -> int {
    if a.width - 4 < ERROR_BOX_MAX_WIDTH {
        a.width - 4
    } else {
        ERROR_BOX_MAX_WIDTH as int
    }
}

/// The error box over a screen: three rows high, one row under its top,
/// centred, four cells narrower than the screen but at most 90 wide. There
/// is none without an error, nor on a screen narrower than 10 or lower than
/// 3.
pub open spec fn error_box_of(has_error: bool, a: Area) -> Option<Area> {
    if !has_error || a.width < 10 || a.height < 3 {
        None
    } else {
        Some(
            Area {
                x: (a.x + (a.width - error_box_width(a)) / 2) as u16,
                y: (a.y + 1) as u16,
                width: error_box_width(a) as u16,
                height: 3,
            },
        )
    }
}

/// Where the error box is placed, its column and row fit the terminal's
/// coordinates.
pub open spec fn error_box_fits(has_error: bool, a: Area) -> bool {
    has_error && a.width >= 10 && a.height >= 3 ==> {
        &&& a.x + (a.width - error_box_width(a)) / 2 <= u16::MAX
        &&& a.y + 1 <= u16::MAX
    }
}

/// The error box over the screen, when there is an error to show.
pub fn error_box_area(app: &App, a: Area) -> (res: Option<Area>)
    requires
        error_box_fits(app@.error_message is Some, a),
    ensures
        res == error_box_of(app@.error_message is Some, a),
{
    if app.error_message.is_none() || a.width < 10 || a.height < 3 {
        return None;
    }
    let narrower = a.width.saturating_sub(4);
    let width = if narrower < ERROR_BOX_MAX_WIDTH { narrower } else { ERROR_BOX_MAX_WIDTH };
    Some(Area { x: a.x + (a.width - width) / 2, y: a.y + 1, width, height: 3 })
}

} // verus!
