//! Where the parts of the editor's screen go. The areas come from
//! ratatui's layout solver; this module decides how the screen is divided.
use ratatui::layout::{Constraint, Direction, Layout, Rect};
use vstd::prelude::*;

verus! {

/// A rectangle of the screen: column, row, width and height, in cells.
#[derive(Clone, Copy, PartialEq, Eq, Structural)]
pub struct Area {
    pub x: u16,
    pub y: u16,
    pub width: u16,
    pub height: u16,
}

/// The direction in which an area is divided.
#[derive(Clone, Copy, PartialEq, Eq, Structural)]
pub enum LayoutDirection {
    /// From top to bottom.
    Vertical,
    /// From left to right.
    Horizontal,
}

/// How much of the divided length a part asks for.
#[derive(Clone, Copy, PartialEq, Eq, Structural)]
pub enum LayoutConstraint {
    /// Exactly this many cells.
    Length(u16),
    /// At least this many cells.
    Min(u16),
    /// This percentage of the length.
    Percentage(u16),
}

/// Two parts, in order.
pub open spec fn two_parts(a: Area, b: Area) -> Seq<Area> {
    seq![a, b]
}

/// Three parts, in order.
pub open spec fn three_parts(a: Area, b: Area, c: Area) -> Seq<Area> {
    seq![a, b, c]
}

/// `part` lies inside `area`.
pub open spec fn within(part: Area, area: Area) -> bool {
    &&& area.x <= part.x
    &&& part.x + part.width <= area.x + area.width
    &&& area.y <= part.y
    &&& part.y + part.height <= area.y + area.height
}

/// `part` is a slice of `area` cut in `direction`: inside it, and as wide
/// (for a vertical division) or as high (for a horizontal one) as it.
pub open spec fn slice_of(part: Area, area: Area, direction: LayoutDirection) -> bool {
    &&& within(part, area)
    &&& match direction {
        LayoutDirection::Vertical => part.x == area.x && part.width == area.width,
        LayoutDirection::Horizontal => part.y == area.y && part.height == area.height,
    }
}

/// `parts` is one outcome of ratatui's layout solver dividing `area` in
/// `direction` under `constraints`. The solver may resolve conflicting
/// constraints differently from one call to the next, so this names a
/// relation between what goes in and what comes out, not a function.
pub uninterp spec fn layout_outcome(
    direction: LayoutDirection,
    constraints: Seq<LayoutConstraint>,
    area: Area,
    parts: Seq<Area>,
) -> bool;

/// `Layout::new(direction, constraints).split(area)` of ratatui: one part
/// per constraint, each a slice of the area cut in the direction (the
/// solver's required constraints keep every part between the start and the
/// end of the area, and the other coordinate and size are the area's).
/// The parts are an outcome of the solver for these constraints and this
/// area ([`layout_outcome`]); how long each part is and where it starts is
/// not stated: the solver may resolve conflicting constraints differently
/// from one call to the next.
#[verifier::external_body]
fn split_layout(direction: LayoutDirection, constraints: &Vec<LayoutConstraint>, area: Area) -> (r:
    Vec<Area>)
    ensures
        r@.len() == constraints@.len(),
        layout_outcome(direction, constraints@, area, r@),
        forall|i: int| 0 <= i < r@.len() ==> slice_of(#[trigger] r@[i], area, direction),
{
    let direction = match direction {
        LayoutDirection::Vertical => Direction::Vertical,
        LayoutDirection::Horizontal => Direction::Horizontal,
    };
    let constraints = constraints.iter().map(|c| match *c {
        LayoutConstraint::Length(n) => Constraint::Length(n),
        LayoutConstraint::Min(n) => Constraint::Min(n),
        LayoutConstraint::Percentage(p) => Constraint::Percentage(p),
    });
    let rect = Rect { x: area.x, y: area.y, width: area.width, height: area.height };
    let parts = Layout::new(direction, constraints).split(rect);
    parts.iter().map(|p| Area { x: p.x, y: p.y, width: p.width, height: p.height }).collect()
}

/// The three constraints of a centred part: equal margins round `middle`.
fn around(first: LayoutConstraint, middle: LayoutConstraint, last: LayoutConstraint) -> (r: Vec<
    LayoutConstraint,
>)
    ensures
        r@ == seq![first, middle, last],
{
    let mut r: Vec<LayoutConstraint> = Vec::new();
    r.push(first);
    r.push(middle);
    r.push(last);
    assert(r@ =~= seq![first, middle, last]);
    r
}

/// The screen from top to bottom: a line for the tab bar, the body (at
/// least three lines), a line for the status.
pub open spec fn screen_constraints() -> Seq<LayoutConstraint> {
    seq![LayoutConstraint::Length(1), LayoutConstraint::Min(3), LayoutConstraint::Length(1)]
}

/// A tab's body from top to bottom: a header line, then the panes.
pub open spec fn tab_body_constraints() -> Seq<LayoutConstraint> {
    seq![LayoutConstraint::Length(1), LayoutConstraint::Min(3)]
}

/// The panes side by side, half the width each.
pub open spec fn pane_constraints() -> Seq<LayoutConstraint> {
    seq![LayoutConstraint::Percentage(50), LayoutConstraint::Percentage(50)]
}

/// The inside of the language list from top to bottom: the filter line,
/// then the entries.
pub open spec fn popup_constraints() -> Seq<LayoutConstraint> {
    seq![LayoutConstraint::Length(1), LayoutConstraint::Min(1)]
}

/// The margin on each side of a centred part that takes `percent` of the
/// space.
pub open spec fn side_percent(percent: u16) -> u16 {
    ((100 - percent) / 2) as u16
}

/// The three percentages of a centred part.
pub open spec fn centred(percent: u16) -> Seq<LayoutConstraint> {
    seq![
        LayoutConstraint::Percentage(side_percent(percent)),
        LayoutConstraint::Percentage(percent),
        LayoutConstraint::Percentage(side_percent(percent)),
    ]
}

/// The tab bar, the body and the status line of the screen, from top to
/// bottom: a line for the tab bar, the body (at least three lines), a line
/// for the status. Each is a full-width slice of the screen.
pub fn screen_layout(area: Area) -> (r: (Area, Area, Area))
    ensures
        layout_outcome(LayoutDirection::Vertical, screen_constraints(), area, three_parts(r.0, r.1, r.2)),
        slice_of(r.0, area, LayoutDirection::Vertical),
        slice_of(r.1, area, LayoutDirection::Vertical),
        slice_of(r.2, area, LayoutDirection::Vertical),
{
    let cs = around(LayoutConstraint::Length(1), LayoutConstraint::Min(3), LayoutConstraint::Length(1));
    let parts = split_layout(LayoutDirection::Vertical, &cs, area);
    assert(slice_of(parts@[0], area, LayoutDirection::Vertical));
    assert(slice_of(parts@[1], area, LayoutDirection::Vertical));
    assert(slice_of(parts@[2], area, LayoutDirection::Vertical));
    assert(cs@ =~= screen_constraints());
    assert(parts@ =~= seq![parts@[0], parts@[1], parts@[2]]);
    (parts[0], parts[1], parts[2])
}

/// The header line, the input pane and the output pane of a tab's body:
/// a header line on top, then the two panes side by side, half the width
/// each. The header is a full-width slice of the body; the panes lie in
/// the body, on the same rows.
pub fn tab_body_layout(area: Area) -> (r: (Area, Area, Area))
    ensures
        exists|panes_area: Area|
            #[trigger] layout_outcome(
                LayoutDirection::Vertical,
                tab_body_constraints(),
                area,
                two_parts(r.0, panes_area),
            ) && layout_outcome(
                LayoutDirection::Horizontal,
                pane_constraints(),
                panes_area,
                two_parts(r.1, r.2),
            ),
        slice_of(r.0, area, LayoutDirection::Vertical),
        within(r.1, area),
        within(r.2, area),
        r.1.y == r.2.y,
        r.1.height == r.2.height,
{
    let mut rows: Vec<LayoutConstraint> = Vec::new();
    rows.push(LayoutConstraint::Length(1));
    rows.push(LayoutConstraint::Min(3));
    let parts = split_layout(LayoutDirection::Vertical, &rows, area);
    let mut cols: Vec<LayoutConstraint> = Vec::new();
    cols.push(LayoutConstraint::Percentage(50));
    cols.push(LayoutConstraint::Percentage(50));
    assert(slice_of(parts@[0], area, LayoutDirection::Vertical));
    assert(slice_of(parts@[1], area, LayoutDirection::Vertical));
    let panes = split_layout(LayoutDirection::Horizontal, &cols, parts[1]);
    assert(slice_of(panes@[0], parts@[1], LayoutDirection::Horizontal));
    assert(slice_of(panes@[1], parts@[1], LayoutDirection::Horizontal));
    assert(rows@ =~= tab_body_constraints());
    assert(cols@ =~= pane_constraints());
    assert(parts@ =~= seq![parts@[0], parts@[1]]);
    assert(panes@ =~= seq![panes@[0], panes@[1]]);
    assert(layout_outcome(
        LayoutDirection::Vertical,
        tab_body_constraints(),
        area,
        two_parts(parts@[0], parts@[1]),
    ));
    assert(layout_outcome(
        LayoutDirection::Horizontal,
        pane_constraints(),
        parts@[1],
        two_parts(panes@[0], panes@[1]),
    ));
    let r = (parts[0], panes[0], panes[1]);
    assert(r.0 == parts@[0] && r.1 == panes@[0] && r.2 == panes@[1]);
    r
}

/// The filter line and the entry area inside the language list: the
/// filter line on top, the entries (at least one line) below; each a
/// full-width slice of the inside.
pub fn popup_layout(inner: Area) -> (r: (Area, Area))
    ensures
        layout_outcome(LayoutDirection::Vertical, popup_constraints(), inner, two_parts(r.0, r.1)),
        slice_of(r.0, inner, LayoutDirection::Vertical),
        slice_of(r.1, inner, LayoutDirection::Vertical),
{
    let mut rows: Vec<LayoutConstraint> = Vec::new();
    rows.push(LayoutConstraint::Length(1));
    rows.push(LayoutConstraint::Min(1));
    let parts = split_layout(LayoutDirection::Vertical, &rows, inner);
    assert(slice_of(parts@[0], inner, LayoutDirection::Vertical));
    assert(slice_of(parts@[1], inner, LayoutDirection::Vertical));
    assert(rows@ =~= popup_constraints());
    assert(parts@ =~= seq![parts@[0], parts@[1]]);
    (parts[0], parts[1])
}

/// The inside of a block with a border on every side and no padding: one
/// cell in from each edge, within the block (`Block::inner` of ratatui for
/// such a block).
pub open spec fn bordered_inner_area(a: Area) -> Area {
    let right = a.x.saturating_add(a.width);
    let bottom = a.y.saturating_add(a.height);
    let x1 = a.x.saturating_add(1);
    let y1 = a.y.saturating_add(1);
    Area {
        x: if x1 < right {
            x1
        } else {
            right
        },
        y: if y1 < bottom {
            y1
        } else {
            bottom
        },
        width: a.width.saturating_sub(1).saturating_sub(1),
        height: a.height.saturating_sub(1).saturating_sub(1),
    }
}

/// The inside of a block with a border on every side and no padding.
pub fn bordered_inner(a: Area) -> (r: Area)
    ensures
        r == bordered_inner_area(a),
{
    let right = a.x.saturating_add(a.width);
    let bottom = a.y.saturating_add(a.height);
    let x1 = a.x.saturating_add(1);
    let y1 = a.y.saturating_add(1);
    Area {
        x: if x1 < right {
            x1
        } else {
            right
        },
        y: if y1 < bottom {
            y1
        } else {
            bottom
        },
        width: a.width.saturating_sub(1).saturating_sub(1),
        height: a.height.saturating_sub(1).saturating_sub(1),
    }
}

/// The part of `area` centred in it that takes `percent_x` of its width
/// and `percent_y` of its height: the middle of a three-by-three division
/// with margins of equal percentage on each side. It lies inside `area`.
pub fn centered_rect(percent_x: u16, percent_y: u16, area: Area) -> (r: Area)
    requires
        percent_x <= 100,
        percent_y <= 100,
    ensures
        exists|row: Area, top: Area, bottom: Area, left: Area, right: Area|
            #[trigger] layout_outcome(
                LayoutDirection::Vertical,
                centred(percent_y),
                area,
                three_parts(top, row, bottom),
            ) && #[trigger] layout_outcome(
                LayoutDirection::Horizontal,
                centred(percent_x),
                row,
                three_parts(left, r, right),
            ),
        within(r, area),
{
    let vertical_side = (100 - percent_y) / 2;
    let horizontal_side = (100 - percent_x) / 2;
    let rows = around(
        LayoutConstraint::Percentage(vertical_side),
        LayoutConstraint::Percentage(percent_y),
        LayoutConstraint::Percentage(vertical_side),
    );
    let vertical = split_layout(LayoutDirection::Vertical, &rows, area);
    assert(slice_of(vertical@[1], area, LayoutDirection::Vertical));
    let cols = around(
        LayoutConstraint::Percentage(horizontal_side),
        LayoutConstraint::Percentage(percent_x),
        LayoutConstraint::Percentage(horizontal_side),
    );
    let horizontal = split_layout(LayoutDirection::Horizontal, &cols, vertical[1]);
    assert(slice_of(horizontal@[1], vertical@[1], LayoutDirection::Horizontal));
    assert(rows@ =~= centred(percent_y));
    assert(cols@ =~= centred(percent_x));
    assert(vertical@ =~= seq![vertical@[0], vertical@[1], vertical@[2]]);
    assert(horizontal@ =~= seq![horizontal@[0], horizontal@[1], horizontal@[2]]);
    assert(layout_outcome(
        LayoutDirection::Vertical,
        centred(percent_y),
        area,
        three_parts(vertical@[0], vertical@[1], vertical@[2]),
    ));
    assert(layout_outcome(
        LayoutDirection::Horizontal,
        centred(percent_x),
        vertical@[1],
        three_parts(horizontal@[0], horizontal@[1], horizontal@[2]),
    ));
    horizontal[1]
}

} // verus!
