//! Rectangles on the terminal and how they are divided. The division itself
//! is ratatui's constraint solver.

use ratatui::layout::{Constraint, Direction, Layout, Rect};
use vstd::prelude::*;

verus! {

/// A rectangle of terminal cells.
#[derive(Debug, Clone, Copy, PartialEq, Eq, Structural)]
pub struct Area {
    pub x: u16,
    pub y: u16,
    pub width: u16,
    pub height: u16,
}

/// The direction in which an area is divided.
#[derive(Debug, Clone, Copy, PartialEq, Eq, Structural)]
pub enum Axis {
    /// Into parts that stand one below the other.
    Vertical,
    /// Into parts that stand side by side.
    Horizontal,
}

/// How much of an area a part asks for.
#[derive(Debug, Clone, Copy, PartialEq, Eq, Structural)]
pub enum Extent {
    Percentage(u16),
    Min(u16),
    Length(u16),
}

/// A part of `whole` that was cut along `axis` keeps the place and the
/// size of `whole` across that axis.
pub open spec fn spans(axis: Axis, part: Area, whole: Area) -> bool {
    match axis {
        Axis::Vertical => part.x == whole.x && part.width == whole.width,
        Axis::Horizontal => part.y == whole.y && part.height == whole.height,
    }
}

/// A part of `whole` that was cut along `axis` lies between the two ends of
/// `whole` along that axis.
pub open spec fn between(axis: Axis, part: Area, whole: Area) -> bool {
    match axis {
        Axis::Vertical => whole.y <= part.y && part.y + part.height <= whole.y + whole.height,
        Axis::Horizontal => whole.x <= part.x && part.x + part.width <= whole.x + whole.width,
    }
}

/// `inner` lies inside `outer`.
pub open spec fn inside(inner: Area, outer: Area) -> bool {
    &&& outer.x <= inner.x
    &&& inner.x + inner.width <= outer.x + outer.width
    &&& outer.y <= inner.y
    &&& inner.y + inner.height <= outer.y + outer.height
}

/// Where an area starts along an axis.
pub open spec fn start_of(axis: Axis, a: Area) -> int {
    match axis {
        Axis::Vertical => a.y as int,
        Axis::Horizontal => a.x as int,
    }
}

/// How long an area is along an axis.
pub open spec fn length_of(axis: Axis, a: Area) -> int {
    match axis {
        Axis::Vertical => a.height as int,
        Axis::Horizontal => a.width as int,
    }
}

/// The area ends along the axis where cells can still be counted.
pub open spec fn fits(axis: Axis, a: Area) -> bool {
    start_of(axis, a) + length_of(axis, a) <= u16::MAX
}

/// How far an area reaches along an axis: its length, or as far as cells
/// can be counted where it would run past the last one.
pub open spec fn reach(axis: Axis, a: Area) -> int {
    if fits(axis, a) {
        length_of(axis, a)
    } else {
        u16::MAX - start_of(axis, a)
    }
}

/// The area ends in both directions where cells can still be counted. Every
/// area of a terminal does.
pub open spec fn on_screen(a: Area) -> bool {
    fits(Axis::Vertical, a) && fits(Axis::Horizontal, a)
}

/// So many hundredths of a length, in whole cells: the nearest number, and
/// of two equally near ones the larger.
pub open spec fn share(length: int, percent: int) -> int {
    (length * percent + 50) / 100
}

/// The part of `whole` that runs along `axis` from `from` to `to` cells
/// after the start of `whole`, and spans it across.
pub open spec fn stretch(axis: Axis, whole: Area, from: int, to: int) -> Area {
    match axis {
        Axis::Vertical => Area {
            x: whole.x,
            y: (whole.y + from) as u16,
            width: whole.width,
            height: (to - from) as u16,
        },
        Axis::Horizontal => Area {
            x: (whole.x + from) as u16,
            y: whole.y,
            width: (to - from) as u16,
            height: whole.height,
        },
    }
}

/// The percentage that a part asks for.
pub open spec fn percent_of(e: Extent) -> int {
    match e {
        Extent::Percentage(p) => p as int,
        _ => 0,
    }
}

/// The percentages that the first `k` parts ask for, added up.
pub open spec fn percent_before(extents: Seq<Extent>, k: int) -> int
    decreases k,
{
    if k <= 0 {
        0
    } else {
        percent_before(extents, k - 1) + percent_of(extents[k - 1])
    }
}

/// Every part asks for a percentage, and together they ask for no more than
/// the whole.
pub open spec fn percentages_fit(extents: Seq<Extent>) -> bool {
    &&& forall|i: int| 0 <= i < extents.len() ==> (#[trigger] extents[i]) is Percentage
    &&& percent_before(extents, extents.len() as int) <= 100
}

/// The part that the `i`-th of some percentages gets: it runs from the
/// share of the percentages before it to the share of those up to it.
pub open spec fn percent_part(axis: Axis, extents: Seq<Extent>, whole: Area, i: int) -> Area {
    stretch(
        axis,
        whole,
        share(reach(axis, whole), percent_before(extents, i)),
        share(reach(axis, whole), percent_before(extents, i + 1)),
    )
}

/// How long a bar of `wanted` cells gets in an area: its length, or the
/// whole area where that is shorter.
pub open spec fn bar_length(axis: Axis, whole: Area, wanted: u16) -> int {
    if wanted <= reach(axis, whole) {
        wanted as int
    } else {
        reach(axis, whole)
    }
}

/// The constraints ask for a bar of fixed length after a part that takes
/// what is left.
pub open spec fn rest_and_bar(extents: Seq<Extent>) -> bool {
    extents.len() == 2 && extents[0] == Extent::Min(0) && extents[1] is Length
}

/// The part that takes what is left before a bar, for `i` 0, and the bar at
/// the end of the area, for `i` 1.
pub open spec fn rest_or_bar(axis: Axis, extents: Seq<Extent>, whole: Area, i: int) -> Area {
    let length = reach(axis, whole);
    let bar = bar_length(axis, whole, extents[1]->Length_0);
    if i == 0 {
        stretch(axis, whole, 0, length - bar)
    } else {
        stretch(axis, whole, length - bar, length)
    }
}

/// Calls ratatui's `Layout::split` with the given direction and
/// constraints, without margin or spacing and with the default way of
/// placing, which aligns the parts at the start. It hands back one
/// rectangle for each constraint. Each of them takes its place and size
/// across the direction of the split from the area that was split, and lies
/// between the two ends of that area along the direction: the solver is
/// given both as requirements that it must meet.
///
/// Two kinds of division leave the solver no choice, so that its answer is
/// stated. The solver weighs what it cannot meet by strength. Percentages
/// that ask for no more than the whole can all be met at once, with no room
/// between the parts and none before the first; the only wishes that speak
/// against this, that the room behind the last part be as long as the whole
/// and that neighbouring parts be equally long, are weaker by orders of
/// magnitude. So the parts follow one another from the start, each ending
/// at the share of the percentages up to it, and a position is rounded to
/// cells with `f64::round`. In the same way a fixed length is a stronger
/// wish than that of a part with `Min(0)` to fill the area: the fixed
/// length after such a part gets its length, as far as the area reaches, at
/// the end, and the other part the rest. ratatui takes the end of an area
/// with a saturating sum, so an area that would run past the last cell that
/// can be counted is divided as far as it reaches. Of any other division
/// only the first paragraph holds.
#[verifier::external_body]
fn split_area(axis: Axis, extents: &Vec<Extent>, area: Area) -> (parts: Vec<Area>)
    ensures
        parts@.len() == extents@.len(),
        forall|i: int|
            0 <= i < parts@.len() ==> spans(axis, #[trigger] parts@[i], area) && between(
                axis,
                parts@[i],
                area,
            ),
        percentages_fit(extents@) ==> forall|i: int|
            0 <= i < parts@.len() ==> #[trigger] parts@[i] == percent_part(
                axis,
                extents@,
                area,
                i,
            ),
        rest_and_bar(extents@) ==> forall|i: int|
            0 <= i < parts@.len() ==> #[trigger] parts@[i] == rest_or_bar(
                axis,
                extents@,
                area,
                i,
            ),
{
    let direction = match axis {
        Axis::Vertical => Direction::Vertical,
        Axis::Horizontal => Direction::Horizontal,
    };
    let wanted = extents.iter().map(|e| match *e {
        Extent::Percentage(p) => Constraint::Percentage(p),
        Extent::Min(n) => Constraint::Min(n),
        Extent::Length(n) => Constraint::Length(n),
    });
    let whole = Rect { x: area.x, y: area.y, width: area.width, height: area.height };
    let parts = Layout::default().direction(direction).constraints(wanted).split(whole);
    parts.iter().map(|r| Area { x: r.x, y: r.y, width: r.width, height: r.height }).collect()
}

/// The middle one of three parts.
pub fn middle(parts: &Vec<Area>) -> (r: Area)
    requires
        parts@.len() == 3,
    ensures
        r == parts@[1],
{
    parts[1]
}

/// The percentage left on each side of a centred part of `percent`.
pub open spec fn side_of(percent: u16) -> int {
    (100 - percent) / 2
}

/// The constraints that leave `percent` of an area in the middle and share
/// the rest evenly between both sides.
pub open spec fn centred(percent: u16) -> Seq<Extent> {
    seq![
        Extent::Percentage(side_of(percent) as u16),
        Extent::Percentage(percent),
        Extent::Percentage(side_of(percent) as u16),
    ]
}

/// The three bands of an area for a centred part of `percent` of it: the
/// middle one runs from the share of one side to the share of that side and
/// the part together.
pub open spec fn band(axis: Axis, percent: u16, whole: Area, i: int) -> Area {
    let length = reach(axis, whole);
    let side = side_of(percent);
    if i == 0 {
        stretch(axis, whole, 0, share(length, side))
    } else if i == 1 {
        stretch(axis, whole, share(length, side), share(length, side + percent))
    } else {
        stretch(axis, whole, share(length, side + percent), share(length, side + percent + side))
    }
}

/// The dialog of `percent_x` by `percent_y` in the middle of `r`: it takes
/// its columns from the middle band of `r` from left to right, and its rows
/// from the middle band from top to bottom.
pub open spec fn centred_in(percent_x: u16, percent_y: u16, r: Area) -> Area {
    let columns = band(Axis::Horizontal, percent_x, r, 1);
    let rows = band(Axis::Vertical, percent_y, r, 1);
    Area { x: columns.x, y: rows.y, width: columns.width, height: rows.height }
}

/// A part takes its share of a whole, to within one cell.
pub open spec fn takes_share(part: int, whole: int, percent: int) -> bool {
    -100 <= part * 100 - whole * percent <= 100
}

/// A part stands in the middle of a whole: the room before it and the room
/// after it differ by no more than a cell and a hundredth of the whole.
pub open spec fn in_the_middle(start: int, length: int, whole_start: int, whole_length: int) -> bool {
    let before = start - whole_start;
    let after = whole_start + whole_length - start - length;
    -(100 + whole_length) <= (before - after) * 100 <= 100 + whole_length
}

/// A share lies within half a cell of the exact hundredths.
pub proof fn lemma_share(length: int, percent: int)
    requires
        0 <= length,
        0 <= percent,
    ensures
        length * percent - 50 < 100 * share(length, percent) <= length * percent + 50,
        0 <= share(length, percent),
{
    assert(0 <= length * percent) by (nonlinear_arith)
        requires
            0 <= length,
            0 <= percent,
    ;
}

/// A larger percentage has no smaller share, nothing has no share, and the
/// share of the whole is the whole.
pub proof fn lemma_share_grows(length: int, less: int, more: int)
    requires
        0 <= length,
        0 <= less <= more,
    ensures
        share(length, less) <= share(length, more),
        share(length, 0) == 0,
        share(length, 100) == length,
{
    assert(length * less <= length * more) by (nonlinear_arith)
        requires
            0 <= length,
            0 <= less <= more,
    ;
    assert(length * 0 == 0) by (nonlinear_arith);
    assert(length * 100 == 100 * length) by (nonlinear_arith);
}

/// A stretch between two ordered marks within the reach of an area starts
/// and ends at those marks.
pub proof fn lemma_stretch(axis: Axis, whole: Area, from: int, to: int)
    requires
        0 <= from <= to <= reach(axis, whole),
    ensures
        start_of(axis, stretch(axis, whole, from, to)) == start_of(axis, whole) + from,
        length_of(axis, stretch(axis, whole, from, to)) == to - from,
        spans(axis, stretch(axis, whole, from, to), whole),
        between(axis, stretch(axis, whole, from, to), whole),
{
}

/// The percentages for a centred part ask for no more than the whole, and
/// the parts that they get are the three bands.
pub proof fn lemma_centred(axis: Axis, percent: u16, whole: Area)
    requires
        percent <= 100,
    ensures
        percentages_fit(centred(percent)),
        forall|i: int|
            0 <= i < 3 ==> #[trigger] percent_part(axis, centred(percent), whole, i) == band(
                axis,
                percent,
                whole,
                i,
            ),
{
    let e = centred(percent);
    let side = side_of(percent);
    reveal_with_fuel(percent_before, 4);
    assert(percent_before(e, 0) == 0);
    assert(percent_before(e, 1) == side);
    assert(percent_before(e, 2) == side + percent);
    assert(percent_before(e, 3) == side + percent + side);
    lemma_share_grows(reach(axis, whole), 0, 0);
}

/// The middle band takes its share of what the area reaches and stands in
/// the middle of it.
pub proof fn lemma_middle_band(axis: Axis, percent: u16, whole: Area)
    requires
        percent <= 100,
    ensures
        ({
            let part = band(axis, percent, whole, 1);
            &&& spans(axis, part, whole)
            &&& between(axis, part, whole)
            &&& takes_share(length_of(axis, part), reach(axis, whole), percent as int)
            &&& in_the_middle(
                start_of(axis, part),
                length_of(axis, part),
                start_of(axis, whole),
                reach(axis, whole),
            )
        }),
{
    let length = reach(axis, whole);
    let side = side_of(percent);
    let p = percent as int;
    lemma_share(length, side);
    lemma_share(length, side + p);
    lemma_share_grows(length, side, side + p);
    lemma_share_grows(length, side + p, 100);
    lemma_stretch(axis, whole, share(length, side), share(length, side + p));
    assert(length * (side + p) == length * side + length * p) by (nonlinear_arith);
    assert(length * side + length * (side + p) == length * (side + p + side))
        by (nonlinear_arith);
    if side + p + side == 100 {
        assert(length * (side + p + side) == 100 * length) by (nonlinear_arith)
            requires
                side + p + side == 100,
        ;
    } else {
        assert(side + p + side == 99);
        assert(length * (side + p + side) == 100 * length - length) by (nonlinear_arith)
            requires
                side + p + side == 99,
        ;
    }
}

/// The constraints that leave `percent` of an area in the middle.
pub fn centre(percent: u16) -> (r: Vec<Extent>)
    requires
        percent <= 100,
    ensures
        r@ == centred(percent),
{
    let side: u16 = (100 - percent) / 2;
    let mut r: Vec<Extent> = Vec::new();
    r.push(Extent::Percentage(side));
    r.push(Extent::Percentage(percent));
    r.push(Extent::Percentage(side));
    proof {
        assert(r@ =~= centred(percent));
    }
    r
}

/// The three bands that an area is cut into for a centred part of
/// `percent` of it: each is the band that its share gives, lies inside the
/// area and spans it across.
pub fn bands(axis: Axis, percent: u16, area: Area) -> (parts: Vec<Area>)
    requires
        percent <= 100,
    ensures
        parts@.len() == 3,
        parts@[0] == band(axis, percent, area, 0),
        parts@[1] == band(axis, percent, area, 1),
        parts@[2] == band(axis, percent, area, 2),
        forall|i: int| 0 <= i < 3 ==> inside(#[trigger] parts@[i], area),
        forall|i: int| 0 <= i < 3 ==> spans(axis, #[trigger] parts@[i], area),
        takes_share(length_of(axis, parts@[1]), reach(axis, area), percent as int),
        in_the_middle(
            start_of(axis, parts@[1]),
            length_of(axis, parts@[1]),
            start_of(axis, area),
            reach(axis, area),
        ),
{
    let wanted = centre(percent);
    let parts = split_area(axis, &wanted, area);
    proof {
        lemma_middle_band(axis, percent, area);
        assert forall|i: int| 0 <= i < 3 implies inside(#[trigger] parts@[i], area) by {
            assert(spans(axis, parts@[i], area) && between(axis, parts@[i], area));
        }
        lemma_centred(axis, percent, area);
        assert forall|i: int| 0 <= i < 3 implies #[trigger] parts@[i] == band(
            axis,
            percent,
            area,
            i,
        ) by {
            assert(parts@[i] == percent_part(axis, centred(percent), area, i));
        }
    }
    parts
}

/// The area of a dialog in the middle of `r`: the middle band of `r` cut
/// from top to bottom with `percent_y` of its height, and of that band the
/// middle part cut from left to right with `percent_x` of its width. It is
/// the rectangle that the shares give, and lies inside `r`. In an `r` that
/// ends where cells can still be counted it takes `percent_x` of the width
/// and `percent_y` of the height to within a cell, and stands in the middle
/// to within a cell and a hundredth of `r`.
pub fn centered_rect(percent_x: u16, percent_y: u16, r: Area) -> (popup: Area)
    requires
        percent_x <= 100,
        percent_y <= 100,
    ensures
        popup == centred_in(percent_x, percent_y, r),
        inside(popup, r),
        on_screen(r) ==> {
            &&& takes_share(popup.width as int, r.width as int, percent_x as int)
            &&& takes_share(popup.height as int, r.height as int, percent_y as int)
            &&& in_the_middle(popup.x as int, popup.width as int, r.x as int, r.width as int)
            &&& in_the_middle(popup.y as int, popup.height as int, r.y as int, r.height as int)
        },
{
    let rows = bands(Axis::Vertical, percent_y, r);
    let row = middle(&rows);
    let columns = bands(Axis::Horizontal, percent_x, row);
    let popup = middle(&columns);
    proof {
        lemma_middle_band(Axis::Vertical, percent_y, r);
        lemma_middle_band(Axis::Horizontal, percent_x, row);
        assert(row == band(Axis::Vertical, percent_y, r, 1));
        assert(reach(Axis::Horizontal, row) == reach(Axis::Horizontal, r));
        assert(popup == band(Axis::Horizontal, percent_x, row, 1));
    }
    popup
}

/// Where the three panels of the main screen stand.
#[derive(Debug, Clone, Copy, PartialEq, Eq, Structural)]
pub struct Panels {
    pub list: Area,
    pub content: Area,
    pub status: Area,
}

/// The panels stand inside the screen, the status line as wide as the
/// screen, the list and the content side by side at the same height.
pub open spec fn panels_fit(p: Panels, size: Area) -> bool {
    &&& inside(p.list, size)
    &&& inside(p.content, size)
    &&& inside(p.status, size)
    &&& p.status.x == size.x
    &&& p.status.width == size.width
    &&& p.list.y == p.content.y
    &&& p.list.height == p.content.height
}

/// How many lines the status bar gets: one, where the screen has a line.
pub open spec fn status_lines(size: Area) -> int {
    if reach(Axis::Vertical, size) >= 1 {
        1
    } else {
        0
    }
}

/// The panels of a screen: the status bar on the last line; above it the
/// list on the left with 30 percent of the width, rounded to cells, and the
/// content on the right with the rest.
pub open spec fn panels_of(size: Area) -> Panels {
    let upper = reach(Axis::Vertical, size) - status_lines(size);
    let across = reach(Axis::Horizontal, size);
    let list = share(across, 30);
    Panels {
        list: Area { x: size.x, y: size.y, width: list as u16, height: upper as u16 },
        content: Area {
            x: (size.x + list) as u16,
            y: size.y,
            width: (across - list) as u16,
            height: upper as u16,
        },
        status: Area {
            x: size.x,
            y: (size.y + upper) as u16,
            width: size.width,
            height: status_lines(size) as u16,
        },
    }
}

/// On a screen that ends where cells can still be counted, the list takes
/// 30 percent of the width to within a cell, the content begins where the
/// list ends and ends where the screen ends, and the status bar is the last
/// line.
pub proof fn lemma_panels(size: Area)
    requires
        on_screen(size),
    ensures
        ({
            let p = panels_of(size);
            &&& panels_fit(p, size)
            &&& takes_share(p.list.width as int, size.width as int, 30)
            &&& p.list.x == size.x
            &&& p.content.x == p.list.x + p.list.width
            &&& p.list.width + p.content.width == size.width
            &&& p.list.y == size.y
            &&& p.status.height == status_lines(size)
            &&& p.list.height + p.status.height == size.height
            &&& p.status.y == size.y + p.list.height
        }),
{
    lemma_share(size.width as int, 30);
    lemma_share_grows(size.width as int, 30, 100);
}

/// Divides the screen into the list on the left with 30 percent of the
/// width, the content on the right with 70 percent, and one line for the
/// status below both.
pub fn main_panels(size: Area) -> (p: Panels)
    ensures
        p == panels_of(size),
        panels_fit(p, size),
{
    let mut rows: Vec<Extent> = Vec::new();
    rows.push(Extent::Min(0));
    rows.push(Extent::Length(1));
    let vertical = split_area(Axis::Vertical, &rows, size);
    let mut columns: Vec<Extent> = Vec::new();
    columns.push(Extent::Percentage(30));
    columns.push(Extent::Percentage(70));
    let upper = vertical[0];
    let horizontal = split_area(Axis::Horizontal, &columns, upper);
    let p = Panels { list: horizontal[0], content: horizontal[1], status: vertical[1] };
    proof {
        assert(spans(Axis::Vertical, vertical@[0], size) && between(
            Axis::Vertical,
            vertical@[0],
            size,
        ));
        assert(spans(Axis::Vertical, vertical@[1], size) && between(
            Axis::Vertical,
            vertical@[1],
            size,
        ));
        assert(spans(Axis::Horizontal, horizontal@[0], upper) && between(
            Axis::Horizontal,
            horizontal@[0],
            upper,
        ));
        assert(spans(Axis::Horizontal, horizontal@[1], upper) && between(
            Axis::Horizontal,
            horizontal@[1],
            upper,
        ));
        let across = reach(Axis::Horizontal, size);
        reveal_with_fuel(percent_before, 3);
        assert(percent_before(columns@, 0) == 0);
        assert(percent_before(columns@, 1) == 30);
        assert(percent_before(columns@, 2) == 100);
        assert(percentages_fit(columns@));
        assert(rest_and_bar(rows@));
        assert(vertical@[0] == rest_or_bar(Axis::Vertical, rows@, size, 0));
        assert(vertical@[1] == rest_or_bar(Axis::Vertical, rows@, size, 1));
        assert(reach(Axis::Horizontal, upper) == across);
        lemma_share(across, 30);
        lemma_share_grows(across, 30, 100);
        assert(horizontal@[0] == percent_part(Axis::Horizontal, columns@, upper, 0));
        assert(horizontal@[1] == percent_part(Axis::Horizontal, columns@, upper, 1));
    }
    p
}

} // verus!
