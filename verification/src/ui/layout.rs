//! Placement of the screen's blocks: an area centred inside another, made of
//! the terminal layout solver's percentage splits.

use vstd::prelude::*;
use ratatui::layout::{Constraint, Direction, Layout, Rect};

verus! {

/// A rectangle of the terminal: its left column, top row, width and height.
#[derive(Clone, Copy, Debug, PartialEq, Eq, Structural)]
pub struct Area {
    pub x: u16,
    pub y: u16,
    pub width: u16,
    pub height: u16,
}

/// The direction along which an area is split.
#[derive(Clone, Copy, Debug, PartialEq, Eq, Structural)]
pub enum SplitDirection {
    Horizontal,
    Vertical,
}

/// Part `i` lies inside `area` along the split direction, and ends where
/// part `i + 1` may start at the earliest.
pub open spec fn parts_in_order(vertical: bool, parts: Seq<Area>, area: Area) -> bool {
    &&& forall|i: int| 0 <= i < parts.len() ==> if vertical {
        &&& area.y <= (#[trigger] parts[i]).y
        &&& parts[i].y + parts[i].height <= area.y + area.height
    } else {
        &&& area.x <= (#[trigger] parts[i]).x
        &&& parts[i].x + parts[i].width <= area.x + area.width
    }
    &&& forall|i: int| 0 <= i < parts.len() - 1 ==> if vertical {
        (#[trigger] parts[i]).y + parts[i].height <= parts[i + 1].y
    } else {
        (#[trigger] parts[i]).x + parts[i].width <= parts[i + 1].x
    }
}

/// The sum of the first `n` percentages.
pub open spec fn percent_before(ps: Seq<u16>, n: int) -> nat
    decreases n,
{
    if n <= 0 || ps.len() == 0 {
        0
    } else if n > ps.len() {
        percent_before(ps, ps.len() as int)
    } else {
        percent_before(ps, n - 1) + ps[n - 1] as nat
    }
}

/// The point `share` percent along a span of `len` from `start`, rounded
/// to the nearest cell (halves up).
pub open spec fn point_at(start: u16, len: u16, share: nat) -> int {
    start + (len * share + 50) / 100
}

/// A part runs, along the split direction, from the point at `before`
/// percent of the area to the point at `through` percent.
pub open spec fn part_at_shares(vertical: bool, part: Area, area: Area, before: nat, through: nat) -> bool {
    if vertical {
        &&& part.y == point_at(area.y, area.height, before)
        &&& part.y + part.height == point_at(area.y, area.height, through)
    } else {
        &&& part.x == point_at(area.x, area.width, before)
        &&& part.x + part.width == point_at(area.x, area.width, through)
    }
}

/// `ratatui::layout::Layout::split` on a layout with no margin, the default
/// flex (`Flex::Start`), and one `Constraint::Percentage` per entry of
/// `percentages`. The contract claims what the source shows. Of every
/// outcome: one part per constraint; each part spans the whole area across
/// the split direction; along it, each part lies inside the area and the
/// parts come in order (the solver's required constraints keep its points
/// within the area and ascending, and rounding keeps that). When the
/// percentages add up to at most 100 and the area's far edge is a `u16`,
/// every strong percentage constraint and the near-required empty spacers
/// can all be met, so the solver's optimum meets them and fixes each part:
/// part `i` runs from the point at the sum of the percentages before it to
/// the point at that sum with its own, each rounded to the nearest cell.
/// Beyond that, which of several equally good solutions the solver picks is
/// left open: it walks hash maps whose order differs from one process to the
/// next.
#[verifier::external_body]
fn split_by_percentages(direction: SplitDirection, percentages: &Vec<u16>, area: Area) -> (r: Vec<Area>)
    ensures
        r@.len() == percentages@.len(),
        forall|i: int|
            0 <= i < r@.len() ==> (if direction == SplitDirection::Vertical {
                (#[trigger] r@[i]).x == area.x && r@[i].width == area.width
            } else {
                r@[i].y == area.y && r@[i].height == area.height
            }),
        parts_in_order(direction == SplitDirection::Vertical, r@, area),
        percent_before(percentages@, percentages@.len() as int) <= 100 && (if direction
            == SplitDirection::Vertical {
            area.y + area.height <= u16::MAX
        } else {
            area.x + area.width <= u16::MAX
        }) ==> forall|i: int|
            0 <= i < r@.len() ==> part_at_shares(
                direction == SplitDirection::Vertical,
                #[trigger] r@[i],
                area,
                percent_before(percentages@, i),
                percent_before(percentages@, i + 1),
            ),
{
    let direction = match direction {
        SplitDirection::Horizontal => Direction::Horizontal,
        SplitDirection::Vertical => Direction::Vertical,
    };
    let rect = Rect { x: area.x, y: area.y, width: area.width, height: area.height };
    let constraints: Vec<Constraint> = percentages.iter().map(|p| Constraint::Percentage(*p)).collect();
    let parts = Layout::default().direction(direction).constraints(constraints).split(rect);
    parts.iter().map(|p| Area { x: p.x, y: p.y, width: p.width, height: p.height }).collect()
}

/// The share left on each side of a centred part of `percent` percent.
pub open spec fn side_percentage(percent: u16) -> u16 {
    ((100 - percent) / 2) as u16
}

/// The three percentages that centre a part of `percent` percent.
pub open spec fn centering(percent: u16) -> Seq<u16> {
    seq![side_percentage(percent), percent, side_percentage(percent)]
}

/// The percentages of a split that centres a part of `percent` percent: half
/// of the rest on each side.
pub fn centered_percentages(percent: u16) -> (r: Vec<u16>)
    requires
        percent <= 100,
    ensures
        r@ == centering(percent),
{
    let side: u16 = (100 - percent) / 2;
    let mut r: Vec<u16> = Vec::new();
    r.push(side);
    r.push(percent);
    r.push(side);
    assert(r@ =~= centering(percent));
    r
}

/// An area of `percent_x` percent of the width and `percent_y` percent of
/// the height of `r`, centred in it: the middle of three rows, then the
/// middle of three columns of that row. It lies inside `r`; where `r`'s far
/// edges are `u16`s, it starts half of the rest in along each direction and
/// ends its own share further, each point rounded to the nearest cell.
pub fn centered_rect(percent_x: u16, percent_y: u16, r: Area) -> (c: Area)
    requires
        percent_x <= 100,
        percent_y <= 100,
    ensures
        r.x <= c.x,
        c.x + c.width <= r.x + r.width,
        r.y <= c.y,
        c.y + c.height <= r.y + r.height,
        r.y + r.height <= u16::MAX ==> {
            &&& c.y == point_at(r.y, r.height, side_percentage(percent_y) as nat)
            &&& c.y + c.height == point_at(r.y, r.height, (side_percentage(percent_y) + percent_y) as nat)
        },
        r.x + r.width <= u16::MAX ==> {
            &&& c.x == point_at(r.x, r.width, side_percentage(percent_x) as nat)
            &&& c.x + c.width == point_at(r.x, r.width, (side_percentage(percent_x) + percent_x) as nat)
        },
{
    let py = centered_percentages(percent_y);
    proof {
        lemma_centering_sums(percent_y);
    }
    let rows = split_by_percentages(SplitDirection::Vertical, &py, r);
    let row = rows[1];
    assert(parts_in_order(true, rows@, r));
    assert(r.y <= rows@[1].y);
    assert(part_at_shares(true, rows@[1], r, percent_before(py@, 1), percent_before(py@, 2)) || r.y + r.height > u16::MAX);
    let px = centered_percentages(percent_x);
    proof {
        lemma_centering_sums(percent_x);
    }
    let columns = split_by_percentages(SplitDirection::Horizontal, &px, row);
    let c = columns[1];
    assert(row.x <= columns@[1].x);
    assert(part_at_shares(false, columns@[1], row, percent_before(px@, 1), percent_before(px@, 2)) || row.x + row.width > u16::MAX);
    c
}

/// The sums of the centring percentages: half the rest, then that with the
/// centred share, then at most 100 in all.
proof fn lemma_centering_sums(percent: u16)
    requires
        percent <= 100,
    ensures
        percent_before(centering(percent), 1) == side_percentage(percent),
        percent_before(centering(percent), 2) == side_percentage(percent) + percent,
        percent_before(centering(percent), 3) <= 100,
        percent_before(centering(percent), centering(percent).len() as int) <= 100,
{
    let ps = centering(percent);
    assert(ps.len() == 3);
    assert(percent_before(ps, 0) == 0);
    assert(percent_before(ps, 1) == side_percentage(percent));
    assert(percent_before(ps, 2) == side_percentage(percent) + percent);
    assert(percent_before(ps, 3) == 2 * side_percentage(percent) + percent);
}

} // verus!
