//! Laying an announcement out on the terminal: the title centered on one
//! row, the body's lines centered below it, one row each. Text wider than
//! the terminal is not re-flowed; it starts at the left edge.

use vstd::prelude::*;
use crate::lines::{lines_of, split_lines, text_views};

verus! {

use vstd::string::StrSliceExecFns;

/// A piece of text and the column and row at which it is painted.
pub struct Placement {
    pub x: u16,
    pub y: u16,
    pub text: String,
}

/// The mathematical shape of a placement.
pub struct PlacementView {
    pub x: u16,
    pub y: u16,
    pub text: Seq<char>,
}

impl View for Placement {
    type V = PlacementView;

    open spec fn view(&self) -> PlacementView {
        PlacementView { x: self.x, y: self.y, text: self.text@ }
    }
}

/// The views of a vector of placements.
pub open spec fn placement_views(v: Seq<Placement>) -> Seq<PlacementView> {
    v.map_values(|p: Placement| p@)
}

/// The column at which text of `len` characters starts when centered on a
/// row of `width` columns; wider text starts at the left edge.
pub open spec fn centered_col(width: u16, len: nat) -> u16 {
    if len <= width {
        (((width - len) / 2) as u16)
    } else {
        0
    }
}

/// The row of the title: one above the vertical middle.
pub open spec fn title_row(height: u16) -> u16 {
    if height / 2 >= 1 {
        ((height / 2 - 1) as u16)
    } else {
        0
    }
}

/// The row of the body line at position `i`: rows grow downward from one
/// below the vertical middle, capped at the bottom coordinate.
pub open spec fn body_row(height: u16, i: int) -> u16 {
    if height / 2 + 1 + i <= 65535 {
        ((height / 2 + 1 + i) as u16)
    } else {
        65535
    }
}

/// The whole arrangement: the centered title first, then one placement per
/// body line.
pub open spec fn layout_views(
    title: Seq<char>,
    body: Seq<char>,
    width: u16,
    height: u16,
) -> Seq<PlacementView> {
    seq![
        PlacementView { x: centered_col(width, title.len()), y: title_row(height), text: title },
    ] + Seq::new(
        lines_of(body).len(),
        |i: int|
            PlacementView {
                x: centered_col(width, lines_of(body)[i].len()),
                y: body_row(height, i),
                text: lines_of(body)[i],
            },
    )
}

/// The starting column of centered text of `len` characters.
fn centered_col_exec(width: u16, len: usize) -> (x: u16)
    ensures
        x == centered_col(width, len as nat),
{
    if len <= width as usize {
        assert(len as u16 == len);
        (width - len as u16) / 2
    } else {
        0
    }
}

/// Where the title and each body line are painted on a terminal of `width`
/// by `height` cells.
pub fn layout(title: &str, body: &str, width: u16, height: u16) -> (r: Vec<Placement>)
    ensures
        placement_views(r@) == layout_views(title@, body@, width, height),
{
    let ghost target = layout_views(title@, body@, width, height);
    let mut r: Vec<Placement> = Vec::new();
    let tx = centered_col_exec(width, title.unicode_len());
    let h2 = height / 2;
    let ty = if h2 >= 1 {
        h2 - 1
    } else {
        0
    };
    let first = Placement { x: tx, y: ty, text: title.to_owned() };
    proof {
        assert(first@ == target[0]);
        assert(placement_views(r@.push(first)) =~= target.take(1));
    }
    r.push(first);
    let ls = split_lines(body);
    let base = h2 + 1;
    let cap = 65535 - base;
    let mut i: usize = 0;
    while i < ls.len()
        invariant
            0 <= i <= ls@.len(),
            text_views(ls@) == lines_of(body@),
            ls@.len() == lines_of(body@).len(),
            base == height / 2 + 1,
            cap == 65535 - base,
            target == layout_views(title@, body@, width, height),
            target.len() == 1 + ls@.len(),
            placement_views(r@) == target.take(1 + i as int),
        decreases ls@.len() - i,
    {
        let x = centered_col_exec(width, ls[i].as_str().unicode_len());
        let y = if i <= cap as usize {
            assert(i as u16 == i);
            base + i as u16
        } else {
            65535
        };
        let p = Placement { x, y, text: ls[i].clone() };
        proof {
            assert(ls@[i as int]@ == lines_of(body@)[i as int]);
            assert(p@ == target[1 + i as int]);
            assert(placement_views(r@.push(p)) =~= placement_views(r@).push(p@));
            assert(target.take(1 + (i + 1 as int)) =~= target.take(1 + i as int).push(
                target[1 + i as int],
            ));
        }
        r.push(p);
        i = i + 1;
    }
    proof {
        assert(target.take(1 + ls@.len() as int) =~= target);
    }
    r
}

} // verus!
