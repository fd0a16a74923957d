//! Layout arithmetic and text helpers shared by the views.

use vstd::prelude::*;
use vstd::string::StringExecFns;

verus! {

/// A rectangle of the terminal grid: its top-left cell, width and
/// height, all in character cells.
#[derive(Clone, Copy, Debug, PartialEq, Eq, Structural)]
pub struct Rect {
    pub x: u16,
    pub y: u16,
    pub width: u16,
    pub height: u16,
}

/// The rectangle of the given size centered in `r`, each margin rounded
/// down; the end-of-round dialog is placed with this.
pub fn centered_rect(width: u16, height: u16, r: Rect) -> (res: Rect)
    requires
        width <= r.width,
        height <= r.height,
        r.x + r.width <= u16::MAX,
        r.y + r.height <= u16::MAX,
    ensures
        res.width == width,
        res.height == height,
        res.x == r.x + (r.width - width) / 2,
        res.y == r.y + (r.height - height) / 2,
{
    Rect {
        x: r.x + (r.width - width) / 2,
        y: r.y + (r.height - height) / 2,
        width,
        height,
    }
}

/// The elements of `vec` with `separator` between every two
/// neighbours; an empty input stays empty.
pub fn intersperse<T: Copy>(vec: Vec<T>, separator: T) -> (r: Vec<T>)
    ensures
        vec@.len() == 0 ==> r@.len() == 0,
        vec@.len() > 0 ==> r@.len() == 2 * vec@.len() - 1,
        forall|i: int| 0 <= i < r@.len() && i % 2 == 0 ==> r@[i] == vec@[i / 2],
        forall|i: int| 0 <= i < r@.len() && i % 2 == 1 ==> r@[i] == separator,
{
    let mut r: Vec<T> = Vec::new();
    let mut i: usize = 0;
    while i < vec.len()
        invariant
            i <= vec@.len(),
            i == 0 ==> r@.len() == 0,
            i > 0 ==> r@.len() == 2 * i - 1,
            forall|k: int| 0 <= k < r@.len() && k % 2 == 0 ==> r@[k] == vec@[k / 2],
            forall|k: int| 0 <= k < r@.len() && k % 2 == 1 ==> r@[k] == separator,
        decreases vec@.len() - i,
    {
        if i > 0 {
            r.push(separator);
        }
        r.push(vec[i]);
        i = i + 1;
    }
    r
}

/// The string with one blank added on each side.
pub fn pad(string: String) -> (r: String)
    ensures
        r@ == seq![' '] + string@ + seq![' '],
{
    proof {
        reveal_strlit(" ");
    }
    let mut r = String::from_str(" ");
    r.append(string.as_str());
    r.append(" ");
    proof {
        assert(r@ =~= seq![' '] + string@ + seq![' ']);
    }
    r
}

} // verus!
