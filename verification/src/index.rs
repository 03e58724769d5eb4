//! The quadtree that holds the active regions, and what this library takes
//! on trust about it.
//!
//! The tree works on single-precision coordinates. Every coordinate that
//! this library hands to it is a whole number below 2^16, the tree halves
//! its cells at most eight times, and so each value it computes on the way
//! is exact: the contracts below speak of whole numbers only.
//!
//! The tree keeps every region in a table under its `ItemId`, and files it
//! in the cells of the tree: a cell that has split files a rectangle with
//! itself where the rectangle holds the middle of the cell, and else in each
//! quarter that the rectangle touches. A query walks down the quarters that
//! it touches. The four quarters of a cell cover it, so a rectangle and a
//! query that share a point inside the bounds meet in some cell; outside the
//! bounds nothing makes them meet.

use vstd::prelude::*;
use aabb_quadtree::geom;
use aabb_quadtree::ItemId;
use aabb_quadtree::QuadTree;
use crate::geometry::Area;

verus! {

/// What a touch inside an active region sets off: a click handler and the
/// element that owns the region, each named by the key under which the
/// caller keeps it.
#[derive(Clone, Copy, Debug, PartialEq, Eq, Structural)]
pub struct ActiveRegionHandler {
    pub handler: u64,
    pub element: u64,
}

/// One entry of the index: a rectangle and what it sets off.
pub struct Region {
    pub handler: ActiveRegionHandler,
    pub area: Area,
}

#[verifier::external_type_specification]
#[verifier::external_body]
#[verifier::reject_recursive_types(T)]
pub struct ExQuadTree<T>(QuadTree<T>);

#[verifier::external_type_specification]
#[verifier::external_body]
pub struct ExItemId(ItemId);

/// The regions that the tree holds, each under the number of its `ItemId`.
pub uninterp spec fn index_regions(tree: QuadTree<ActiveRegionHandler>) -> Map<nat, Region>;

/// The rectangle that the tree was made to cover.
pub uninterp spec fn index_bounds(tree: QuadTree<ActiveRegionHandler>) -> Area;

/// How many insertions the tree has seen. The next `ItemId` carries this
/// number.
pub uninterp spec fn index_issued(tree: QuadTree<ActiveRegionHandler>) -> nat;

/// The number inside an `ItemId`.
pub uninterp spec fn item_number(id: ItemId) -> nat;

/// The numbers of the regions that the tree reports for the square of the
/// given radius around `(center_x, center_y)`, in the order in which it
/// reports them. The tree answers a query from its cells alone, so the same
/// tree gives the same answer.
pub uninterp spec fn index_hits(tree: QuadTree<ActiveRegionHandler>, center_x: u16, center_y: u16, radius: u8) -> Seq<nat>;

/// `QuadTree::default` over `geom::Rect::from_points`: an empty tree made to
/// cover the rectangle from the origin to `(width, height)`, which has
/// handed out no `ItemId` yet.
#[verifier::external_body]
pub(crate) fn index_new(width: u16, height: u16) -> (tree: QuadTree<ActiveRegionHandler>)
    ensures
        index_regions(tree) == (Map::<nat, Region>::empty()),
        index_issued(tree) == 0,
        index_bounds(tree) == (Area { left: 0, top: 0, right: width as int, bottom: height as int }),
{
    let origin = geom::Point { x: 0u16.into(), y: 0u16.into() };
    let corner = geom::Point { x: width.into(), y: height.into() };
    QuadTree::default(geom::Rect::from_points(&origin, &corner))
}

/// `QuadTree::insert_with_box` over `geom::Rect::from_points`. The tree
/// numbers the insertion and returns that number as an `ItemId`. A rectangle
/// that shares a point with the tree's bounds is always stored. One that
/// shares none is stored while the tree is a single cell and dropped once it
/// has split, so the contract leaves both open.
///
/// The tree's counter is a `u32`, and a cell that splits must have a width
/// and a height above zero: the two preconditions.
#[verifier::external_body]
pub(crate) fn index_insert(
    tree: &mut QuadTree<ActiveRegionHandler>,
    item: ActiveRegionHandler,
    left: u16,
    top: u16,
    right: u16,
    bottom: u16,
) -> (id: ItemId)
    requires
        left <= right,
        top <= bottom,
        index_issued(*old(tree)) < u32::MAX,
        index_bounds(*old(tree)).left < index_bounds(*old(tree)).right,
        index_bounds(*old(tree)).top < index_bounds(*old(tree)).bottom,
    ensures
        item_number(id) == index_issued(*old(tree)),
        index_issued(*final(tree)) == index_issued(*old(tree)) + 1,
        index_bounds(*final(tree)) == index_bounds(*old(tree)),
        inserted(
            index_regions(*old(tree)),
            index_regions(*final(tree)),
            item_number(id),
            item,
            corners(left, top, right, bottom),
            index_bounds(*old(tree)),
        ),
{
    let first = geom::Point { x: left.into(), y: top.into() };
    let second = geom::Point { x: right.into(), y: bottom.into() };
    tree.insert_with_box(item, geom::Rect::from_points(&first, &second))
}

/// `QuadTree::query` over `geom::Rect::centered_with_radius`: the stored
/// regions that share a point with the square of the given radius around
/// `(center_x, center_y)`, by rising number and each once. Every hit is
/// stored and meets the square. A stored region that meets the square at a
/// point inside the tree's bounds is among the hits; one that meets it only
/// outside them may be missing. An `ItemId` holds its number and nothing
/// else, so each handle that comes back is the only one with its number.
#[verifier::external_body]
pub(crate) fn index_query(
    tree: &QuadTree<ActiveRegionHandler>,
    center_x: u16,
    center_y: u16,
    radius: u8,
) -> (hits: Vec<(ActiveRegionHandler, ItemId)>)
    ensures
        hit_numbers(hits@) == index_hits(*tree, center_x, center_y, radius),
        hits_are_stored(hits@, index_regions(*tree), Area::around(center_x as int, center_y as int, radius as int)),
        hits_rise(hits@),
        hits_are_handles(hits@),
        hits_are_complete(
            hits@,
            index_regions(*tree),
            Area::around(center_x as int, center_y as int, radius as int),
            index_bounds(*tree),
        ),
{
    let center = geom::Point { x: center_x.into(), y: center_y.into() };
    let found = tree.query(geom::Rect::centered_with_radius(&center, radius.into()));
    found.into_iter().map(|hit| (*hit.0, hit.2)).collect()
}

/// `QuadTree::remove`: takes out the region under the number of `id`, if
/// the tree holds one, and hands back what it stood for.
#[verifier::external_body]
pub(crate) fn index_remove(tree: &mut QuadTree<ActiveRegionHandler>, id: ItemId) -> (removed: Option<ActiveRegionHandler>)
    ensures
        index_regions(*final(tree)) == index_regions(*old(tree)).remove(item_number(id)),
        index_issued(*final(tree)) == index_issued(*old(tree)),
        index_bounds(*final(tree)) == index_bounds(*old(tree)),
        removed == stored_handler(index_regions(*old(tree)), item_number(id)),
{
    tree.remove(id).map(|entry| entry.0)
}

/// The rectangle with the given corners.
pub open spec fn corners(left: u16, top: u16, right: u16, bottom: u16) -> Area {
    Area { left: left as int, top: top as int, right: right as int, bottom: bottom as int }
}

/// What an insertion under `number` may have done to the stored regions.
pub open spec fn inserted(
    before: Map<nat, Region>,
    after: Map<nat, Region>,
    number: nat,
    handler: ActiveRegionHandler,
    area: Area,
    bounds: Area,
) -> bool {
    ||| after == before.insert(number, Region { handler, area })
    ||| (!area.meets(bounds) && after == before)
}

/// The handler stored under `number`, if there is one.
pub open spec fn stored_handler(regions: Map<nat, Region>, number: nat) -> Option<ActiveRegionHandler> {
    if regions.contains_key(number) {
        Some(regions[number].handler)
    } else {
        None
    }
}

/// Every hit names a stored region that meets `square`, with its handler.
pub open spec fn hits_are_stored(
    hits: Seq<(ActiveRegionHandler, ItemId)>,
    regions: Map<nat, Region>,
    square: Area,
) -> bool {
    forall|i: int|
        0 <= i < hits.len() ==> {
            &&& regions.contains_key(#[trigger] item_number(hits[i].1))
            &&& regions[item_number(hits[i].1)].handler == hits[i].0
            &&& regions[item_number(hits[i].1)].area.meets(square)
        }
}

/// The numbers of the hits, in their order.
pub open spec fn hit_numbers(hits: Seq<(ActiveRegionHandler, ItemId)>) -> Seq<nat> {
    Seq::new(hits.len(), |i: int| item_number(hits[i].1))
}

/// `id` is the only handle with its number.
pub open spec fn is_handle(id: ItemId) -> bool {
    forall|other: ItemId| #[trigger] item_number(other) == item_number(id) ==> other == id
}

/// Every hit carries the only handle with its number.
pub open spec fn hits_are_handles(hits: Seq<(ActiveRegionHandler, ItemId)>) -> bool {
    forall|i: int| 0 <= i < hits.len() ==> is_handle(#[trigger] hits[i].1)
}

/// The hits come by rising number.
pub open spec fn hits_rise(hits: Seq<(ActiveRegionHandler, ItemId)>) -> bool {
    forall|i: int, j: int|
        0 <= i < j < hits.len() ==> item_number(#[trigger] hits[i].1) < item_number(#[trigger] hits[j].1)
}

/// Every stored region that meets `square` inside `bounds` is among the hits.
pub open spec fn hits_are_complete(
    hits: Seq<(ActiveRegionHandler, ItemId)>,
    regions: Map<nat, Region>,
    square: Area,
    bounds: Area,
) -> bool {
    forall|number: nat|
        regions.contains_key(number) && (#[trigger] regions[number]).area.meets_within(square, bounds)
            ==> exists|i: int| 0 <= i < hits.len() && item_number(#[trigger] hits[i].1) == number
}

} // verus!
