//! The spatial index of active regions: rectangles of the screen that a
//! touch sets off.

use vstd::prelude::*;
use aabb_quadtree::ItemId;
use aabb_quadtree::QuadTree;
use crate::geometry::{
    clipped_span, covers_from_origin, far_edge, in_reach, reach_is_the_surface, reachable_surface, span,
    surface, touch_area, Area, COORDINATE_MAX, TOUCH_RADIUS,
};
use crate::index::{
    index_bounds, index_hits, index_insert, index_issued, index_new, index_query, index_regions,
    index_remove, inserted, is_handle, item_number, stored_handler, ActiveRegionHandler, Region,
};

verus! {

/// What a lookup may answer. `Some(n)`: region `n` is stored and meets the
/// square, and no region with a smaller number meets the square inside the
/// bounds. `None`: no stored region meets the square inside the bounds.
pub open spec fn may_find(regions: Map<nat, Region>, bounds: Area, square: Area, found: Option<nat>) -> bool {
    match found {
        Some(number) => {
            &&& regions.contains_key(number)
            &&& regions[number].area.meets(square)
            &&& forall|other: nat|
                regions.contains_key(other) && other < number ==> !(#[trigger] regions[other]).area.meets_within(
                    square,
                    bounds,
                )
        },
        None => forall|other: nat|
            regions.contains_key(other) ==> !(#[trigger] regions[other]).area.meets_within(square, bounds),
    }
}

/// The number of the region that a lookup found, if it found one.
pub open spec fn found_number(found: Option<(ActiveRegionHandler, ItemId)>) -> Option<nat> {
    match found {
        Some(hit) => Some(item_number(hit.1)),
        None => None,
    }
}

/// A region that has just been inserted is what a touch strictly inside its
/// rectangle finds, where the touch lies on the part of the screen that the
/// index covers and its square meets no region that was there before.
pub proof fn inserted_is_found(
    before: Map<nat, Region>,
    after: Map<nat, Region>,
    bounds: Area,
    number: nat,
    handler: ActiveRegionHandler,
    y: u16,
    x: u16,
    height: u16,
    width: u16,
    touch_y: u16,
    touch_x: u16,
    found: Option<nat>,
)
    requires
        inserted(before, after, number, handler, clipped_span(y, x, height, width), bounds),
        span(y, x, height, width).holds_strictly(touch_x as int, touch_y as int),
        bounds.holds(touch_x as int, touch_y as int),
        forall|other: nat|
            before.contains_key(other) ==> !(#[trigger] before[other]).area.meets(touch_area(touch_y, touch_x)),
        may_find(after, bounds, touch_area(touch_y, touch_x), found),
    ensures
        found == Some(number),
        after[number] == (Region { handler, area: clipped_span(y, x, height, width) }),
{
    let area = clipped_span(y, x, height, width);
    let square = touch_area(touch_y, touch_x);
    assert(area.holds(touch_x as int, touch_y as int));
    assert(area.meets(bounds));
    assert(after == before.insert(number, Region { handler, area }));
    assert(after[number].area.meets_within(square, bounds));
    match found {
        Some(other) => {
            if other != number {
                assert(before.contains_key(other));
                assert(before[other] == after[other]);
            }
        },
        None => {},
    }
}

/// Where several regions lie under a touch, the oldest is found: a region
/// that meets the square on the covered part of the screen, while no region
/// with a smaller number meets the square at all, is the one that a lookup
/// answers.
pub proof fn oldest_is_found(
    regions: Map<nat, Region>,
    bounds: Area,
    square: Area,
    number: nat,
    found: Option<nat>,
)
    requires
        regions.contains_key(number),
        regions[number].area.meets_within(square, bounds),
        forall|other: nat|
            regions.contains_key(other) && other < number ==> !(#[trigger] regions[other]).area.meets(square),
        may_find(regions, bounds, square, found),
    ensures
        found == Some(number),
{
}

/// A touch whose square meets no stored region finds nothing.
pub proof fn nothing_near_finds_nothing(regions: Map<nat, Region>, bounds: Area, square: Area, found: Option<nat>)
    requires
        forall|other: nat| regions.contains_key(other) ==> !(#[trigger] regions[other]).area.meets(square),
        may_find(regions, bounds, square, found),
    ensures
        found.is_none(),
{
}

/// The first of the reported numbers, if any was reported.
pub open spec fn first_hit(hits: Seq<nat>) -> Option<nat> {
    if hits.len() == 0 {
        None
    } else {
        Some(hits[0])
    }
}

/// The regions without the one that a lookup answered, if it answered one.
pub open spec fn without_hit(regions: Map<nat, Region>, hit: Option<nat>) -> Map<nat, Region> {
    match hit {
        Some(number) => regions.remove(number),
        None => regions,
    }
}

/// The handler of the region that a lookup answered, if it answered one.
pub open spec fn handler_of(regions: Map<nat, Region>, hit: Option<nat>) -> Option<ActiveRegionHandler> {
    match hit {
        Some(number) => Some(regions[number].handler),
        None => None,
    }
}

/// The active regions of one screen.
pub struct ActiveRegions {
    tree: QuadTree<ActiveRegionHandler>,
    issued: u32,
    width: u32,
    height: u32,
}

impl ActiveRegions {
    /// The stored regions, each under the number it was given at insertion.
    pub closed spec fn regions(&self) -> Map<nat, Region> {
        index_regions(self.tree)
    }

    /// The screen that the index was made for.
    pub closed spec fn bounds(&self) -> Area {
        surface(self.width, self.height)
    }

    /// How many regions were ever inserted; the number of the next one.
    pub closed spec fn issued(&self) -> nat {
        index_issued(self.tree)
    }

    /// What a lookup at `(x, y)` answers: the number of the region it
    /// finds, if it finds one. The answer depends on the index alone.
    pub closed spec fn hit(&self, y: u16, x: u16) -> Option<nat> {
        first_hit(index_hits(self.tree, x, y, TOUCH_RADIUS))
    }

    /// What a lookup answers, for every point.
    pub open spec fn hits(&self) -> spec_fn(u16, u16) -> Option<nat> {
        |y: u16, x: u16| self.hit(y, x)
    }

    /// The index is consistent: it was made for a screen with a width and a
    /// height above zero and covers what a touch can reach of it, every
    /// stored region was numbered before the next number, and every stored
    /// rectangle holds a point and lies within the coordinates that a touch
    /// can report.
    pub closed spec fn wf(&self) -> bool {
        &&& self.issued as nat == index_issued(self.tree)
        &&& self.width > 0
        &&& self.height > 0
        &&& index_bounds(self.tree) == reachable_surface(self.width, self.height)
        &&& forall|number: nat| #[trigger]
            index_regions(self.tree).contains_key(number) ==> {
                &&& number < index_issued(self.tree)
                &&& in_reach(index_regions(self.tree)[number].area)
            }
    }

    /// What `wf` says, over the public view.
    pub proof fn wf_facts(&self)
        requires
            self.wf(),
        ensures
            covers_from_origin(self.bounds()),
            forall|number: nat| #[trigger]
                self.regions().contains_key(number) ==> number < self.issued() && in_reach(
                    self.regions()[number].area,
                ),
    {
    }

    /// An empty index for a screen `width` wide and `height` high.
    pub fn new(width: u32, height: u32) -> (index: ActiveRegions)
        requires
            width > 0,
            height > 0,
        ensures
            index.wf(),
            index.regions() == (Map::<nat, Region>::empty()),
            index.issued() == 0,
            index.bounds() == surface(width, height),
    {
        let w: u16 = if width <= COORDINATE_MAX as u32 { width as u16 } else { COORDINATE_MAX };
        let h: u16 = if height <= COORDINATE_MAX as u32 { height as u16 } else { COORDINATE_MAX };
        ActiveRegions { tree: index_new(w, h), issued: 0, width, height }
    }

    /// How many regions were ever inserted.
    pub fn issued_count(&self) -> (count: u32)
        requires
            self.wf(),
        ensures
            count as nat == self.issued(),
    {
        self.issued
    }

    /// Inserts the rectangle from `(x, y)` that is `width` wide and `height`
    /// high, cut off at the largest coordinate, and returns its handle. A
    /// rectangle that meets the screen is stored under the next number; one
    /// that lies outside it may be dropped.
    pub fn insert(&mut self, y: u16, x: u16, height: u16, width: u16, handler: ActiveRegionHandler) -> (id: ItemId)
        requires
            old(self).wf(),
            old(self).issued() < u32::MAX,
        ensures
            final(self).wf(),
            item_number(id) == old(self).issued(),
            final(self).issued() == old(self).issued() + 1,
            final(self).bounds() == old(self).bounds(),
            inserted(
                old(self).regions(),
                final(self).regions(),
                item_number(id),
                handler,
                clipped_span(y, x, height, width),
                old(self).bounds(),
            ),
    {
        let right: u16 = far_edge(x, width);
        let bottom: u16 = far_edge(y, height);
        proof {
            reach_is_the_surface(clipped_span(y, x, height, width), 0, 0, self.width, self.height);
        }
        let id = index_insert(&mut self.tree, handler, x, y, right, bottom);
        self.issued = self.issued + 1;
        id
    }

    /// Looks for a region under a touch at `(x, y)`: the first, by number,
    /// of those that the index reports for the square around the point.
    pub fn find(&self, y: u16, x: u16) -> (found: Option<(ActiveRegionHandler, ItemId)>)
        requires
            self.wf(),
        ensures
            found_number(found) == self.hit(y, x),
            may_find(self.regions(), self.bounds(), touch_area(y, x), self.hit(y, x)),
            found matches Some(found_hit) ==> self.regions()[item_number(found_hit.1)].handler == found_hit.0
                && is_handle(found_hit.1),
    {
        let hits = index_query(&self.tree, x, y, TOUCH_RADIUS);
        proof {
            assert forall|number: nat| #[trigger] self.regions().contains_key(number) implies self.regions()[number].area.meets_within(
                touch_area(y, x),
                self.bounds(),
            ) == self.regions()[number].area.meets_within(touch_area(y, x), index_bounds(self.tree)) by {
                reach_is_the_surface(self.regions()[number].area, y, x, self.width, self.height);
            }
        }
        if hits.len() == 0 {
            None
        } else {
            Some(hits[0])
        }
    }

    /// Removes the region with the given handle and returns what it stood
    /// for, if it was stored.
    pub fn remove(&mut self, id: ItemId) -> (removed: Option<ActiveRegionHandler>)
        requires
            old(self).wf(),
        ensures
            final(self).wf(),
            final(self).regions() == old(self).regions().remove(item_number(id)),
            final(self).issued() == old(self).issued(),
            final(self).bounds() == old(self).bounds(),
            removed == stored_handler(old(self).regions(), item_number(id)),
    {
        index_remove(&mut self.tree, id)
    }

    /// Removes the region that a lookup at `(x, y)` answers, and says
    /// whether it answered one.
    pub fn remove_at_point(&mut self, y: u16, x: u16) -> (removed: bool)
        requires
            old(self).wf(),
        ensures
            final(self).wf(),
            final(self).issued() == old(self).issued(),
            final(self).bounds() == old(self).bounds(),
            removed == old(self).hit(y, x).is_some(),
            final(self).regions() == without_hit(old(self).regions(), old(self).hit(y, x)),
            may_find(old(self).regions(), old(self).bounds(), touch_area(y, x), old(self).hit(y, x)),
    {
        match self.find(y, x) {
            Some(found_hit) => {
                let taken = index_remove(&mut self.tree, found_hit.1);
                taken.is_some()
            },
            None => false,
        }
    }
}

} // verus!
