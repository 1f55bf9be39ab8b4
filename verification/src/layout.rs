use crate::geometry::Area;
use vstd::prelude::*;

verus! {

/// The tiling schemes a workspace can be arranged by. Every scheme currently
/// partitions the screen by alternating halving.
#[derive(Clone, Copy, Debug, PartialEq, Eq, Structural)]
pub enum Layout {
    Bsp,
    Winister,
    Stacking,
    Floating,
}

/// Whether the first split of a tiling that starts at depth `idx` cuts the
/// region into a top and a bottom part (`true`) or into a left and a right
/// part (`false`): it cuts top/bottom where the parity of `idx` is `vertical`.
pub open spec fn splits_rows(idx: int, vertical: int) -> bool {
    idx % 2 == vertical
}

/// The part of `region` that the first window of a split receives: the top or
/// left half, rounded down.
pub open spec fn first_half(region: Area, rows: bool) -> Area {
    if rows {
        Area { x: region.x, y: region.y, width: region.width, height: (region.height / 2) as u32 }
    } else {
        Area { x: region.x, y: region.y, width: (region.width / 2) as u32, height: region.height }
    }
}

/// The part of `region` left to the remaining windows of a split: the bottom
/// or right half, which takes the odd pixel when the dimension is odd. It
/// starts where the first half ends; coordinates are counted round the
/// coordinate space, so that a region that is not `representable` is carried
/// on from coordinate 0.
pub open spec fn second_half(region: Area, rows: bool) -> Area {
    if rows {
        Area {
            x: region.x,
            y: region.y.wrapping_add((region.height / 2) as u32),
            width: region.width,
            height: (region.height - region.height / 2) as u32,
        }
    } else {
        Area {
            x: region.x.wrapping_add((region.width / 2) as u32),
            y: region.y,
            width: (region.width - region.width / 2) as u32,
            height: region.height,
        }
    }
}

/// The rectangles of `count` windows tiled into `region`, the window at
/// position `i` receiving the rectangle at position `i`. A single window
/// takes the whole region. Of several windows the first takes the first half
/// of the region and the others share the second half, which is cut across
/// the other axis: top/bottom cuts (`rows`) and left/right cuts take turns.
pub open spec fn tiling(count: nat, region: Area, rows: bool) -> Seq<Area>
    decreases count,
{
    if count == 0 {
        Seq::empty()
    } else if count == 1 {
        seq![region]
    } else {
        seq![first_half(region, rows)] + tiling(
            (count - 1) as nat,
            second_half(region, rows),
            !rows,
        )
    }
}

/// The tiling of `count` windows into `region` whose first cut is the one of
/// depth `idx` under the parity `vertical`.
pub open spec fn window_sizes(count: nat, idx: int, region: Area, vertical: int) -> Seq<Area> {
    tiling(count, region, splits_rows(idx, vertical))
}

/// The partition of `region` among `count` windows: the tiling that starts
/// with a top/bottom cut.
pub open spec fn partition_of(count: nat, region: Area) -> Seq<Area> {
    tiling(count, region, true)
}

/// Some rectangle of `tiles` holds the pixel at column `px`, row `py`.
pub open spec fn some_covers(tiles: Seq<Area>, px: int, py: int) -> bool {
    exists|i: int| 0 <= i < tiles.len() && (#[trigger] tiles[i]).covers(px, py)
}

/// The rectangles of `tiles` cover `region` without gap and without overlap:
/// every pixel of `region` lies in one of them, none of them reaches outside
/// `region`, and no pixel lies in two of them.
pub open spec fn tiles_exactly(tiles: Seq<Area>, region: Area) -> bool {
    &&& forall|px: int, py: int| #[trigger] region.covers(px, py) ==> some_covers(tiles, px, py)
    &&& forall|i: int, px: int, py: int|
        0 <= i < tiles.len() && (#[trigger] tiles[i].covers(px, py)) ==> region.covers(px, py)
    &&& forall|i: int, j: int, px: int, py: int|
        0 <= i < j < tiles.len() ==> !((#[trigger] tiles[i].covers(px, py)) && (
        #[trigger] tiles[j].covers(px, py)))
}

/// The number of pixels in all rectangles of `tiles` together.
pub open spec fn total_pixels(tiles: Seq<Area>) -> nat
    decreases tiles.len(),
{
    if tiles.len() == 0 {
        0
    } else {
        tiles[0].pixels() + total_pixels(tiles.drop_first())
    }
}

/// A tiling holds one rectangle for each window.
pub proof fn lemma_tiling_len(count: nat, region: Area, rows: bool)
    ensures
        tiling(count, region, rows).len() == count,
    decreases count,
{
    if count >= 2 {
        lemma_tiling_len((count - 1) as nat, second_half(region, rows), !rows);
    }
}

/// The two halves of a split cover the region exactly, the odd pixel of an
/// odd dimension going to the second half.
proof fn lemma_halves(region: Area, rows: bool)
    requires
        region.representable(),
    ensures
        first_half(region, rows).representable(),
        second_half(region, rows).representable(),
        forall|px: int, py: int|
            region.covers(px, py) == (first_half(region, rows).covers(px, py) || second_half(
                region,
                rows,
            ).covers(px, py)),
        forall|px: int, py: int|
            !(first_half(region, rows).covers(px, py) && second_half(region, rows).covers(px, py)),
        first_half(region, rows).pixels() + second_half(region, rows).pixels() == region.pixels(),
{
    let w = region.width as int;
    let h = region.height as int;
    if rows {
        assert(w * (h / 2) + w * (h - h / 2) == w * h) by (nonlinear_arith);
    } else {
        assert((w / 2) * h + (w - w / 2) * h == w * h) by (nonlinear_arith);
    }
}

/// A tiling tiles its region: there is one rectangle for each window,
/// together the rectangles cover the region, no two of them share a pixel, and
/// their pixels add up to the region's. This holds whichever way the first
/// cut goes, for one window or more; without a window it holds of a region
/// without pixels.
pub proof fn lemma_tiling_tiles(count: nat, region: Area, rows: bool)
    requires
        count >= 1 || region.pixels() == 0,
        region.representable(),
    ensures
        tiling(count, region, rows).len() == count,
        tiles_exactly(tiling(count, region, rows), region),
        total_pixels(tiling(count, region, rows)) == region.pixels(),
    decreases count,
{
    let tiles = tiling(count, region, rows);
    lemma_tiling_len(count, region, rows);
    if count == 0 {
        assert(region.width == 0 || region.height == 0) by (nonlinear_arith)
            requires
                region.width * region.height == 0,
        ;
    } else if count == 1 {
        assert(tiles[0] == region);
        assert(total_pixels(tiles.drop_first()) == 0);
    } else {
        let first = first_half(region, rows);
        let rest = second_half(region, rows);
        let others = tiling((count - 1) as nat, rest, !rows);
        lemma_halves(region, rows);
        lemma_tiling_tiles((count - 1) as nat, rest, !rows);
        assert(tiles.drop_first() == others);
        assert forall|i: int| 1 <= i < count implies #[trigger] tiles[i] == others[i - 1] by {}
        assert forall|px: int, py: int| #[trigger] region.covers(px, py) implies some_covers(
            tiles,
            px,
            py,
        ) by {
            if first.covers(px, py) {
                assert(tiles[0].covers(px, py));
            } else {
                let k = choose|k: int| 0 <= k < others.len() && (#[trigger] others[k]).covers(px, py);
                assert(tiles[k + 1].covers(px, py));
            }
        }
    }
}

/// The partition of a region among its windows tiles it: there is one
/// rectangle for each window, the rectangles cover the region, no two of them
/// share a pixel, and their pixels add up to the region's. Without a window
/// there is nothing to cover a pixel, so that case is stated of a region
/// without pixels only.
pub proof fn lemma_partition_tiles(count: nat, region: Area)
    requires
        count >= 1 || region.pixels() == 0,
        region.representable(),
    ensures
        partition_of(count, region).len() == count,
        tiles_exactly(partition_of(count, region), region),
        total_pixels(partition_of(count, region)) == region.pixels(),
{
    lemma_tiling_tiles(count, region, true);
}

/// Without a window there is no rectangle, and a single window receives the
/// whole region.
pub proof fn lemma_partition_small(region: Area)
    ensures
        partition_of(0, region) == Seq::<Area>::empty(),
        partition_of(1, region) == seq![region],
{
}

impl Layout {
    /// Tiles `window_count` windows into the rectangle at (`x`, `y`) of the
    /// given size. The first split cuts top/bottom when `idx % 2` equals
    /// `vertical`, and left/right otherwise; from there the cuts take turns.
    /// Every count and every rectangle is served: see `second_half` for a
    /// rectangle that reaches past the last coordinate.
    pub fn generate_window_sizes(
        &self,
        window_count: usize,
        idx: usize,
        x: u32,
        y: u32,
        width: u32,
        height: u32,
        vertical: usize,
    ) -> (areas: Vec<Area>)
        ensures
            areas@ == window_sizes(
                window_count as nat,
                idx as int,
                (Area { x, y, width, height }),
                vertical as int,
            ),
    {
        let mut areas: Vec<Area> = Vec::new();
        if window_count == 0 {
            return areas;
        }
        let ghost whole = Area { x, y, width, height };
        let ghost first_rows = splits_rows(idx as int, vertical as int);
        let mut region = Area { x, y, width, height };
        let mut rows: bool = idx % 2 == vertical;
        let mut placed: usize = 0;
        while placed < window_count - 1
            invariant
                placed < window_count,
                areas@ + tiling((window_count - placed) as nat, region, rows) == tiling(
                    window_count as nat,
                    whole,
                    first_rows,
                ),
            decreases window_count - placed,
        {
            let first: Area;
            let rest: Area;
            if rows {
                let half: u32 = region.height / 2;
                first = Area { x: region.x, y: region.y, width: region.width, height: half };
                rest = Area {
                    x: region.x,
                    y: region.y.wrapping_add(half),
                    width: region.width,
                    height: region.height - half,
                };
            } else {
                let half: u32 = region.width / 2;
                first = Area { x: region.x, y: region.y, width: half, height: region.height };
                rest = Area {
                    x: region.x.wrapping_add(half),
                    y: region.y,
                    width: region.width - half,
                    height: region.height,
                };
            }
            areas.push(first);
            region = rest;
            rows = !rows;
            placed = placed + 1;
        }
        areas.push(region);
        areas
    }

    /// Partitions `region` among `count` windows: see `partition_of`.
    pub fn partition(&self, count: usize, region: Area) -> (areas: Vec<Area>)
        ensures
            areas@ == partition_of(count as nat, region),
    {
        self.generate_window_sizes(count, 0, region.x, region.y, region.width, region.height, 0)
    }
}

} // verus!
