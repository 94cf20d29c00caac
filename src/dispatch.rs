//! Sizing the compute stage's workgroup grid.

use vstd::prelude::*;

verus! {

/// Number of tiles of `tile` items needed to cover `extent` items.
pub open spec fn ceil_div(extent: nat, tile: nat) -> nat
    recommends
        tile > 0,
{
    if extent % tile == 0 {
        extent / tile
    } else {
        extent / tile + 1
    }
}

/// A grid of workgroups for one compute dispatch.
#[derive(Clone, Copy, Debug, PartialEq, Eq, Structural)]
pub struct DispatchGrid {
    pub x: u32,
    pub y: u32,
    pub z: u32,
}

/// Tile size of one workgroup, in pixels along each axis.
#[derive(Clone, Copy, Debug, PartialEq, Eq, Structural)]
pub struct WorkgroupTile {
    pub width: u32,
    pub height: u32,
}

impl WorkgroupTile {
    pub open spec fn valid(&self) -> bool {
        self.width > 0 && self.height > 0
    }
}

/// The grid that covers a `width` x `height` texture with tiles of `tile`.
pub open spec fn spec_grid(width: nat, height: nat, tile: WorkgroupTile) -> DispatchGrid {
    DispatchGrid {
        x: ceil_div(width, tile.width as nat) as u32,
        y: ceil_div(height, tile.height as nat) as u32,
        z: 1,
    }
}

proof fn lemma_ceil_div_bounds(extent: nat, tile: nat)
    requires
        tile > 0,
    ensures
        ceil_div(extent, tile) * tile >= extent,
        ceil_div(extent, tile) == 0 || (ceil_div(extent, tile) - 1) * tile < extent,
        ceil_div(extent, tile) <= extent,
{
    let q = extent / tile;
    let r = extent % tile;
    assert(extent == q * tile + r) by (nonlinear_arith)
        requires
            tile > 0,
            q == extent / tile,
            r == extent % tile,
    ;
    assert(0 <= r < tile);
    if r == 0 {
        assert(q * tile >= extent);
        if q > 0 {
            assert((q - 1) * tile < extent) by (nonlinear_arith)
                requires
                    extent == q * tile,
                    tile > 0,
                    q > 0,
            ;
        }
        assert(q <= extent) by (nonlinear_arith)
            requires
                extent == q * tile,
                tile > 0,
        ;
    } else {
        assert((q + 1) * tile >= extent) by (nonlinear_arith)
            requires
                extent == q * tile + r,
                r < tile,
        ;
        assert(q * tile < extent);
        assert(q + 1 <= extent) by (nonlinear_arith)
            requires
                extent == q * tile + r,
                tile > 0,
                r > 0,
        ;
    }
}

/// Number of workgroups of `tile` items that cover `extent` items: the
/// smallest count whose tiles reach past the last item.
pub fn workgroup_count(extent: u32, tile: u32) -> (r: u32)
    requires
        tile > 0,
    ensures
        r as nat == ceil_div(extent as nat, tile as nat),
        r as int * (tile as int) >= extent as int,
        r == 0 || (r as int - 1) * (tile as int) < extent as int,
{
    proof {
        lemma_ceil_div_bounds(extent as nat, tile as nat);
    }
    let q: u32 = extent / tile;
    if extent % tile == 0 {
        q
    } else {
        q + 1
    }
}

/// The workgroup grid for a `width` x `height` intermediate texture. The grid
/// may overshoot the texture by less than one tile on each axis; invocations
/// past the edge are told apart by `invocation_in_bounds`.
pub fn dispatch_grid(width: u32, height: u32, tile: WorkgroupTile) -> (g: DispatchGrid)
    requires
        tile.valid(),
    ensures
        g == spec_grid(width as nat, height as nat, tile),
        g.x as int * (tile.width as int) >= width as int,
        g.y as int * (tile.height as int) >= height as int,
        g.z == 1,
{
    DispatchGrid {
        x: workgroup_count(width, tile.width),
        y: workgroup_count(height, tile.height),
        z: 1,
    }
}

/// Whether the invocation with global id (`x`, `y`) has a pixel to write in
/// a `width` x `height` texture; those past the edge must write nothing.
pub fn invocation_in_bounds(x: u32, y: u32, width: u32, height: u32) -> (r: bool)
    ensures
        r == (x < width && y < height),
{
    x < width && y < height
}

/// The grid reaches past the texture on each axis, by less than one tile.
pub proof fn lemma_grid_smallest_cover(width: nat, height: nat, tile: WorkgroupTile)
    requires
        tile.valid(),
        width <= u32::MAX,
        height <= u32::MAX,
    ensures
        spec_grid(width, height, tile).z == 1,
        spec_grid(width, height, tile).x as int * (tile.width as int) >= width,
        spec_grid(width, height, tile).y as int * (tile.height as int) >= height,
        (spec_grid(width, height, tile).x as int - 1) * (tile.width as int) < width,
        (spec_grid(width, height, tile).y as int - 1) * (tile.height as int) < height,
{
    lemma_ceil_div_bounds(width, tile.width as nat);
    lemma_ceil_div_bounds(height, tile.height as nat);
    let cx = ceil_div(width, tile.width as nat);
    let cy = ceil_div(height, tile.height as nat);
    if cx == 0 {
        assert((cx as int - 1) * (tile.width as int) < 0) by (nonlinear_arith)
            requires
                cx == 0,
                tile.width > 0,
        ;
    }
    if cy == 0 {
        assert((cy as int - 1) * (tile.height as int) < 0) by (nonlinear_arith)
            requires
                cy == 0,
                tile.height > 0,
        ;
    }
}

/// Every pixel of the texture falls in a workgroup of the dispatched grid,
/// and the invocation that covers it is in bounds.
pub proof fn lemma_grid_covers_every_pixel(
    width: nat,
    height: nat,
    tile: WorkgroupTile,
    px: nat,
    py: nat,
)
    requires
        tile.valid(),
        width <= u32::MAX,
        height <= u32::MAX,
        px < width,
        py < height,
    ensures
        px / (tile.width as nat) < spec_grid(width, height, tile).x,
        py / (tile.height as nat) < spec_grid(width, height, tile).y,
{
    let tw = tile.width as nat;
    let th = tile.height as nat;
    lemma_ceil_div_bounds(width, tw);
    lemma_ceil_div_bounds(height, th);
    let cx = ceil_div(width, tw);
    let cy = ceil_div(height, th);
    assert(px / tw < cx) by (nonlinear_arith)
        requires
            cx * tw >= width,
            px < width,
            tw > 0,
    ;
    assert(py / th < cy) by (nonlinear_arith)
        requires
            cy * th >= height,
            py < height,
            th > 0,
    ;
}

} // verus!
