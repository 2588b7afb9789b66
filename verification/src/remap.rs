//! The remapping of a full-body atlas into the atlas of one body part.

use crate::atlas::Atlas;
use crate::atlas::Grid;
use crate::atlas::Pixel;
use crate::geometry::MoveOp;
use crate::geometry::Rect;
use crate::layout::in_layout;
use crate::layout::moves;
use crate::layout::part_moves;
use crate::layout::ATLAS_SIDE;
use crate::layout::LAYOUT_ROWS;
use crate::part::ArmVariant;
use crate::part::BodyPart;
use crate::part::InvalidPartError;
use vstd::prelude::*;

verus! {

impl Grid {
    /// Whether the move can be carried out on the grid: both rectangles
    /// lie inside it and the block can be resampled.
    pub open spec fn admits(self, m: MoveOp) -> bool {
        &&& self.contains(m.src)
        &&& self.contains(m.dst)
        &&& self.crop(m.src).can_resample(m.dst.width as nat, m.dst.height as nat)
    }

    /// The grid after one move: the block at `m.src`, resampled to the
    /// size of `m.dst`, is written over `m.dst`.
    pub open spec fn moved(self, m: MoveOp) -> Grid {
        self.blit(
            self.crop(m.src).resampled(m.dst.width as nat, m.dst.height as nat),
            m.dst.x as int,
            m.dst.y as int,
        )
    }

    /// The grid after the moves have been carried out one after the other,
    /// each on what the moves before it left.
    pub open spec fn moved_all(self, ops: Seq<MoveOp>) -> Grid
        decreases ops.len(),
    {
        if ops.len() == 0 {
            self
        } else {
            self.moved_all(ops.drop_last()).moved(ops.last())
        }
    }

    /// The atlas of one body part made from a full-body atlas: the marker
    /// pixel is set, then the part's moves are carried out in order.
    pub open spec fn remapped(self, part: BodyPart, variant: ArmVariant) -> Grid {
        self.put(0, 0, marker(part)).moved_all(part_moves(part, variant))
    }

    /// Whether the rectangles of all the moves lie inside the grid.
    pub open spec fn holds(self, ops: Seq<MoveOp>) -> bool {
        forall|i: int|
            0 <= i < ops.len() ==> self.contains((#[trigger] ops[i]).src) && self.contains(
                ops[i].dst,
            )
    }

    /// Whether the grid is large enough for a part: the rectangles of the
    /// part's moves lie inside it.
    pub open spec fn fits(self, part: BodyPart, variant: ArmVariant) -> bool {
        self.holds(part_moves(part, variant))
    }

    /// Whether the grid is large enough for the standard atlas, and so
    /// for every part.
    pub open spec fn holds_layout(self) -> bool {
        self.width >= ATLAS_SIDE && self.height >= ATLAS_SIDE
    }
}

/// A grid of the size of the standard atlas, or larger, is large enough
/// for every part.
pub proof fn lemma_layout_fits(grid: Grid, part: BodyPart, variant: ArmVariant)
    requires
        grid.holds_layout(),
    ensures
        grid.fits(part, variant),
{
    crate::layout::lemma_part_moves_in_layout(part, variant);
}

/// A grid that is large enough for a part is not empty.
pub proof fn lemma_fits_is_not_empty(grid: Grid, part: BodyPart, variant: ArmVariant)
    requires
        grid.fits(part, variant),
    ensures
        grid.width > 0,
        grid.height > 0,
{
    let ops = part_moves(part, variant);
    assert(grid.contains(ops[0].src));
}

/// The pixel that tells which part an atlas shows: the part's number in
/// the red channel, opaque.
pub open spec fn marker(part: BodyPart) -> Pixel {
    Pixel { r: part.spec_id(), g: 0, b: 0, a: 255 }
}

/// A move of a block to the place where it stands changes nothing.
pub proof fn lemma_move_in_place(grid: Grid, r: Rect)
    requires
        grid.wf(),
        grid.contains(r),
    ensures
        grid.moved(MoveOp { src: r, dst: r }) == grid,
{
    let after = grid.moved(MoveOp { src: r, dst: r });
    assert(forall|y: int| 0 <= y < grid.height ==> #[trigger] after.rows[y] =~= grid.rows[y]);
}

/// Moves of the layout keep the size of a well-formed grid and its
/// top-left pixel.
pub proof fn lemma_moved_all_keeps_marker(grid: Grid, ops: Seq<MoveOp>)
    requires
        grid.wf(),
        grid.width > 0,
        grid.height > 0,
        forall|i: int| 0 <= i < ops.len() ==> in_layout(#[trigger] ops[i]),
    ensures
        grid.moved_all(ops).wf(),
        grid.moved_all(ops).width == grid.width,
        grid.moved_all(ops).height == grid.height,
        grid.moved_all(ops).at(0, 0) == grid.at(0, 0),
    decreases ops.len(),
{
    if ops.len() > 0 {
        lemma_moved_all_keeps_marker(grid, ops.drop_last());
    }
}

/// The atlas of a part has the size of the full-body atlas and the part's
/// marker in its top-left pixel.
pub proof fn lemma_remapped_size_and_marker(source: Grid, part: BodyPart, variant: ArmVariant)
    requires
        source.wf(),
        source.width > 0,
        source.height > 0,
    ensures
        source.remapped(part, variant).wf(),
        source.remapped(part, variant).width == source.width,
        source.remapped(part, variant).height == source.height,
        source.remapped(part, variant).at(0, 0) == marker(part),
{
    crate::layout::lemma_part_moves_in_layout(part, variant);
    lemma_moved_all_keeps_marker(source.put(0, 0, marker(part)), part_moves(part, variant));
}

/// Moves of the layout leave the rows below the single-part layout as
/// they are, so each of them reads what the grid held before the first.
pub proof fn lemma_moved_all_keeps_sources(grid: Grid, ops: Seq<MoveOp>)
    requires
        grid.wf(),
        grid.width > 0,
        grid.height > 0,
        forall|i: int| 0 <= i < ops.len() ==> in_layout(#[trigger] ops[i]),
    ensures
        forall|x: int, y: int|
            0 <= x < grid.width && LAYOUT_ROWS <= y < grid.height ==> #[trigger] grid.moved_all(
                ops,
            ).at(x, y) == grid.at(x, y),
        forall|m: MoveOp|
            in_layout(m) && grid.contains(m.src) ==> #[trigger] grid.moved_all(ops).crop(m.src)
                == grid.crop(m.src),
    decreases ops.len(),
{
    if ops.len() > 0 {
        let before = ops.drop_last();
        lemma_moved_all_keeps_sources(grid, before);
        lemma_moved_all_keeps_marker(grid, before);
    }
    let after = grid.moved_all(ops);
    assert forall|m: MoveOp| in_layout(m) && grid.contains(m.src) implies #[trigger] after.crop(
        m.src,
    ) == grid.crop(m.src) by {
        let a = after.crop(m.src);
        let b = grid.crop(m.src);
        assert(forall|y: int| 0 <= y < m.src.height ==> #[trigger] a.rows[y] =~= b.rows[y]);
    }
}

/// What a run of moves with pairwise disjoint destinations leaves in the
/// pixel `(x, y)`: inside the destination of a move, the pixel of that
/// move's block as the grid held it before the first move, resampled;
/// outside every destination, what the grid held there.
pub proof fn lemma_moved_all_pixel(grid: Grid, ops: Seq<MoveOp>, x: int, y: int)
    requires
        grid.wf(),
        grid.holds(ops),
        0 <= x < grid.width,
        0 <= y < grid.height,
        forall|i: int| 0 <= i < ops.len() ==> in_layout(#[trigger] ops[i]),
        forall|i: int, j: int|
            0 <= i < j < ops.len() ==> (#[trigger] ops[i]).dst.disjoint((#[trigger] ops[j]).dst),
    ensures
        forall|i: int|
            0 <= i < ops.len() && (#[trigger] ops[i]).dst.covers(x, y) ==> grid.moved_all(ops).at(
                x,
                y,
            ) == grid.crop(ops[i].src).resampled(
                ops[i].dst.width as nat,
                ops[i].dst.height as nat,
            ).at(x - ops[i].dst.x, y - ops[i].dst.y),
        (forall|i: int| 0 <= i < ops.len() ==> !(#[trigger] ops[i]).dst.covers(x, y))
            ==> grid.moved_all(ops).at(x, y) == grid.at(x, y),
    decreases ops.len(),
{
    if ops.len() > 0 {
        let before = ops.drop_last();
        let n = ops.len() - 1;
        lemma_moved_all_pixel(grid, before, x, y);
        lemma_moved_all_keeps_sources(grid, before);
        lemma_moved_all_keeps_marker(grid, before);
        assert forall|i: int| 0 <= i < ops.len() && (#[trigger] ops[i]).dst.covers(
            x,
            y,
        ) implies grid.moved_all(ops).at(x, y) == grid.crop(ops[i].src).resampled(
            ops[i].dst.width as nat,
            ops[i].dst.height as nat,
        ).at(x - ops[i].dst.x, y - ops[i].dst.y) by {
            if i < n {
                assert(before[i] == ops[i]);
            }
        }
    }
}

/// The atlas of a part, pixel by pixel, in terms of the full-body atlas
/// alone: inside the destination of a move of the part stands the pixel
/// of that move's source block, resampled to the destination's size; the
/// top-left pixel is the marker; every other pixel is as in the full-body
/// atlas. The order of the moves plays no part in it.
pub proof fn lemma_remapped_pixel(source: Grid, part: BodyPart, variant: ArmVariant, x: int, y: int)
    requires
        source.wf(),
        source.fits(part, variant),
        0 <= x < source.width,
        0 <= y < source.height,
    ensures
        forall|i: int|
            0 <= i < part_moves(part, variant).len() && (#[trigger] part_moves(
                part,
                variant,
            )[i]).dst.covers(x, y) ==> source.remapped(part, variant).at(x, y) == source.crop(
                part_moves(part, variant)[i].src,
            ).resampled(
                part_moves(part, variant)[i].dst.width as nat,
                part_moves(part, variant)[i].dst.height as nat,
            ).at(x - part_moves(part, variant)[i].dst.x, y - part_moves(part, variant)[i].dst.y),
        (forall|i: int|
            0 <= i < part_moves(part, variant).len() ==> !(#[trigger] part_moves(
                part,
                variant,
            )[i]).dst.covers(x, y)) ==> source.remapped(part, variant).at(x, y) == (if x == 0 && y
            == 0 {
            marker(part)
        } else {
            source.at(x, y)
        }),
{
    let ops = part_moves(part, variant);
    let start = source.put(0, 0, marker(part));
    crate::layout::lemma_part_moves_in_layout(part, variant);
    crate::layout::lemma_destinations_disjoint(part, variant);
    lemma_moved_all_pixel(start, ops, x, y);
    assert forall|i: int| 0 <= i < ops.len() implies start.crop((#[trigger] ops[i]).src) == source.crop(
        ops[i].src,
    ) by {
        let m = ops[i];
        let a = start.crop(m.src);
        let b = source.crop(m.src);
        assert(forall|r: int| 0 <= r < m.src.height ==> #[trigger] a.rows[r] =~= b.rows[r]);
    }
}

/// Writes the block at `src`, resampled to the size of `dst` where the
/// sizes differ, over `dst`.
pub fn move_image(src: Rect, dst: Rect, img: Atlas) -> (out: Atlas)
    requires
        img@.admits(MoveOp { src, dst }),
    ensures
        out@ == img@.moved(MoveOp { src, dst }),
{
    let block = img.crop(src).resample(dst.width, dst.height);
    img.blit(&block, dst.x, dst.y)
}

/// The atlas of one body part: the marker pixel is set and the part's
/// blocks are moved into the single-part layout.
pub fn remap(source: Atlas, part: BodyPart, variant: ArmVariant) -> (out: Atlas)
    requires
        source@.fits(part, variant),
    ensures
        out@ == source@.remapped(part, variant),
        out@.width == source@.width,
        out@.height == source@.height,
        out@.at(0, 0) == marker(part),
{
    proof {
        source.lemma_view_wf();
        lemma_fits_is_not_empty(source@, part, variant);
        lemma_remapped_size_and_marker(source@, part, variant);
    }
    let ghost start = source@.put(0, 0, marker(part));
    let ops = moves(part, variant);
    let mut img = source.put_pixel(0, 0, Pixel { r: part.id(), g: 0, b: 0, a: 255 });
    let mut i: usize = 0;
    while i < ops.len()
        invariant
            i <= ops.len(),
            start.wf(),
            start.width > 0,
            start.height > 0,
            start.holds(ops@),
            forall|k: int| 0 <= k < ops.len() ==> in_layout(#[trigger] ops[k]),
            img@ == start.moved_all(ops@.take(i as int)),
        decreases ops.len() - i,
    {
        let m = ops[i];
        proof {
            let done = ops@.take(i as int);
            lemma_moved_all_keeps_marker(start, done);
            assert(ops@.take(i + 1).drop_last() =~= done);
        }
        img = move_image(m.src, m.dst, img);
        i += 1;
    }
    assert(ops@.take(ops.len() as int) =~= ops@);
    img
}

impl Atlas {
    /// Whether `r` lies inside the atlas.
    pub fn contains(&self, r: Rect) -> (inside: bool)
        ensures
            inside == self@.contains(r),
    {
        r.width > 0 && r.height > 0 && r.x as u64 + r.width as u64 <= self.width() as u64 && r.y as u64
            + r.height as u64 <= self.height() as u64
    }

    /// Whether the atlas is large enough for a part: the rectangles of
    /// the part's moves lie inside it.
    pub fn fits(&self, part: BodyPart, variant: ArmVariant) -> (large: bool)
        ensures
            large == self@.fits(part, variant),
    {
        let ops = moves(part, variant);
        let mut i: usize = 0;
        while i < ops.len()
            invariant
                i <= ops.len(),
                ops@ == part_moves(part, variant),
                forall|k: int|
                    0 <= k < i ==> self@.contains((#[trigger] ops[k]).src) && self@.contains(
                        ops[k].dst,
                    ),
            decreases ops.len() - i,
        {
            let m = ops[i];
            if !(self.contains(m.src) && self.contains(m.dst)) {
                return false;
            }
            i += 1;
        }
        true
    }
}

/// The atlas of the body part with number `idx`, for slim arms or classic
/// ones; an error, with nothing built, where no part has that number.
pub fn process_skin(idx: usize, img: Atlas, slim: bool) -> (r: Result<Atlas, InvalidPartError>)
    requires
        BodyPart::spec_from_id(idx as int) matches Some(part) ==> img@.fits(
            part,
            ArmVariant::spec_from_slim(slim),
        ),
    ensures
        match BodyPart::spec_from_id(idx as int) {
            Some(part) => r matches Ok(out) && out@ == img@.remapped(
                part,
                ArmVariant::spec_from_slim(slim),
            ) && out@.width == img@.width && out@.height == img@.height && out@.at(0, 0) == (Pixel {
                r: idx as u8,
                g: 0,
                b: 0,
                a: 255,
            }),
            None => r == Err::<Atlas, InvalidPartError>(InvalidPartError { id: idx }),
        },
        r is Err <==> !(1 <= idx <= 5),
{
    match BodyPart::from_id(idx) {
        Ok(part) => Ok(remap(img, part, ArmVariant::from_slim(slim))),
        Err(e) => Err(e),
    }
}

} // verus!
