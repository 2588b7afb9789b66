//! The rectangle tables: which blocks of the source atlas make up each body
//! part, and where they go in the single-part layout.

use crate::codec::resize_in_reach;
use crate::geometry::MoveOp;
use crate::geometry::Rect;
use crate::part::ArmVariant;
use crate::part::BodyPart;
use vstd::prelude::*;

verus! {

/// The side of the standard atlas, in pixels. Every rectangle of the
/// tables lies within a square of this side.
pub const ATLAS_SIDE: u32 = 64;

/// How far right of a base-layer destination the overlay's destination
/// lies.
pub const OVERLAY_DST_SHIFT: u32 = 32;

/// The single-part layout takes up the rows above this one; every source
/// block lies at or below it.
pub const LAYOUT_ROWS: u32 = 16;

/// The move of the block `(sx, sy, sw, sh)` to `(dx, dy, dw, dh)`.
pub open spec fn spec_op(sx: u32, sy: u32, sw: u32, sh: u32, dx: u32, dy: u32, dw: u32, dh: u32)
    -> MoveOp {
    MoveOp {
        src: Rect { x: sx, y: sy, width: sw, height: sh },
        dst: Rect { x: dx, y: dy, width: dw, height: dh },
    }
}

/// The move of the block `(sx, sy, sw, sh)` to `(dx, dy, dw, dh)`.
#[verifier::when_used_as_spec(spec_op)]
pub fn op(sx: u32, sy: u32, sw: u32, sh: u32, dx: u32, dy: u32, dw: u32, dh: u32) -> (m: MoveOp)
    ensures
        m == spec_op(sx, sy, sw, sh, dx, dy, dw, dh),
{
    MoveOp::new(Rect::new(sx, sy, sw, sh), Rect::new(dx, dy, dw, dh))
}

/// The moves of the base layer of a part, in the order in which they are
/// carried out. Legs and torso do not depend on the variant.
pub open spec fn base_moves(part: BodyPart, variant: ArmVariant) -> Seq<MoveOp> {
    match (part, variant) {
        (BodyPart::LeftArm, ArmVariant::Classic) | (BodyPart::RightArm, ArmVariant::Classic) => seq![
            op(36, 48, 8, 4, 8, 0, 16, 8),
            op(32, 52, 16, 12, 0, 8, 32, 8),
        ],
        (BodyPart::LeftArm, ArmVariant::Slim) => seq![
            op(36, 48, 3, 4, 8, 0, 8, 8),
            op(39, 48, 3, 4, 16, 0, 8, 8),
            op(36, 52, 3, 12, 8, 8, 8, 8),
            op(39, 52, 4, 12, 16, 8, 8, 8),
            op(32, 52, 4, 12, 0, 8, 8, 8),
            op(43, 52, 3, 12, 24, 8, 8, 8),
        ],
        (BodyPart::RightArm, ArmVariant::Slim) => seq![
            op(44, 16, 3, 4, 8, 0, 8, 8),
            op(47, 16, 3, 4, 16, 0, 8, 8),
            op(44, 20, 3, 12, 8, 8, 8, 8),
            op(47, 20, 4, 12, 16, 8, 8, 8),
            op(40, 20, 4, 12, 0, 8, 8, 8),
            op(51, 20, 3, 12, 24, 8, 8, 8),
        ],
        (BodyPart::LeftLeg, _) => seq![
            op(20, 48, 8, 4, 8, 0, 16, 8),
            op(16, 52, 16, 12, 0, 8, 32, 8),
        ],
        (BodyPart::RightLeg, _) => seq![
            op(20, 16, 16, 4, 8, 0, 16, 8),
            op(16, 20, 24, 12, 0, 8, 32, 8),
        ],
        (BodyPart::Torso, _) => seq![op(4, 16, 8, 4, 8, 0, 16, 8)],
    }
}

/// Where the overlay layer of a part lies in the source atlas, as the
/// offset `(dx, dy)` from its base layer; `None` for the torso, which has
/// its base layer moved only.
pub open spec fn spec_overlay_offset(part: BodyPart, variant: ArmVariant) -> Option<(i32, i32)> {
    match (part, variant) {
        (BodyPart::LeftArm, _) => Some((16i32, 0i32)),
        (BodyPart::RightArm, ArmVariant::Classic) => Some((16i32, 0i32)),
        (BodyPart::RightArm, ArmVariant::Slim) => Some((0i32, 16i32)),
        (BodyPart::LeftLeg, _) => Some((-16i32, 0i32)),
        (BodyPart::RightLeg, _) => Some((0i32, 16i32)),
        (BodyPart::Torso, _) => None,
    }
}

/// The overlay's counterpart of a base-layer move: the source shifted by
/// `(dx, dy)`, the destination shifted right by `OVERLAY_DST_SHIFT`.
pub open spec fn spec_overlay(m: MoveOp, dx: int, dy: int) -> MoveOp {
    MoveOp {
        src: Rect {
            x: (m.src.x + dx) as u32,
            y: (m.src.y + dy) as u32,
            width: m.src.width,
            height: m.src.height,
        },
        dst: Rect {
            x: (m.dst.x + OVERLAY_DST_SHIFT) as u32,
            y: m.dst.y,
            width: m.dst.width,
            height: m.dst.height,
        },
    }
}

/// All moves of a part: those of the base layer, then their overlay
/// counterparts in the same order.
pub open spec fn part_moves(part: BodyPart, variant: ArmVariant) -> Seq<MoveOp> {
    let base = base_moves(part, variant);
    match spec_overlay_offset(part, variant) {
        Some((dx, dy)) => base + base.map_values(|m: MoveOp| spec_overlay(m, dx as int, dy as int)),
        None => base,
    }
}

/// What holds of every move of the tables: both rectangles lie within the
/// standard atlas, the source at or below the rows of the single-part
/// layout and the destination within them and clear of the marker pixel,
/// and the block can be resampled to the destination's size.
pub open spec fn in_layout(m: MoveOp) -> bool {
    &&& m.within(ATLAS_SIDE as int, ATLAS_SIDE as int)
    &&& m.src.y >= LAYOUT_ROWS
    &&& m.dst.bottom() <= LAYOUT_ROWS
    &&& !m.dst.covers(0, 0)
    &&& resize_in_reach(
        m.src.width as int,
        m.src.height as int,
        m.dst.width as int,
        m.dst.height as int,
    )
}

/// A base-layer move whose overlay counterpart at source offset
/// `(dx, dy)` is a move of the layout too.
pub open spec fn has_overlay(m: MoveOp, dx: int, dy: int) -> bool {
    &&& 0 <= m.src.x + dx
    &&& 0 <= m.src.y + dy
    &&& in_layout(m)
    &&& in_layout(spec_overlay(m, dx, dy))
}

/// Every base-layer move of the tables is a move of the layout, and so is
/// its overlay counterpart.
pub proof fn lemma_base_moves_in_layout(part: BodyPart, variant: ArmVariant)
    ensures
        forall|i: int|
            0 <= i < base_moves(part, variant).len() ==> in_layout(
                #[trigger] base_moves(part, variant)[i],
            ),
        spec_overlay_offset(part, variant) matches Some((dx, dy)) ==> forall|i: int|
            0 <= i < base_moves(part, variant).len() ==> has_overlay(
                #[trigger] base_moves(part, variant)[i],
                dx as int,
                dy as int,
            ),
{
}

/// Every move of the tables is a move of the layout.
pub proof fn lemma_part_moves_in_layout(part: BodyPart, variant: ArmVariant)
    ensures
        forall|i: int|
            0 <= i < part_moves(part, variant).len() ==> in_layout(
                #[trigger] part_moves(part, variant)[i],
            ),
{
    lemma_base_moves_in_layout(part, variant);
}

/// Classic arms and the legs take two moves a layer, slim arms six, and
/// the torso one move in all.
pub proof fn lemma_move_counts(part: BodyPart, variant: ArmVariant)
    ensures
        part_moves(part, variant).len() == match (part, variant) {
            (BodyPart::LeftArm, ArmVariant::Slim) | (BodyPart::RightArm, ArmVariant::Slim) => 12nat,
            (BodyPart::Torso, _) => 1nat,
            _ => 4nat,
        },
{
}

/// No two moves of a part write to the same pixel.
pub proof fn lemma_destinations_disjoint(part: BodyPart, variant: ArmVariant)
    ensures
        forall|i: int, j: int|
            0 <= i < j < part_moves(part, variant).len() ==> (#[trigger] part_moves(
                part,
                variant,
            )[i]).dst.disjoint((#[trigger] part_moves(part, variant)[j]).dst),
{
}

/// The moves of the base layer of a part.
fn base_table(part: BodyPart, variant: ArmVariant) -> (ops: Vec<MoveOp>)
    ensures
        ops@ == base_moves(part, variant),
{
    let ops = match (part, variant) {
        (BodyPart::LeftArm, ArmVariant::Classic) | (BodyPart::RightArm, ArmVariant::Classic) => vec![
            op(36, 48, 8, 4, 8, 0, 16, 8),
            op(32, 52, 16, 12, 0, 8, 32, 8),
        ],
        (BodyPart::LeftArm, ArmVariant::Slim) => vec![
            op(36, 48, 3, 4, 8, 0, 8, 8),
            op(39, 48, 3, 4, 16, 0, 8, 8),
            op(36, 52, 3, 12, 8, 8, 8, 8),
            op(39, 52, 4, 12, 16, 8, 8, 8),
            op(32, 52, 4, 12, 0, 8, 8, 8),
            op(43, 52, 3, 12, 24, 8, 8, 8),
        ],
        (BodyPart::RightArm, ArmVariant::Slim) => vec![
            op(44, 16, 3, 4, 8, 0, 8, 8),
            op(47, 16, 3, 4, 16, 0, 8, 8),
            op(44, 20, 3, 12, 8, 8, 8, 8),
            op(47, 20, 4, 12, 16, 8, 8, 8),
            op(40, 20, 4, 12, 0, 8, 8, 8),
            op(51, 20, 3, 12, 24, 8, 8, 8),
        ],
        (BodyPart::LeftLeg, _) => vec![
            op(20, 48, 8, 4, 8, 0, 16, 8),
            op(16, 52, 16, 12, 0, 8, 32, 8),
        ],
        (BodyPart::RightLeg, _) => vec![
            op(20, 16, 16, 4, 8, 0, 16, 8),
            op(16, 20, 24, 12, 0, 8, 32, 8),
        ],
        (BodyPart::Torso, _) => vec![op(4, 16, 8, 4, 8, 0, 16, 8)],
    };
    ops
}

/// Where the overlay layer of a part lies, as the offset from its base
/// layer.
#[verifier::when_used_as_spec(spec_overlay_offset)]
pub fn overlay_offset(part: BodyPart, variant: ArmVariant) -> (offset: Option<(i32, i32)>)
    ensures
        offset == spec_overlay_offset(part, variant),
{
    match (part, variant) {
        (BodyPart::LeftArm, _) => Some((16, 0)),
        (BodyPart::RightArm, ArmVariant::Classic) => Some((16, 0)),
        (BodyPart::RightArm, ArmVariant::Slim) => Some((0, 16)),
        (BodyPart::LeftLeg, _) => Some((-16, 0)),
        (BodyPart::RightLeg, _) => Some((0, 16)),
        (BodyPart::Torso, _) => None,
    }
}

/// The overlay's counterpart of a base-layer move.
pub fn overlay(m: MoveOp, dx: i32, dy: i32) -> (o: MoveOp)
    requires
        0 <= m.src.x + dx <= u32::MAX,
        0 <= m.src.y + dy <= u32::MAX,
        m.dst.x + OVERLAY_DST_SHIFT <= u32::MAX,
    ensures
        o == spec_overlay(m, dx as int, dy as int),
{
    let x = (m.src.x as i64 + dx as i64) as u32;
    let y = (m.src.y as i64 + dy as i64) as u32;
    MoveOp::new(
        Rect::new(x, y, m.src.width, m.src.height),
        Rect::new(m.dst.x + OVERLAY_DST_SHIFT, m.dst.y, m.dst.width, m.dst.height),
    )
}

/// The moves that make up a part, in the order in which they are carried
/// out.
pub fn moves(part: BodyPart, variant: ArmVariant) -> (ops: Vec<MoveOp>)
    ensures
        ops@ == part_moves(part, variant),
        forall|i: int| 0 <= i < ops.len() ==> in_layout(#[trigger] ops[i]),
{
    let mut ops = base_table(part, variant);
    proof {
        lemma_base_moves_in_layout(part, variant);
        lemma_part_moves_in_layout(part, variant);
    }
    match overlay_offset(part, variant) {
        None => {},
        Some((dx, dy)) => {
            let ghost base = ops@;
            let count = ops.len();
            let mut i: usize = 0;
            while i < count
                invariant
                    i <= count,
                    count == base.len(),
                    base == base_moves(part, variant),
                    ops.len() == count + i,
                    forall|k: int| 0 <= k < count ==> ops[k] == base[k],
                    forall|k: int| 0 <= k < count ==> has_overlay(#[trigger] base[k], dx as int, dy as int),
                    forall|k: int|
                        count <= k < count + i ==> #[trigger] ops[k] == spec_overlay(
                            base[k - count],
                            dx as int,
                            dy as int,
                        ),
                decreases count - i,
            {
                let m = ops[i];
                assert(has_overlay(base[i as int], dx as int, dy as int));
                ops.push(overlay(m, dx, dy));
                i += 1;
            }
        },
    }
    ops
}

} // verus!
