//! The draws of the gizmo pass: one arrow per axis, each writing its own id to the id buffer,
//! the arrow under the pointer highlighted.
use crate::renderer::shader_interfaces::id_buffer::{EncodedId, ID_GIZMO_X, ID_GIZMO_Y, ID_GIZMO_Z};
use vstd::prelude::*;

verus! {

#[derive(Debug, Clone, Copy, PartialEq, Eq, Structural)]
pub enum CartesianAxis {
    X,
    Y,
    Z,
}

/// A manipulation element of the gizmo.
#[derive(Debug, Clone, Copy, PartialEq, Eq, Structural)]
pub enum GizmoElement {
    /// The arrow that moves the selection along an axis.
    Linear(CartesianAxis),
}

/// Which gizmos are shown.
#[derive(Debug, Clone, Copy, PartialEq, Eq, Structural)]
pub struct GizmoVisibility {
    pub linear: bool,
}

/// One draw of the arrow mesh.
#[derive(Debug, Clone, Copy, PartialEq, Eq, Structural)]
pub struct ArrowDraw {
    /// The axis the arrow points along; it gives the arrow's color.
    pub axis: CartesianAxis,
    /// The id that the arrow writes to the id buffer.
    pub object_id: EncodedId,
    /// Drawn in the highlight color in place of its axis color.
    pub highlighted: bool,
    /// The instance (of the instance buffer) that orients the arrow.
    pub first_instance: u32,
}

/// The id that the arrow of `axis` writes to the id buffer.
pub open spec fn axis_gizmo_id(axis: CartesianAxis) -> EncodedId {
    match axis {
        CartesianAxis::X => ID_GIZMO_X,
        CartesianAxis::Y => ID_GIZMO_Y,
        CartesianAxis::Z => ID_GIZMO_Z,
    }
}

/// The instance that orients the arrow of `axis`.
pub open spec fn axis_instance(axis: CartesianAxis) -> u32 {
    match axis {
        CartesianAxis::X => 0,
        CartesianAxis::Y => 1,
        CartesianAxis::Z => 2,
    }
}

/// The draw of the arrow of `axis` when `hovered_gizmo` is under the pointer.
pub open spec fn arrow_draw(axis: CartesianAxis, hovered_gizmo: Option<GizmoElement>) -> ArrowDraw {
    ArrowDraw {
        axis,
        object_id: axis_gizmo_id(axis),
        highlighted: hovered_gizmo == Some(GizmoElement::Linear(axis)),
        first_instance: axis_instance(axis),
    }
}

/// The draws of the linear gizmo: the x, y and z arrows, in that order.
pub open spec fn linear_arrow_draws_of(hovered_gizmo: Option<GizmoElement>) -> Seq<ArrowDraw> {
    seq![
        arrow_draw(CartesianAxis::X, hovered_gizmo),
        arrow_draw(CartesianAxis::Y, hovered_gizmo),
        arrow_draw(CartesianAxis::Z, hovered_gizmo),
    ]
}

fn draw_for_axis(axis: CartesianAxis, hovered_gizmo: Option<GizmoElement>) -> (res: ArrowDraw)
    ensures
        res == arrow_draw(axis, hovered_gizmo),
{
    let (object_id, first_instance): (EncodedId, u32) = match axis {
        CartesianAxis::X => (ID_GIZMO_X, 0),
        CartesianAxis::Y => (ID_GIZMO_Y, 1),
        CartesianAxis::Z => (ID_GIZMO_Z, 2),
    };
    let highlighted = match hovered_gizmo {
        Some(GizmoElement::Linear(direction)) => direction == axis,
        None => false,
    };
    ArrowDraw { axis, object_id, highlighted, first_instance }
}

/// The draws that record the linear gizmo: the x, y and z arrows with their ids and
/// instances; the hovered arrow, if any, is highlighted.
pub fn linear_arrow_draws(hovered_gizmo: Option<GizmoElement>) -> (res: Vec<ArrowDraw>)
    ensures
        res@ == linear_arrow_draws_of(hovered_gizmo),
{
    let mut draws: Vec<ArrowDraw> = Vec::new();
    draws.push(draw_for_axis(CartesianAxis::X, hovered_gizmo));
    draws.push(draw_for_axis(CartesianAxis::Y, hovered_gizmo));
    draws.push(draw_for_axis(CartesianAxis::Z, hovered_gizmo));
    draws
}

/// The draws of the gizmo pass: those of the linear gizmo when it is visible, none otherwise.
pub fn gizmo_draws(gizmo_visibility: GizmoVisibility, hovered_gizmo: Option<GizmoElement>) -> (res: Vec<ArrowDraw>)
    ensures
        gizmo_visibility.linear ==> res@ == linear_arrow_draws_of(hovered_gizmo),
        !gizmo_visibility.linear ==> res@.len() == 0,
{
    if gizmo_visibility.linear {
        linear_arrow_draws(hovered_gizmo)
    } else {
        Vec::new()
    }
}

/// The linear gizmo draws the x, y and z arrows in that order, writing `ID_GIZMO_X`,
/// `ID_GIZMO_Y` and `ID_GIZMO_Z` and oriented by instances 0, 1 and 2; an arrow is
/// highlighted exactly when the pointer is over the linear gizmo of its axis.
pub proof fn lemma_linear_arrows(hovered_gizmo: Option<GizmoElement>)
    ensures
        linear_arrow_draws_of(hovered_gizmo).len() == 3,
        linear_arrow_draws_of(hovered_gizmo)[0].axis == CartesianAxis::X,
        linear_arrow_draws_of(hovered_gizmo)[0].object_id == ID_GIZMO_X,
        linear_arrow_draws_of(hovered_gizmo)[0].first_instance == 0,
        linear_arrow_draws_of(hovered_gizmo)[0].highlighted == (hovered_gizmo == Some(GizmoElement::Linear(CartesianAxis::X))),
        linear_arrow_draws_of(hovered_gizmo)[1].axis == CartesianAxis::Y,
        linear_arrow_draws_of(hovered_gizmo)[1].object_id == ID_GIZMO_Y,
        linear_arrow_draws_of(hovered_gizmo)[1].first_instance == 1,
        linear_arrow_draws_of(hovered_gizmo)[1].highlighted == (hovered_gizmo == Some(GizmoElement::Linear(CartesianAxis::Y))),
        linear_arrow_draws_of(hovered_gizmo)[2].axis == CartesianAxis::Z,
        linear_arrow_draws_of(hovered_gizmo)[2].object_id == ID_GIZMO_Z,
        linear_arrow_draws_of(hovered_gizmo)[2].first_instance == 2,
        linear_arrow_draws_of(hovered_gizmo)[2].highlighted == (hovered_gizmo == Some(GizmoElement::Linear(CartesianAxis::Z))),
{
}

/// Each arrow writes the gizmo id of its axis, no two the same, and instance `i` orients the
/// `i`-th arrow; an arrow is highlighted exactly when it is the hovered gizmo, so at most one
/// is, and the hovered arrow is.
pub proof fn lemma_arrow_draws_distinct(hovered_gizmo: Option<GizmoElement>)
    ensures
        linear_arrow_draws_of(hovered_gizmo).len() == 3,
        forall|i: int, j: int|
            0 <= i < 3 && 0 <= j < 3 && i != j ==> #[trigger] linear_arrow_draws_of(hovered_gizmo)[i].object_id
                != #[trigger] linear_arrow_draws_of(hovered_gizmo)[j].object_id && !(
            linear_arrow_draws_of(hovered_gizmo)[i].highlighted && linear_arrow_draws_of(hovered_gizmo)[j].highlighted),
        forall|i: int|
            0 <= i < 3 ==> #[trigger] linear_arrow_draws_of(hovered_gizmo)[i].first_instance == i
                && linear_arrow_draws_of(hovered_gizmo)[i].object_id == axis_gizmo_id(
                linear_arrow_draws_of(hovered_gizmo)[i].axis,
            )
                && (linear_arrow_draws_of(hovered_gizmo)[i].highlighted <==> hovered_gizmo == Some(
                GizmoElement::Linear(linear_arrow_draws_of(hovered_gizmo)[i].axis),
            )),
        forall|axis: CartesianAxis|
            hovered_gizmo == Some(GizmoElement::Linear(axis)) ==> exists|i: int|
                0 <= i < 3 && #[trigger] linear_arrow_draws_of(hovered_gizmo)[i].axis == axis
                    && linear_arrow_draws_of(hovered_gizmo)[i].highlighted,
{
    let s = linear_arrow_draws_of(hovered_gizmo);
    assert(s[0].axis == CartesianAxis::X && s[1].axis == CartesianAxis::Y && s[2].axis == CartesianAxis::Z);
    assert forall|axis: CartesianAxis| hovered_gizmo == Some(GizmoElement::Linear(axis)) implies exists|i: int|
        0 <= i < 3 && #[trigger] s[i].axis == axis && s[i].highlighted by {
        match axis {
            CartesianAxis::X => assert(s[0].axis == axis),
            CartesianAxis::Y => assert(s[1].axis == axis),
            CartesianAxis::Z => assert(s[2].axis == axis),
        }
    }
}

} // verus!
