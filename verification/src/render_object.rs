//! The contract that every drawable object keeps.
//!
//! An object is built once on GPU-side resources that it owns from then on.
//! Between frames the caller may replace or edit its canvas, its placement and
//! its input; the resources stay as they were. For each frame the object says
//! which frustum the projection is to be computed for, takes the projection
//! matrix, and answers with the commands that draw it.

use vstd::prelude::*;
use crate::canvas::{CanvasData, Perspective};
use crate::command::Command;
use crate::input::UserInput;
use crate::matrix::Matrix4;
use crate::transform::Transform;

verus! {

/// Everything an object holds: its resources and its per-frame state.
pub struct RenderState<R> {
    pub resources: R,
    pub canvas: CanvasData,
    pub transform: Transform,
    pub input: UserInput,
}

/// A drawable object.
///
/// What an object draws is a function of its state and of the projection
/// matrix alone: [`RenderObjectTrait::frame`] takes nothing else. Drawing
/// leaves the object as it was.
pub trait RenderObjectTrait: Sized {
    /// The GPU-side resources that the object is built on.
    type Resources;

    /// What the object holds.
    spec fn state(&self) -> RenderState<Self::Resources>;

    /// The frustum that the projection matrix of a frame is computed for.
    spec fn frustum(state: RenderState<Self::Resources>) -> Perspective;

    /// The commands of one frame, in the order in which they are performed.
    spec fn frame(state: RenderState<Self::Resources>, projection: Matrix4) -> Seq<Command>;

    /// Builds the object on its resources, with no input sampled yet.
    fn new(resources: Self::Resources, canvas: CanvasData, transform: Transform) -> (object: Self)
        ensures
            object.state() == (RenderState {
                resources,
                canvas,
                transform,
                input: UserInput::empty(),
            }),
    ;

    /// The frustum to compute this frame's projection matrix for.
    fn projection_parameters(&self) -> (parameters: Perspective)
        ensures
            parameters == Self::frustum(self.state()),
    ;

    /// The commands that draw the object once, given the projection matrix
    /// computed for [`RenderObjectTrait::projection_parameters`].
    fn draw_scene(&self, projection: Matrix4) -> (commands: Vec<Command>)
        ensures
            commands@ == Self::frame(self.state(), projection),
    ;

    /// The canvas, for editing in place.
    fn canvas(&mut self) -> (canvas: &mut CanvasData)
        ensures
            *canvas == old(self).state().canvas,
            final(self).state() == (RenderState { canvas: *final(canvas), ..old(self).state() }),
    ;

    /// The input snapshot, for editing in place.
    fn input(&mut self) -> (input: &mut UserInput)
        ensures
            *input == old(self).state().input,
            final(self).state() == (RenderState { input: *final(input), ..old(self).state() }),
    ;

    /// The placement, for editing in place.
    fn transform(&mut self) -> (transform: &mut Transform)
        ensures
            *transform == old(self).state().transform,
            final(self).state() == (RenderState {
                transform: *final(transform),
                ..old(self).state()
            }),
    ;

    /// Replaces the canvas and nothing else.
    fn set_canvas(&mut self, canvas: CanvasData)
        ensures
            final(self).state() == (RenderState { canvas, ..old(self).state() }),
    ;

    /// Replaces the placement and nothing else.
    fn set_transform(&mut self, transform: Transform)
        ensures
            final(self).state() == (RenderState { transform, ..old(self).state() }),
    ;

    /// Replaces the input snapshot and nothing else.
    fn set_input(&mut self, input: UserInput)
        ensures
            final(self).state() == (RenderState { input, ..old(self).state() }),
    ;
}

} // verus!
