//! A flat box: one quad, drawn as a strip of two triangles.
//!
//! A box is built in three steps. The caller looks up the vertex position and
//! the two uniforms in the linked program, by the names in [`crate::shader`],
//! and gives what it found to [`UniformLocations::resolve`]; a program that
//! lacks a uniform is turned away there, before anything is allocated. The
//! caller then performs [`Box2D::init_buffers`] and keeps the buffer that was
//! created. With buffer, program and locations in one [`GpuResourceHandle`],
//! [`RenderObjectTrait::new`] builds the box.
//!
//! For a frame the caller computes the projection matrix for
//! [`RenderObjectTrait::projection_parameters`] and performs what
//! [`RenderObjectTrait::draw_scene`] answers.

use vstd::prelude::*;
use vstd::arithmetic::power2::{lemma2_to64, lemma_pow2_adds, pow2};
use web_sys::WebGlBuffer;
use web_sys::WebGlProgram;
use web_sys::WebGlUniformLocation;
use crate::canvas::{CanvasData, Perspective};
use crate::command::{
    Command, ARRAY_BUFFER, COLOR_BUFFER_BIT, DEPTH_BUFFER_BIT, DEPTH_TEST, FLOAT, LEQUAL,
    STATIC_DRAW, TRIANGLE_STRIP,
};
use crate::input::UserInput;
use crate::matrix::{Matrix4, Vector4};
use crate::render_object::{RenderObjectTrait, RenderState};
use crate::scalar::{constants_are_whole_numbers, Scalar, MINUS_ONE_BITS, ONE_BITS};
use crate::shader::Uniform;
use crate::transform::Transform;

verus! {

/// Encoding of the near plane's distance, `0.1`: the number of the format
/// that is nearest to a tenth.
pub const Z_NEAR_BITS: u32 = 0x3DCC_CCCD;

/// Encoding of the far plane's distance, `100.0`.
pub const Z_FAR_BITS: u32 = 0x42C8_0000;

/// Numbers per vertex: an x and a y.
pub const NUMBER_COMPONENTS: i32 = 2;

/// Vertices of the quad.
pub const VERTEX_COUNT: i32 = 4;

/// Where the program keeps its vertex attributes.
pub struct AttributeLocations {
    /// Location of the vertex position, or `-1` where the program has none.
    pub vertex_position: i32,
}

impl AttributeLocations {
    /// The location as the unsigned index that the context takes: the
    /// location itself, or, for a negative one, the location plus 2^32.
    pub open spec fn spec_vertex_position_index(&self) -> u32 {
        if self.vertex_position >= 0 {
            self.vertex_position as u32
        } else {
            (self.vertex_position + 0x1_0000_0000) as u32
        }
    }

    /// The index under which the vertex position is addressed.
    pub fn vertex_position_index(&self) -> (index: u32)
        ensures
            index == self.spec_vertex_position_index(),
    {
        let location = self.vertex_position;
        assert(location as u32 == if location >= 0 {
            location as u32
        } else {
            (location + 0x1_0000_0000) as u32
        }) by (bit_vector);
        location as u32
    }
}

/// A required uniform is not declared by the program.
#[derive(Clone, Copy, Debug, PartialEq, Eq, Structural)]
pub enum ResolutionError {
    MissingUniform(Uniform),
}

/// Where the program keeps its uniforms. Both are resolved.
pub struct UniformLocations {
    projection_matrix: WebGlUniformLocation,
    model_view_matrix: WebGlUniformLocation,
}

impl UniformLocations {
    /// The location held for a uniform.
    pub closed spec fn spec_location(&self, uniform: Uniform) -> WebGlUniformLocation {
        match uniform {
            Uniform::ProjectionMatrix => self.projection_matrix,
            Uniform::ModelViewMatrix => self.model_view_matrix,
        }
    }

    /// Takes what the lookups of the two uniforms gave, the projection matrix
    /// first. Succeeds exactly when both were found, and then holds the two
    /// locations; otherwise names the first uniform that was not found.
    pub fn resolve(
        projection_matrix: Option<WebGlUniformLocation>,
        model_view_matrix: Option<WebGlUniformLocation>,
    ) -> (resolved: Result<UniformLocations, ResolutionError>)
        ensures
            resolved is Ok <==> projection_matrix is Some && model_view_matrix is Some,
            resolved matches Ok(locations) ==> {
                &&& projection_matrix == Some(locations.spec_location(Uniform::ProjectionMatrix))
                &&& model_view_matrix == Some(locations.spec_location(Uniform::ModelViewMatrix))
            },
            resolved matches Err(error) ==> error == ResolutionError::MissingUniform(
                if projection_matrix is None {
                    Uniform::ProjectionMatrix
                } else {
                    Uniform::ModelViewMatrix
                },
            ),
    {
        match projection_matrix {
            None => Err(ResolutionError::MissingUniform(Uniform::ProjectionMatrix)),
            Some(projection_matrix) => match model_view_matrix {
                None => Err(ResolutionError::MissingUniform(Uniform::ModelViewMatrix)),
                Some(model_view_matrix) => Ok(
                    UniformLocations { projection_matrix, model_view_matrix },
                ),
            },
        }
    }

    /// The location of a uniform.
    pub fn location(&self, uniform: Uniform) -> (location: &WebGlUniformLocation)
        ensures
            *location == self.spec_location(uniform),
    {
        match uniform {
            Uniform::ProjectionMatrix => &self.projection_matrix,
            Uniform::ModelViewMatrix => &self.model_view_matrix,
        }
    }
}

/// The GPU-side resources of one box: its vertex buffer, its program, and the
/// locations looked up in that program.
pub struct GpuResourceHandle {
    pub buffer: WebGlBuffer,
    pub program: WebGlProgram,
    pub attribute_locations: AttributeLocations,
    pub uniform_locations: UniformLocations,
}

/// A flat box.
///
/// The resources are set when the box is built and never change after that.
pub struct Box2D {
    resources: GpuResourceHandle,
    pub canvas: CanvasData,
    pub transform: Transform,
    pub input: UserInput,
}

impl Box2D {
    /// The corners of the quad as x, y pairs: top left, top right, bottom
    /// left, bottom right. Each three in a row span one triangle.
    pub open spec fn spec_vertex_positions() -> Seq<u32> {
        seq![
            MINUS_ONE_BITS, ONE_BITS,
            ONE_BITS, ONE_BITS,
            MINUS_ONE_BITS, MINUS_ONE_BITS,
            ONE_BITS, MINUS_ONE_BITS,
        ]
    }

    /// Create the buffer, bind it as the vertex buffer, fill it once.
    pub open spec fn spec_init_buffers() -> Seq<Command> {
        seq![
            Command::CreateBuffer,
            Command::BindBuffer { target: ARRAY_BUFFER },
            Command::BufferData { target: ARRAY_BUFFER, usage: STATIC_DRAW },
        ]
    }

    /// The identity, moved by the placement's translation.
    pub open spec fn spec_model_view_matrix(transform: Transform) -> Matrix4 {
        Matrix4::spec_translation(transform.trans_x, transform.trans_y, transform.trans_z)
    }

    /// The encodings of the vertex data that fills the buffer.
    pub fn vertex_positions() -> (positions: [u32; 8])
        ensures
            positions@ == Box2D::spec_vertex_positions(),
    {
        [
            MINUS_ONE_BITS, ONE_BITS,
            ONE_BITS, ONE_BITS,
            MINUS_ONE_BITS, MINUS_ONE_BITS,
            ONE_BITS, MINUS_ONE_BITS,
        ]
    }

    /// The commands that set up the vertex buffer. They are performed once,
    /// before the box is built, and the buffer they create goes into its
    /// resources.
    pub fn init_buffers() -> (commands: Vec<Command>)
        ensures
            commands@ == Box2D::spec_init_buffers(),
    {
        let mut commands: Vec<Command> = Vec::new();
        commands.push(Command::CreateBuffer);
        commands.push(Command::BindBuffer { target: ARRAY_BUFFER });
        commands.push(Command::BufferData { target: ARRAY_BUFFER, usage: STATIC_DRAW });
        commands
    }

    /// The resources that the box was built on.
    pub fn resources(&self) -> (resources: &GpuResourceHandle)
        ensures
            *resources == self.state().resources,
    {
        &self.resources
    }

    /// The matrix that places the box: the identity with its last column set
    /// to the translation and a one. The other three columns stay identity.
    pub fn model_view_matrix(&self) -> (matrix: Matrix4)
        ensures
            matrix == Box2D::spec_model_view_matrix(self.state().transform),
            matrix == (Matrix4 {
                w_axis: Vector4 {
                    x: self.state().transform.trans_x,
                    y: self.state().transform.trans_y,
                    z: self.state().transform.trans_z,
                    w: Scalar::spec_one(),
                },
                ..Matrix4::spec_identity()
            }),
    {
        Matrix4::translation(
            self.transform.get_trans_x(),
            self.transform.get_trans_y(),
            self.transform.get_trans_z(),
        )
    }
}

impl RenderObjectTrait for Box2D {
    type Resources = GpuResourceHandle;

    closed spec fn state(&self) -> RenderState<GpuResourceHandle> {
        RenderState {
            resources: self.resources,
            canvas: self.canvas,
            transform: self.transform,
            input: self.input,
        }
    }

    /// The canvas's aspect ratio and field of view, between the fixed near
    /// and far planes.
    open spec fn frustum(state: RenderState<GpuResourceHandle>) -> Perspective {
        Perspective {
            aspect: state.canvas.aspect,
            fovy: state.canvas.fov,
            near: Scalar { bits: Z_NEAR_BITS },
            far: Scalar { bits: Z_FAR_BITS },
        }
    }

    /// Clear to opaque black and full depth with depth testing on, point the
    /// vertex position at the buffer, switch to the program, upload the two
    /// matrices untransposed, draw the strip.
    open spec fn frame(
        state: RenderState<GpuResourceHandle>,
        projection: Matrix4,
    ) -> Seq<Command> {
        let index = state.resources.attribute_locations.spec_vertex_position_index();
        seq![
            Command::ClearColor {
                red: Scalar::spec_zero(),
                green: Scalar::spec_zero(),
                blue: Scalar::spec_zero(),
                alpha: Scalar::spec_one(),
            },
            Command::ClearDepth { depth: Scalar::spec_one() },
            Command::Enable { cap: DEPTH_TEST },
            Command::DepthFunc { func: LEQUAL },
            Command::Clear { mask: COLOR_BUFFER_BIT | DEPTH_BUFFER_BIT },
            Command::BindBuffer { target: ARRAY_BUFFER },
            Command::VertexAttribPointer {
                index,
                size: NUMBER_COMPONENTS,
                kind: FLOAT,
                normalized: false,
                stride: 0,
                offset: 0,
            },
            Command::EnableVertexAttribArray { index },
            Command::UseProgram,
            Command::UniformMatrix4 {
                uniform: Uniform::ProjectionMatrix,
                transpose: false,
                matrix: projection,
            },
            Command::UniformMatrix4 {
                uniform: Uniform::ModelViewMatrix,
                transpose: false,
                matrix: Box2D::spec_model_view_matrix(state.transform),
            },
            Command::DrawArrays { mode: TRIANGLE_STRIP, first: 0, count: VERTEX_COUNT },
        ]
    }

    /// Builds the box on resources that were set up for it. The box starts
    /// with no input sampled.
    fn new(
        resources: GpuResourceHandle,
        canvas: CanvasData,
        transform: Transform,
    ) -> (object: Box2D)
        ensures
            object.state() == (RenderState {
                resources,
                canvas,
                transform,
                input: UserInput::empty(),
            }),
    {
        let input = UserInput::new();
        Box2D { resources, canvas, transform, input }
    }

    /// The canvas's aspect ratio and field of view, with the near plane at
    /// a tenth and the far plane at a hundred.
    fn projection_parameters(&self) -> (parameters: Perspective)
        ensures
            parameters == Box2D::frustum(self.state()),
    {
        Perspective {
            aspect: self.canvas.get_aspect(),
            fovy: self.canvas.get_fov(),
            near: Scalar::from_bits(Z_NEAR_BITS),
            far: Scalar::from_bits(Z_FAR_BITS),
        }
    }

    /// The twelve commands of a frame. Everything the frame needs is bound
    /// anew; nothing is created or filled.
    fn draw_scene(&self, projection: Matrix4) -> (commands: Vec<Command>)
        ensures
            commands@ == Box2D::frame(self.state(), projection),
    {
        let mut commands: Vec<Command> = Vec::new();
        commands.push(Command::ClearColor {
            red: Scalar::zero(),
            green: Scalar::zero(),
            blue: Scalar::zero(),
            alpha: Scalar::one(),
        });
        commands.push(Command::ClearDepth { depth: Scalar::one() });
        commands.push(Command::Enable { cap: DEPTH_TEST });
        commands.push(Command::DepthFunc { func: LEQUAL });
        commands.push(Command::Clear { mask: COLOR_BUFFER_BIT | DEPTH_BUFFER_BIT });

        let model_view_matrix = self.model_view_matrix();

        let index = self.resources.attribute_locations.vertex_position_index();
        let normalize = false;
        let stride: i32 = 0;
        let offset: i32 = 0;
        commands.push(Command::BindBuffer { target: ARRAY_BUFFER });
        commands.push(Command::VertexAttribPointer {
            index,
            size: NUMBER_COMPONENTS,
            kind: FLOAT,
            normalized: normalize,
            stride,
            offset,
        });
        commands.push(Command::EnableVertexAttribArray { index });

        commands.push(Command::UseProgram);
        let transpose = false;
        commands.push(Command::UniformMatrix4 {
            uniform: Uniform::ProjectionMatrix,
            transpose,
            matrix: projection,
        });
        commands.push(Command::UniformMatrix4 {
            uniform: Uniform::ModelViewMatrix,
            transpose,
            matrix: model_view_matrix,
        });

        let first: i32 = 0;
        commands.push(Command::DrawArrays { mode: TRIANGLE_STRIP, first, count: VERTEX_COUNT });
        commands
    }

    fn canvas(&mut self) -> (canvas: &mut CanvasData)
        ensures
            *canvas == old(self).state().canvas,
            final(self).state() == (RenderState { canvas: *final(canvas), ..old(self).state() }),
    {
        &mut self.canvas
    }

    fn input(&mut self) -> (input: &mut UserInput)
        ensures
            *input == old(self).state().input,
            final(self).state() == (RenderState { input: *final(input), ..old(self).state() }),
    {
        &mut self.input
    }

    fn transform(&mut self) -> (transform: &mut Transform)
        ensures
            *transform == old(self).state().transform,
            final(self).state() == (RenderState {
                transform: *final(transform),
                ..old(self).state()
            }),
    {
        &mut self.transform
    }

    fn set_canvas(&mut self, canvas: CanvasData)
        ensures
            final(self).state() == (RenderState { canvas, ..old(self).state() }),
    {
        self.canvas = canvas;
    }

    fn set_transform(&mut self, transform: Transform)
        ensures
            final(self).state() == (RenderState { transform, ..old(self).state() }),
    {
        self.transform = transform;
    }

    fn set_input(&mut self, input: UserInput)
        ensures
            final(self).state() == (RenderState { input, ..old(self).state() }),
    {
        self.input = input;
    }
}

/// Every coordinate of the quad's corners is one or minus one.
pub proof fn quad_spans_minus_one_to_one()
    ensures
        Box2D::spec_vertex_positions().len() == NUMBER_COMPONENTS * VERTEX_COUNT,
        forall|i: int|
            0 <= i < Box2D::spec_vertex_positions().len() ==> {
                let coordinate = Scalar { bits: #[trigger] Box2D::spec_vertex_positions()[i] };
                coordinate.is_integer(1) || coordinate.is_integer(-1)
            },
{
    constants_are_whole_numbers();
}

/// The near plane is the number nearest to a tenth, and the far plane is a
/// hundred.
pub proof fn planes_are_a_tenth_and_a_hundred()
    ensures
        (Scalar { bits: Z_NEAR_BITS }).is_within_half_spacing_of(1, 10),
        (Scalar { bits: Z_NEAR_BITS }).fraction() != 0,
        (Scalar { bits: Z_FAR_BITS }).is_integer(100),
{
    let near = Scalar { bits: Z_NEAR_BITS };
    let far = Scalar { bits: Z_FAR_BITS };
    assert(near.sign() == 0 && near.exponent() == 123 && near.fraction() == 0x4C_CCCD);
    assert(far.sign() == 0 && far.exponent() == 133 && far.fraction() == 0x48_0000);
    lemma_pow2_adds(27, 122);
    lemma_pow2_adds(17, 132);
    lemma2_to64();
    let fine = pow2(122) as int;
    assert(10 * (13421773 * fine) - 0x800_0000 * fine == 2 * fine) by (nonlinear_arith);
    let coarse = pow2(132) as int;
    assert(13107200 * coarse == 100 * (0x2_0000 * coarse)) by (nonlinear_arith);
}

/// A frame's matrix uploads depend on the canvas, the placement and the
/// projection matrix, and on nothing else: two states that agree in canvas
/// and placement ask for the same frustum and, given the same projection
/// matrix, upload the same matrices at the same positions of the frame.
pub proof fn uploads_repeat_while_canvas_and_placement_stay(
    first: RenderState<GpuResourceHandle>,
    second: RenderState<GpuResourceHandle>,
    projection: Matrix4,
)
    requires
        first.canvas == second.canvas,
        first.transform == second.transform,
    ensures
        Box2D::frustum(first) == Box2D::frustum(second),
        Box2D::frame(first, projection).len() == Box2D::frame(second, projection).len(),
        forall|i: int|
            0 <= i < Box2D::frame(first, projection).len()
                && #[trigger] Box2D::frame(first, projection)[i] is UniformMatrix4
                ==> Box2D::frame(second, projection)[i] == Box2D::frame(first, projection)[i],
        forall|i: int|
            0 <= i < Box2D::frame(second, projection).len()
                && #[trigger] Box2D::frame(second, projection)[i] is UniformMatrix4
                ==> Box2D::frame(first, projection)[i] is UniformMatrix4,
{
}

/// Replacing the placement leaves the frustum alone, and so the projection
/// matrix. In the frame it changes one command at most, the upload of the
/// model-view matrix, and in that matrix only the translation: the last
/// column's first three entries.
pub proof fn new_placement_moves_translation_only(
    before: RenderState<GpuResourceHandle>,
    transform: Transform,
    projection: Matrix4,
)
    ensures
        ({
            let after = RenderState { transform, ..before };
            let old_frame = Box2D::frame(before, projection);
            let new_frame = Box2D::frame(after, projection);
            let old_matrix = Box2D::spec_model_view_matrix(before.transform);
            let new_matrix = Box2D::spec_model_view_matrix(transform);
            &&& Box2D::frustum(after) == Box2D::frustum(before)
            &&& new_frame.len() == old_frame.len()
            &&& forall|i: int|
                0 <= i < old_frame.len() && #[trigger] new_frame[i] != old_frame[i] ==> {
                    &&& old_frame[i] == Command::UniformMatrix4 {
                        uniform: Uniform::ModelViewMatrix,
                        transpose: false,
                        matrix: old_matrix,
                    }
                    &&& new_frame[i] == Command::UniformMatrix4 {
                        uniform: Uniform::ModelViewMatrix,
                        transpose: false,
                        matrix: new_matrix,
                    }
                }
            &&& new_matrix == Matrix4 {
                w_axis: Vector4 {
                    x: transform.trans_x,
                    y: transform.trans_y,
                    z: transform.trans_z,
                    ..old_matrix.w_axis
                },
                ..old_matrix
            }
        }),
{
}

/// Replacing the canvas changes the frustum in aspect ratio and field of
/// view only, and leaves the model-view matrix alone. In the frame it changes
/// one command at most, the upload of the projection matrix, whatever the two
/// projection matrices are.
pub proof fn new_canvas_changes_projection_only(
    before: RenderState<GpuResourceHandle>,
    canvas: CanvasData,
    old_projection: Matrix4,
    new_projection: Matrix4,
)
    ensures
        ({
            let after = RenderState { canvas, ..before };
            let old_frame = Box2D::frame(before, old_projection);
            let new_frame = Box2D::frame(after, new_projection);
            &&& Box2D::frustum(after) == Perspective {
                aspect: canvas.aspect,
                fovy: canvas.fov,
                ..Box2D::frustum(before)
            }
            &&& Box2D::spec_model_view_matrix(after.transform) == Box2D::spec_model_view_matrix(
                before.transform,
            )
            &&& new_frame.len() == old_frame.len()
            &&& forall|i: int|
                0 <= i < old_frame.len() && #[trigger] new_frame[i] != old_frame[i] ==> {
                    &&& old_frame[i] == Command::UniformMatrix4 {
                        uniform: Uniform::ProjectionMatrix,
                        transpose: false,
                        matrix: old_projection,
                    }
                    &&& new_frame[i] == Command::UniformMatrix4 {
                        uniform: Uniform::ProjectionMatrix,
                        transpose: false,
                        matrix: new_projection,
                    }
                }
        }),
{
}

} // verus!
