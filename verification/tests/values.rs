use render_object::canvas::{CanvasData, Perspective, BELOW_HALF_TURN_BITS};
use render_object::command::{
    ARRAY_BUFFER, COLOR_BUFFER_BIT, DEPTH_BUFFER_BIT, DEPTH_TEST, FLOAT, LEQUAL, STATIC_DRAW,
    TRIANGLE_STRIP,
};
use render_object::input::UserInput;
use render_object::scalar::{Scalar, MAX_FINITE_BITS, MINUS_ONE_BITS, ONE_BITS, ZERO_BITS};
use render_object::shader::{
    Attribute, Uniform, MODEL_VIEW_MATRIX, PROJECTION_MATRIX, VERTEX_POSITION,
};
use render_object::transform::Transform;
use web_sys::WebGlRenderingContext;

fn scalar(value: f32) -> Scalar {
    Scalar::from_bits(value.to_bits())
}

fn number(scalar: Scalar) -> f32 {
    f32::from_bits(scalar.to_bits())
}

#[test]
fn scalar_constants_encode_zero_one_and_minus_one() {
    assert_eq!(ZERO_BITS, 0.0f32.to_bits());
    assert_eq!(ONE_BITS, 1.0f32.to_bits());
    assert_eq!(MINUS_ONE_BITS, (-1.0f32).to_bits());
    assert_eq!(number(Scalar::zero()), 0.0);
    assert_eq!(number(Scalar::one()), 1.0);
    assert_eq!(f32::from_bits(MINUS_ONE_BITS), -1.0);
    assert!(number(Scalar::zero()).is_sign_positive());
}

#[test]
fn scalar_keeps_its_encoding() {
    let values: [f32; 6] = [0.0, -0.0, 5.0, -2.0, f32::INFINITY, 1.0e-40];
    for value in values {
        let held = scalar(value);
        assert_eq!(held.to_bits(), value.to_bits());
        assert_eq!(held.bits, value.to_bits());
        assert_eq!(number(held).to_bits(), value.to_bits());
    }
    let nan = scalar(f32::NAN);
    assert!(number(nan).is_nan());
    assert_eq!(nan, nan);
}

#[test]
fn scalars_are_equal_when_their_encodings_are() {
    assert_eq!(scalar(5.0), scalar(5.0));
    assert_ne!(scalar(5.0), scalar(-5.0));
    assert_ne!(scalar(0.0), scalar(-0.0));
}

#[test]
fn context_constants_are_those_of_the_context() {
    assert_eq!(DEPTH_BUFFER_BIT, WebGlRenderingContext::DEPTH_BUFFER_BIT);
    assert_eq!(COLOR_BUFFER_BIT, WebGlRenderingContext::COLOR_BUFFER_BIT);
    assert_eq!(TRIANGLE_STRIP, WebGlRenderingContext::TRIANGLE_STRIP);
    assert_eq!(LEQUAL, WebGlRenderingContext::LEQUAL);
    assert_eq!(DEPTH_TEST, WebGlRenderingContext::DEPTH_TEST);
    assert_eq!(FLOAT, WebGlRenderingContext::FLOAT);
    assert_eq!(ARRAY_BUFFER, WebGlRenderingContext::ARRAY_BUFFER);
    assert_eq!(STATIC_DRAW, WebGlRenderingContext::STATIC_DRAW);
}

#[test]
fn context_constants_have_their_documented_values() {
    assert_eq!(DEPTH_BUFFER_BIT, 256);
    assert_eq!(COLOR_BUFFER_BIT, 16384);
    assert_eq!(TRIANGLE_STRIP, 5);
    assert_eq!(LEQUAL, 515);
    assert_eq!(DEPTH_TEST, 2929);
    assert_eq!(FLOAT, 5126);
    assert_eq!(ARRAY_BUFFER, 34962);
    assert_eq!(STATIC_DRAW, 35044);
}

#[test]
fn shader_names_are_exact() {
    assert_eq!(VERTEX_POSITION, "aVertexPosition");
    assert_eq!(PROJECTION_MATRIX, "uProjectionMatrix");
    assert_eq!(MODEL_VIEW_MATRIX, "uModelViewMatrix");
    assert_eq!(Attribute::VertexPosition.name(), "aVertexPosition");
    assert_eq!(Uniform::ProjectionMatrix.name(), "uProjectionMatrix");
    assert_eq!(Uniform::ModelViewMatrix.name(), "uModelViewMatrix");
}

#[test]
fn shader_names_are_case_sensitive() {
    assert_ne!(Uniform::ProjectionMatrix.name(), "uprojectionmatrix");
    assert_ne!(Uniform::ModelViewMatrix.name(), "UModelViewMatrix");
    assert_ne!(Uniform::ProjectionMatrix.name(), Uniform::ModelViewMatrix.name());
}

#[test]
fn transform_holds_its_translation() {
    let transform = Transform::new(scalar(5.0), scalar(-2.0), scalar(0.0));
    assert_eq!(number(transform.get_trans_x()), 5.0);
    assert_eq!(number(transform.get_trans_y()), -2.0);
    assert_eq!(number(transform.get_trans_z()), 0.0);
    assert_eq!(transform.trans_x, scalar(5.0));
    assert_eq!(transform.trans_y, scalar(-2.0));
    assert_eq!(transform.trans_z, scalar(0.0));
}

#[test]
fn transform_defaults_to_the_origin() {
    let transform = Transform::default();
    assert_eq!(transform, Transform::new(Scalar::zero(), Scalar::zero(), Scalar::zero()));
    assert_eq!(number(transform.get_trans_x()), 0.0);
    assert_eq!(number(transform.get_trans_y()), 0.0);
    assert_eq!(number(transform.get_trans_z()), 0.0);
}

#[test]
fn canvas_holds_aspect_and_field_of_view() {
    let canvas = CanvasData::new(scalar(16.0 / 9.0), scalar(std::f32::consts::FRAC_PI_4));
    assert_eq!(number(canvas.get_aspect()), 16.0 / 9.0);
    assert_eq!(number(canvas.get_fov()), std::f32::consts::FRAC_PI_4);
    assert_eq!(canvas.aspect, scalar(16.0 / 9.0));
    assert_eq!(canvas.fov, scalar(std::f32::consts::FRAC_PI_4));
}

#[test]
fn perspective_is_compared_field_by_field() {
    let one = Perspective {
        aspect: scalar(1.0),
        fovy: scalar(0.5),
        near: scalar(0.1),
        far: scalar(100.0),
    };
    let mut other = one;
    assert_eq!(one, other);
    other.far = scalar(10.0);
    assert_ne!(one, other);
}

#[test]
fn input_starts_empty() {
    let input = UserInput::new();
    assert_eq!(input.pointer, None);
    assert_eq!(input.key, None);
    assert_eq!(input, UserInput::default());
}

#[test]
fn input_takes_samples() {
    let mut input = UserInput::new();
    input.pointer = Some((12, -7));
    input.key = Some(65);
    assert_eq!(input, UserInput { pointer: Some((12, -7)), key: Some(65) });
    assert_ne!(input, UserInput::new());
}

#[test]
fn largest_finite_number_is_encoded_exactly() {
    assert_eq!(MAX_FINITE_BITS, f32::MAX.to_bits());
    assert_eq!(f32::from_bits(MAX_FINITE_BITS + 1), f32::INFINITY);
}

#[test]
fn positive_finite_is_above_zero_and_finite() {
    let values: [f32; 14] = [
        0.0,
        -0.0,
        f32::from_bits(1),
        1.0e-40,
        f32::MIN_POSITIVE,
        0.1,
        1.0,
        16.0 / 9.0,
        f32::MAX,
        f32::INFINITY,
        f32::NEG_INFINITY,
        f32::NAN,
        -1.0,
        -f32::MIN_POSITIVE,
    ];
    for value in values {
        assert_eq!(scalar(value).is_positive_finite(), value > 0.0 && value.is_finite());
    }
    assert!(!Scalar::from_bits(0xFFC0_0000).is_positive_finite());
    assert!(!Scalar::from_bits(0x7FC0_0001).is_positive_finite());
}

#[test]
fn half_turn_bound_is_the_last_number_below_pi() {
    let below: f64 = f32::from_bits(BELOW_HALF_TURN_BITS).into();
    let above: f64 = f32::from_bits(BELOW_HALF_TURN_BITS + 1).into();
    assert!(below < std::f64::consts::PI);
    assert!(above > std::f64::consts::PI);
    assert_eq!(BELOW_HALF_TURN_BITS + 1, std::f32::consts::PI.to_bits());
}

#[test]
fn canvas_is_valid_for_a_positive_aspect_and_a_field_of_view_inside_a_half_turn() {
    let aspects: [f32; 9] = [
        -1.0,
        -0.0,
        0.0,
        1.0e-40,
        0.5,
        1.0,
        1.0e30,
        f32::INFINITY,
        f32::NAN,
    ];
    let fields: [f32; 11] = [
        -1.0,
        0.0,
        -0.0,
        f32::from_bits(1),
        0.785_398_2,
        1.570_796_4,
        3.0,
        f32::from_bits(BELOW_HALF_TURN_BITS),
        std::f32::consts::PI,
        4.0,
        f32::NAN,
    ];
    for aspect in aspects {
        for fov in fields {
            let wide: f64 = fov.into();
            let wanted = aspect > 0.0 && aspect.is_finite() && 0.0 < wide
                && wide < std::f64::consts::PI;
            assert_eq!(CanvasData::new(scalar(aspect), scalar(fov)).is_valid(), wanted);
        }
    }
}

#[test]
fn canvas_validity_at_its_edges() {
    let quarter = scalar(std::f32::consts::FRAC_PI_4);
    assert!(CanvasData::new(scalar(1.0), quarter).is_valid());
    assert!(CanvasData::new(scalar(f32::MAX), quarter).is_valid());
    assert!(!CanvasData::new(scalar(0.0), quarter).is_valid());
    assert!(!CanvasData::new(scalar(f32::INFINITY), quarter).is_valid());
    assert!(CanvasData::new(scalar(1.0), Scalar::from_bits(BELOW_HALF_TURN_BITS)).is_valid());
    assert!(!CanvasData::new(scalar(1.0), scalar(std::f32::consts::PI)).is_valid());
    assert!(!CanvasData::new(scalar(1.0), scalar(0.0)).is_valid());
}
