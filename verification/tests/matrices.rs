use render_object::matrix::{Matrix4, Vector4};
use render_object::scalar::Scalar;

fn scalar(value: f32) -> Scalar {
    Scalar::from_bits(value.to_bits())
}

fn numbers(matrix: &Matrix4) -> Vec<f32> {
    matrix.to_column_major().iter().map(|bits| f32::from_bits(*bits)).collect()
}

fn encodings(numbers: &[f32]) -> [u32; 16] {
    let mut bits: [u32; 16] = [0; 16];
    for (slot, number) in bits.iter_mut().zip(numbers) {
        *slot = number.to_bits();
    }
    bits
}

#[test]
fn identity_has_ones_on_the_diagonal() {
    let identity = Matrix4::identity();
    assert_eq!(
        numbers(&identity),
        vec![1.0, 0.0, 0.0, 0.0, 0.0, 1.0, 0.0, 0.0, 0.0, 0.0, 1.0, 0.0, 0.0, 0.0, 0.0, 1.0]
    );
    assert_eq!(identity.x_axis, Vector4::new(scalar(1.0), scalar(0.0), scalar(0.0), scalar(0.0)));
    assert_eq!(identity.y_axis, Vector4::new(scalar(0.0), scalar(1.0), scalar(0.0), scalar(0.0)));
    assert_eq!(identity.z_axis, Vector4::new(scalar(0.0), scalar(0.0), scalar(1.0), scalar(0.0)));
    assert_eq!(identity.w_axis, Vector4::new(scalar(0.0), scalar(0.0), scalar(0.0), scalar(1.0)));
}

#[test]
fn identity_is_the_identity_of_the_matrix_library() {
    let theirs: nalgebra_glm::Mat4 = nalgebra_glm::identity();
    assert_eq!(Matrix4::identity().to_column_major(), encodings(theirs.as_slice()));
}

#[test]
fn translation_sets_the_last_column() {
    let matrix = Matrix4::translation(scalar(5.0), scalar(-2.0), scalar(0.0));
    assert_eq!(
        numbers(&matrix),
        vec![1.0, 0.0, 0.0, 0.0, 0.0, 1.0, 0.0, 0.0, 0.0, 0.0, 1.0, 0.0, 5.0, -2.0, 0.0, 1.0]
    );
    let identity = Matrix4::identity();
    assert_eq!(matrix.x_axis, identity.x_axis);
    assert_eq!(matrix.y_axis, identity.y_axis);
    assert_eq!(matrix.z_axis, identity.z_axis);
    assert_eq!(matrix.w_axis, Vector4::new(scalar(5.0), scalar(-2.0), scalar(0.0), scalar(1.0)));
}

#[test]
fn translation_by_nothing_is_the_identity() {
    assert_eq!(Matrix4::translation(scalar(0.0), scalar(0.0), scalar(0.0)), Matrix4::identity());
}

#[test]
fn translation_agrees_with_translating_the_identity() {
    let cases: [[f32; 3]; 5] = [
        [5.0, -2.0, 0.0],
        [0.0, 0.0, 0.0],
        [1.5, 2.25, -6.0],
        [-0.001, 1.0e6, 3.0e-7],
        [7.0, 7.0, 7.0],
    ];
    for [x, y, z] in cases {
        let ours = Matrix4::translation(scalar(x), scalar(y), scalar(z));
        let mut start = nalgebra_glm::mat4x4(
            0., 0., 0., 0., 0., 0., 0., 0., 0., 0., 0., 0., 0., 0., 0., 0.,
        );
        start.fill_with_identity();
        let theirs = nalgebra_glm::translate(&start, &nalgebra_glm::vec3(x, y, z));
        assert_eq!(ours.to_column_major(), encodings(theirs.as_slice()));
    }
}

#[test]
fn translation_is_the_translation_matrix_of_the_matrix_library() {
    let cases: [[f32; 3]; 6] = [
        [5.0, -2.0, 0.0],
        [0.0, 0.0, 0.0],
        [-0.0, 0.0, -0.0],
        [f32::INFINITY, f32::NEG_INFINITY, f32::MAX],
        [1.0e-40, -1.0e-40, f32::MIN_POSITIVE],
        [-0.001, 1.0e6, 3.0e-7],
    ];
    for [x, y, z] in cases {
        let ours = Matrix4::translation(scalar(x), scalar(y), scalar(z));
        let theirs = nalgebra_glm::translation(&nalgebra_glm::vec3(x, y, z));
        assert_eq!(ours.to_column_major(), encodings(theirs.as_slice()));
    }
}

#[test]
fn translation_keeps_every_input_as_it_is() {
    let matrix = Matrix4::translation(scalar(f32::INFINITY), scalar(-0.0), scalar(f32::MAX));
    assert_eq!(matrix.w_axis.x.to_bits(), f32::INFINITY.to_bits());
    assert_eq!(matrix.w_axis.y.to_bits(), (-0.0f32).to_bits());
    assert_eq!(matrix.w_axis.z.to_bits(), f32::MAX.to_bits());
    assert_eq!(matrix.w_axis.w, Scalar::one());
    assert_eq!(matrix.x_axis, Matrix4::identity().x_axis);
    assert_eq!(matrix.y_axis, Matrix4::identity().y_axis);
    assert_eq!(matrix.z_axis, Matrix4::identity().z_axis);
}

#[test]
fn column_major_goes_column_after_column() {
    let matrix = Matrix4 {
        x_axis: Vector4::new(scalar(1.0), scalar(2.0), scalar(3.0), scalar(4.0)),
        y_axis: Vector4::new(scalar(5.0), scalar(6.0), scalar(7.0), scalar(8.0)),
        z_axis: Vector4::new(scalar(9.0), scalar(10.0), scalar(11.0), scalar(12.0)),
        w_axis: Vector4::new(scalar(13.0), scalar(14.0), scalar(15.0), scalar(16.0)),
    };
    assert_eq!(
        numbers(&matrix),
        vec![1.0, 2.0, 3.0, 4.0, 5.0, 6.0, 7.0, 8.0, 9.0, 10.0, 11.0, 12.0, 13.0, 14.0, 15.0, 16.0]
    );
}

#[test]
fn column_major_is_the_layout_of_the_matrix_library() {
    let theirs = nalgebra_glm::mat4x4(
        1., 5., 9., 13., 2., 6., 10., 14., 3., 7., 11., 15., 4., 8., 12., 16.,
    );
    let ours = Matrix4::from_column_major(&encodings(theirs.as_slice()));
    assert_eq!(ours.x_axis, Vector4::new(scalar(1.0), scalar(2.0), scalar(3.0), scalar(4.0)));
    assert_eq!(ours.w_axis, Vector4::new(scalar(13.0), scalar(14.0), scalar(15.0), scalar(16.0)));
    assert_eq!(f32::from_bits(ours.w_axis.x.to_bits()), theirs[(0, 3)]);
    assert_eq!(f32::from_bits(ours.x_axis.w.to_bits()), theirs[(3, 0)]);
}

#[test]
fn reading_and_writing_column_major_round_trip() {
    let mut bits: [u32; 16] = [0; 16];
    for (place, slot) in bits.iter_mut().enumerate() {
        *slot = 0x3F00_0000 + 0x0101 * (place as u32);
    }
    let matrix = Matrix4::from_column_major(&bits);
    assert_eq!(matrix.to_column_major(), bits);
    assert_eq!(Matrix4::from_column_major(&matrix.to_column_major()), matrix);
    assert_eq!(matrix.y_axis.z.to_bits(), bits[6]);
}
