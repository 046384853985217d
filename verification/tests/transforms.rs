use gloom_rs::transform::{
    calculate_transformation_object, model_matrix, pivot_matrix, rotation_matrix, Elementary,
};
use nalgebra_glm as glm;

fn make(kind: Elementary, v: &glm::Vec3) -> glm::Mat4 {
    match kind {
        Elementary::Translation => glm::translation(v),
        Elementary::InverseTranslation => glm::translation(&(-v)),
        Elementary::RotationX => glm::rotation(v.x, &glm::vec3(1.0, 0.0, 0.0)),
        Elementary::RotationY => glm::rotation(v.y, &glm::vec3(0.0, 1.0, 0.0)),
        Elementary::RotationZ => glm::rotation(v.z, &glm::vec3(0.0, 0.0, 1.0)),
        Elementary::Scaling => glm::scaling(v),
    }
}

fn compose(a: &glm::Mat4, b: &glm::Mat4) -> glm::Mat4 {
    a * b
}

fn close(a: &glm::Mat4, b: &glm::Mat4) -> bool {
    (0..16).all(|i| (a[i] - b[i]).abs() < 1e-5)
}

fn close4(a: &glm::Vec4, b: &glm::Vec4) -> bool {
    (a - b).norm() < 1e-5
}

const QUARTER: f32 = std::f32::consts::FRAC_PI_2;

#[test]
fn rotation_is_yaw_times_pitch_times_roll() {
    let angles = glm::vec3(0.3, -1.1, 2.0);
    let r = rotation_matrix(&angles, &make, &compose);
    let rx = glm::rotation(0.3f32, &glm::vec3(1.0, 0.0, 0.0));
    let ry = glm::rotation(-1.1f32, &glm::vec3(0.0, 1.0, 0.0));
    let rz = glm::rotation(2.0f32, &glm::vec3(0.0, 0.0, 1.0));
    assert_eq!(r, (rz * ry) * rx);
    assert!(!close(&r, &((rx * ry) * rz)));
}

#[test]
fn roll_is_applied_before_yaw() {
    let angles = glm::vec3(QUARTER, 0.0, QUARTER);
    let r = rotation_matrix(&angles, &make, &compose);
    let image = r * glm::vec4(0.0, 1.0, 0.0, 1.0);
    assert!(close4(&image, &glm::vec4(0.0, 0.0, 1.0, 1.0)));
}

#[test]
fn rotation_and_its_negation_in_reverse_give_identity() {
    let triples = [
        glm::vec3(0.0, 0.0, 0.0),
        glm::vec3(0.3, -1.1, 2.0),
        glm::vec3(3.0, 0.5, -2.5),
        glm::vec3(-0.7, 1.5, 0.01),
        glm::vec3(6.1, -4.2, 5.0),
    ];
    for angles in triples.iter() {
        let forward = rotation_matrix(angles, &make, &compose);
        let back = (glm::rotation(-angles.x, &glm::vec3(1.0, 0.0, 0.0))
            * glm::rotation(-angles.y, &glm::vec3(0.0, 1.0, 0.0)))
            * glm::rotation(-angles.z, &glm::vec3(0.0, 0.0, 1.0));
        assert!(close(&(back * forward), &glm::identity()));
        assert!(close(&(forward * back), &glm::identity()));
    }
}

#[test]
fn model_matrix_scales_then_rotates_then_translates() {
    let position = glm::vec3(10.0, 0.0, 0.0);
    let rotation = glm::vec3(0.0, 0.0, QUARTER);
    let scale = glm::vec3(2.0, 1.0, 1.0);
    let m = model_matrix(&position, &rotation, &scale, &make, &compose);
    let image = m * glm::vec4(1.0, 0.0, 0.0, 1.0);
    assert!(close4(&image, &glm::vec4(10.0, 2.0, 0.0, 1.0)));
}

#[test]
fn model_matrix_of_translation_and_scale_is_exact() {
    let m = model_matrix(
        &glm::vec3(1.0, 2.0, 3.0),
        &glm::vec3(0.0, 0.0, 0.0),
        &glm::vec3(2.0, 4.0, 8.0),
        &make,
        &compose,
    );
    assert_eq!(m * glm::vec4(1.0, 1.0, 1.0, 1.0), glm::vec4(3.0, 6.0, 11.0, 1.0));
    assert_eq!(m * glm::vec4(0.0, 0.0, 0.0, 1.0), glm::vec4(1.0, 2.0, 3.0, 1.0));
}

#[test]
fn pivot_at_origin_is_the_model_matrix() {
    let position = glm::vec3(1.5, -2.0, 3.25);
    let rotation = glm::vec3(0.3, -1.1, 2.0);
    let scale = glm::vec3(2.0, 0.5, 1.5);
    let zero = glm::vec3(0.0, 0.0, 0.0);
    let with_pivot = pivot_matrix(&position, &rotation, &scale, &zero, &make, &compose);
    let plain = model_matrix(&position, &rotation, &scale, &make, &compose);
    assert_eq!(with_pivot, plain);
}

#[test]
fn pivot_stays_where_it_is_under_rotation() {
    let position = glm::vec3(4.0, 5.0, 6.0);
    let pivot = glm::vec3(0.35, 2.3, 10.4);
    let one = glm::vec3(1.0, 1.0, 1.0);
    let expected = glm::vec4(4.35, 7.3, 16.4, 1.0);
    let triples = [
        glm::vec3(0.0, 0.0, 0.0),
        glm::vec3(1.0, 0.0, 0.0),
        glm::vec3(0.3, -1.1, 2.0),
        glm::vec3(-2.0, 2.5, 0.7),
    ];
    for rotation in triples.iter() {
        let m = pivot_matrix(&position, rotation, &one, &pivot, &make, &compose);
        let image = m * glm::vec4(pivot.x, pivot.y, pivot.z, 1.0);
        assert!((image - expected).norm() < 1e-4);
    }
}

#[test]
fn pivot_formula_multiplies_in_the_stated_order() {
    let position = glm::vec3(4.0, 5.0, 6.0);
    let rotation = glm::vec3(0.3, -1.1, 2.0);
    let scale = glm::vec3(2.0, 0.5, 1.5);
    let pivot = glm::vec3(0.35, 2.3, 10.4);
    let m = pivot_matrix(&position, &rotation, &scale, &pivot, &make, &compose);
    let r = (make(Elementary::RotationZ, &rotation) * make(Elementary::RotationY, &rotation))
        * make(Elementary::RotationX, &rotation);
    let expected = (((glm::translation(&position) * glm::translation(&pivot)) * r)
        * glm::translation(&(-pivot)))
        * glm::scaling(&scale);
    assert_eq!(m, expected);
}

#[test]
fn object_transformation_puts_view_projection_first() {
    let position = glm::vec3(1.0, 2.0, 3.0);
    let rotation = glm::vec3(0.0, 0.0, 0.0);
    let scale = glm::vec3(1.0, 1.0, 1.0);
    let view_projection = glm::scaling(&glm::vec3(2.0, 2.0, 2.0));
    let m = calculate_transformation_object(&position, &rotation, &scale, &view_projection, &make, &compose);
    assert_eq!(m * glm::vec4(0.0, 0.0, 0.0, 1.0), glm::vec4(2.0, 4.0, 6.0, 1.0));
    let model = model_matrix(&position, &rotation, &scale, &make, &compose);
    assert_eq!(m, view_projection * model);
}
