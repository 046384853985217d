use gloom_rs::mesh::{map_vertices, merge_models, MeshError, ModelBuffers};
use gloom_rs::util::{byte_size_of_array, offset, size_of};
use gloom_rs::vao::{
    color_components, vertex_attributes, VertexAttribute, COLOR_ATTRIBUTE, POSITION_ATTRIBUTE,
    TEXCOORD_ATTRIBUTE,
};

fn model(positions: Vec<f32>, normals: Vec<f32>, texcoords: Vec<f32>, indices: Vec<u32>) -> ModelBuffers<f32> {
    ModelBuffers { positions, normals, texcoords, indices }
}

#[test]
fn merging_no_models_gives_empty_buffers() {
    let models: Vec<ModelBuffers<f32>> = Vec::new();
    let mesh = merge_models(&models).unwrap();
    assert!(mesh.vertices.is_empty());
    assert!(mesh.normals.is_empty());
    assert!(mesh.texcoords.is_empty());
    assert!(mesh.indices.is_empty());
}

#[test]
fn merging_one_model_copies_its_buffers() {
    let models = vec![model(
        vec![0.0, 0.0, 0.0, 1.0, 0.0, 0.0, 0.0, 1.0, 0.0],
        vec![0.0, 0.0, 1.0, 0.0, 0.0, 1.0, 0.0, 0.0, 1.0],
        vec![0.0, 0.0, 1.0, 0.0, 0.0, 1.0],
        vec![0, 1, 2],
    )];
    let mesh = merge_models(&models).unwrap();
    assert_eq!(mesh.vertices, vec![0.0, 0.0, 0.0, 1.0, 0.0, 0.0, 0.0, 1.0, 0.0]);
    assert_eq!(mesh.normals, vec![0.0, 0.0, 1.0, 0.0, 0.0, 1.0, 0.0, 0.0, 1.0]);
    assert_eq!(mesh.texcoords, vec![0.0, 0.0, 1.0, 0.0, 0.0, 1.0]);
    assert_eq!(mesh.indices, vec![0, 1, 2]);
}

#[test]
fn merging_keeps_the_order_of_the_models() {
    let models = vec![
        model(vec![1.0, 2.0, 3.0], vec![0.0, 1.0, 0.0], vec![], vec![0, 0, 0]),
        model(vec![4.0, 5.0, 6.0, 7.0, 8.0, 9.0], vec![], vec![0.5, 0.25], vec![1, 0, 1]),
        model(vec![], vec![1.0, 0.0, 0.0], vec![0.75, 1.0], vec![]),
    ];
    let mesh = merge_models(&models).unwrap();
    assert_eq!(mesh.vertices, vec![1.0, 2.0, 3.0, 4.0, 5.0, 6.0, 7.0, 8.0, 9.0]);
    assert_eq!(mesh.normals, vec![0.0, 1.0, 0.0, 1.0, 0.0, 0.0]);
    assert_eq!(mesh.texcoords, vec![0.5, 0.25, 0.75, 1.0]);
    assert_eq!(mesh.indices, vec![0, 0, 0, 1, 0, 1]);
}

#[test]
fn merging_fails_on_positions_that_fill_no_vertex() {
    let models = vec![
        model(vec![1.0, 2.0, 3.0], vec![], vec![], vec![0]),
        model(vec![4.0, 5.0, 6.0, 7.0], vec![], vec![], vec![0]),
        model(vec![4.0, 5.0], vec![], vec![], vec![0]),
    ];
    assert_eq!(merge_models(&models), Err(MeshError::IncompleteVertex(1)));
}

#[test]
fn merging_names_the_first_incomplete_model() {
    let models = vec![model(vec![1.0], vec![], vec![], vec![])];
    assert_eq!(merge_models(&models).unwrap_err(), MeshError::IncompleteVertex(0));
}

#[test]
fn merging_works_for_any_copyable_coordinate() {
    let models = vec![
        ModelBuffers { positions: vec![1u8, 2, 3], normals: vec![], texcoords: vec![9], indices: vec![5] },
        ModelBuffers { positions: vec![4u8, 5, 6], normals: vec![7], texcoords: vec![], indices: vec![6] },
    ];
    let mesh = merge_models(&models).unwrap();
    assert_eq!(mesh.vertices, vec![1, 2, 3, 4, 5, 6]);
    assert_eq!(mesh.normals, vec![7]);
    assert_eq!(mesh.texcoords, vec![9]);
    assert_eq!(mesh.indices, vec![5, 6]);
}

#[test]
fn mapping_scales_each_vertex() {
    let vertices = vec![1.0f32, 1.0, 1.0, -2.0, 0.5, 4.0];
    let scaled = map_vertices(&vertices, &|x: f32, y: f32, z: f32| (x * 2.0, y * 3.0, z * 4.0));
    assert_eq!(scaled, vec![2.0, 3.0, 4.0, -4.0, 1.5, 16.0]);
}

#[test]
fn mapping_translates_each_vertex() {
    let vertices = vec![0.0f32, 0.0, 0.0, 1.0, 2.0, 3.0];
    let moved = map_vertices(&vertices, &|x: f32, y: f32, z: f32| (x + 1.0, y - 1.0, z + 0.5));
    assert_eq!(moved, vec![1.0, -1.0, 0.5, 2.0, 1.0, 3.5]);
}

#[test]
fn mapping_leaves_out_coordinates_that_fill_no_vertex() {
    let vertices = vec![1, 2, 3, 4, 5, 6, 7, 8];
    let swapped = map_vertices(&vertices, &|x: i32, y: i32, z: i32| (z, y, x));
    assert_eq!(swapped, vec![3, 2, 1, 6, 5, 4]);
}

#[test]
fn mapping_nothing_gives_nothing() {
    let none: Vec<i32> = Vec::new();
    assert!(map_vertices(&none, &|x: i32, y: i32, z: i32| (x, y, z)).is_empty());
    let two = vec![1, 2];
    assert!(map_vertices(&two, &|x: i32, y: i32, z: i32| (x, y, z)).is_empty());
}

#[test]
fn byte_size_is_length_times_element_size() {
    assert_eq!(byte_size_of_array(&[1.0f32, 2.0, 3.0]), 12);
    assert_eq!(byte_size_of_array(&[1u64, 2]), 16);
    assert_eq!(byte_size_of_array(&[7u8; 5]), 5);
    let empty: [u32; 0] = [];
    assert_eq!(byte_size_of_array(&empty), 0);
    let v = vec![0u32; 100];
    assert_eq!(byte_size_of_array(&v), 400);
}

#[test]
fn size_of_gives_the_size_in_bytes() {
    assert_eq!(size_of::<u64>(), 8);
    assert_eq!(size_of::<f32>(), 4);
    assert_eq!(size_of::<u8>(), 1);
    assert_eq!(size_of::<()>(), 0);
    assert_eq!(size_of::<[u32; 3]>(), 12);
}

#[test]
fn offset_is_count_times_element_size() {
    assert_eq!(offset::<u64>(4), 32);
    assert_eq!(offset::<f32>(3), 12);
    assert_eq!(offset::<u8>(0), 0);
    assert_eq!(offset::<u32>(0), 0);
    assert_eq!(offset::<()>(1000), 0);
}

#[test]
fn colors_in_fours_are_rgba() {
    assert_eq!(color_components(4), 4);
    assert_eq!(color_components(8), 4);
    assert_eq!(color_components(12), 4);
    assert_eq!(color_components(0), 4);
}

#[test]
fn other_colors_are_rgb() {
    assert_eq!(color_components(3), 3);
    assert_eq!(color_components(9), 3);
    assert_eq!(color_components(6), 3);
    assert_eq!(color_components(5), 3);
}

#[test]
fn positions_alone_give_one_attribute() {
    let attributes = vertex_attributes::<f32>(0, 0);
    assert_eq!(attributes, vec![VertexAttribute { index: 0, components: 3, stride: 12 }]);
}

#[test]
fn colors_and_texcoords_give_their_attributes() {
    let attributes = vertex_attributes::<f32>(8, 6);
    assert_eq!(
        attributes,
        vec![
            VertexAttribute { index: POSITION_ATTRIBUTE, components: 3, stride: 12 },
            VertexAttribute { index: COLOR_ATTRIBUTE, components: 4, stride: 16 },
            VertexAttribute { index: TEXCOORD_ATTRIBUTE, components: 2, stride: 8 },
        ]
    );
}

#[test]
fn rgb_colors_are_twelve_bytes_apart() {
    let attributes = vertex_attributes::<f32>(9, 0);
    assert_eq!(
        attributes,
        vec![
            VertexAttribute { index: 0, components: 3, stride: 12 },
            VertexAttribute { index: 1, components: 3, stride: 12 },
        ]
    );
}

#[test]
fn texcoords_without_colors_keep_their_location() {
    let attributes = vertex_attributes::<f64>(0, 4);
    assert_eq!(
        attributes,
        vec![
            VertexAttribute { index: 0, components: 3, stride: 24 },
            VertexAttribute { index: 2, components: 2, stride: 16 },
        ]
    );
}
