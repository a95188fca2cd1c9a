use render_core::color::{Color, CHANNEL_ONE, CHANNEL_ZERO};
use render_core::vertex::{
    vertex_bytes, vertex_words, Triangle, Vertex, BYTES_PER_COMPONENT, COMPONENTS_PER_VERTEX,
    F32_MINUS_THREE_QUARTERS, F32_ONE, F32_THREE_QUARTERS, F32_ZERO, TRIANGLE_VERTEX_COUNT,
    VERTEX_STRIDE,
};

#[test]
fn bit_patterns_are_those_of_the_floats() {
    assert_eq!(f32::from_bits(F32_ZERO), 0.0);
    assert_eq!(f32::from_bits(F32_ONE), 1.0);
    assert_eq!(f32::from_bits(F32_THREE_QUARTERS), 0.75);
    assert_eq!(f32::from_bits(F32_MINUS_THREE_QUARTERS), -0.75);
    assert_eq!(f64::from_bits(CHANNEL_ZERO), 0.0);
    assert_eq!(f64::from_bits(CHANNEL_ONE), 1.0);
}

#[test]
fn opaque_black_is_zero_zero_zero_one() {
    let black = Color::opaque_black();
    assert_eq!(f64::from_bits(black.r), 0.0);
    assert_eq!(f64::from_bits(black.g), 0.0);
    assert_eq!(f64::from_bits(black.b), 0.0);
    assert_eq!(f64::from_bits(black.a), 1.0);
}

#[test]
fn color_from_bits_keeps_each_channel() {
    let color = Color::from_bits(1, 2, 3, 4);
    assert_eq!(color, Color { r: 1, g: 2, b: 3, a: 4 });
}

#[test]
fn triangle_has_the_three_fixed_vertices() {
    let triangle = Triangle::new();
    let corners: Vec<(f32, f32, f32, f32)> = triangle
        .to_vertices()
        .iter()
        .map(|v| {
            (f32::from_bits(v.x), f32::from_bits(v.y), f32::from_bits(v.z), f32::from_bits(v.w))
        })
        .collect();
    assert_eq!(
        corners,
        vec![(0.75, 0.75, 0.0, 1.0), (0.75, -0.75, 0.0, 1.0), (-0.75, -0.75, 0.0, 1.0)]
    );
    assert_eq!(triangle.to_vertices().len(), TRIANGLE_VERTEX_COUNT as usize);
}

#[test]
fn triangle_is_the_same_whenever_it_is_made() {
    assert_eq!(Triangle::new(), Triangle::new());
    assert_eq!(Triangle::new().to_vertices(), Triangle::new().to_vertices());
}

#[test]
fn vertex_from_bits_keeps_each_component() {
    assert_eq!(Vertex::from_bits(1, 2, 3, 4), Vertex { x: 1, y: 2, z: 3, w: 4 });
}

#[test]
fn words_are_the_components_in_order() {
    let vertices = vec![Vertex::from_bits(1, 2, 3, 4), Vertex::from_bits(5, 6, 7, 8)];
    assert_eq!(vertex_words(&vertices), vec![1, 2, 3, 4, 5, 6, 7, 8]);
}

#[test]
fn words_of_no_vertices_are_none() {
    assert_eq!(vertex_words(&Vec::new()), Vec::<u32>::new());
    assert_eq!(vertex_bytes(&Vec::new()), Vec::<u8>::new());
}

#[test]
fn words_of_the_triangle() {
    let words = vertex_words(&Triangle::new().to_vertices());
    assert_eq!(
        words,
        vec![
            0x3F40_0000,
            0x3F40_0000,
            0,
            0x3F80_0000,
            0x3F40_0000,
            0xBF40_0000,
            0,
            0x3F80_0000,
            0xBF40_0000,
            0xBF40_0000,
            0,
            0x3F80_0000,
        ]
    );
}

#[test]
fn bytes_are_the_floats_as_they_lie_in_memory() {
    let floats: [f32; 12] =
        [0.75, 0.75, 0.0, 1.0, 0.75, -0.75, 0.0, 1.0, -0.75, -0.75, 0.0, 1.0];
    let mut expected: Vec<u8> = Vec::new();
    for x in floats {
        expected.extend_from_slice(&x.to_ne_bytes());
    }
    assert_eq!(vertex_bytes(&Triangle::new().to_vertices()), expected);
}

#[test]
fn bytes_of_one_word_are_in_one_of_the_two_orders() {
    let bytes = vertex_bytes(&vec![Vertex::from_bits(0x0102_0304, 0, 0, 0)]);
    assert_eq!(bytes.len(), 16);
    let first = [bytes[0], bytes[1], bytes[2], bytes[3]];
    assert!(first == [4, 3, 2, 1] || first == [1, 2, 3, 4]);
    assert_eq!(first, 0x0102_0304u32.to_ne_bytes());
    assert!(bytes[4..].iter().all(|b| *b == 0));
}

#[test]
fn buffer_takes_one_stride_for_each_vertex() {
    assert_eq!(VERTEX_STRIDE, COMPONENTS_PER_VERTEX * BYTES_PER_COMPONENT);
    let bytes = vertex_bytes(&Triangle::new().to_vertices());
    assert_eq!(bytes.len() as u64, VERTEX_STRIDE * TRIANGLE_VERTEX_COUNT as u64);
    let five = vec![Vertex::from_bits(0, 0, 0, 0); 5];
    assert_eq!(vertex_bytes(&five).len() as u64, VERTEX_STRIDE * 5);
}
