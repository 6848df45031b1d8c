use cgmath::{Deg, EuclideanSpace, Matrix4, Point3, SquareMatrix, Vector3, Vector4};
use framework::uniform::{BufferCopy, BufferUsage, CameraUniform, UniformData, ONE, UNIFORM_SIZE};

fn matrix_bits(matrix: Matrix4<f32>) -> [u32; 16] {
    let columns: [[f32; 4]; 4] = matrix.into();
    let mut bits = [0u32; 16];
    for (c, column) in columns.iter().enumerate() {
        for (r, value) in column.iter().enumerate() {
            bits[4 * c + r] = value.to_bits();
        }
    }
    bits
}

fn native_bytes(words: &[u32]) -> Vec<u8> {
    words.iter().flat_map(|word| word.to_ne_bytes()).collect()
}

#[test]
fn one_is_the_bit_pattern_of_the_number_one() {
    assert_eq!(ONE, 1.0f32.to_bits());
    assert_eq!(f32::from_bits(ONE), 1.0);
}

#[test]
fn uniform_size_is_the_size_of_its_two_fields() {
    let position = std::mem::size_of::<Vector4<f32>>();
    let matrix = std::mem::size_of::<Matrix4<f32>>();
    assert_eq!(UNIFORM_SIZE, (position + matrix) as u64);
    assert_eq!(UNIFORM_SIZE, 80);
}

#[test]
fn new_data_is_a_zero_position_and_the_identity() {
    let data = UniformData::new();
    assert_eq!(data.view_position, [0.0f32.to_bits(); 4]);
    assert_eq!(data.view_proj, matrix_bits(Matrix4::<f32>::identity()));
}

#[test]
fn bytes_are_the_words_in_the_byte_order_of_the_machine() {
    let mut data = UniformData::new();
    data.view_position = [0x01020304, 0x05060708, 0x090a0b0c, 0x0d0e0f10];
    for i in 0..16 {
        data.view_proj[i] = 0xa000_0000 + i as u32;
    }
    let bytes = data.bytes();
    assert_eq!(bytes.len(), 80);
    let mut words = data.view_position.to_vec();
    words.extend_from_slice(&data.view_proj);
    assert_eq!(bytes, native_bytes(&words));
    assert_eq!(&bytes[0..4], &0x01020304u32.to_ne_bytes());
    assert_eq!(&bytes[76..80], &0xa000_000fu32.to_ne_bytes());
}

#[test]
fn bytes_of_a_word_run_from_one_end_of_the_word_to_the_other() {
    let mut data = UniformData::new();
    data.view_position[0] = 0x11223344;
    let bytes = data.bytes();
    let least_first = [0x44u8, 0x33, 0x22, 0x11];
    let most_first = [0x11u8, 0x22, 0x33, 0x44];
    if 1u32.to_ne_bytes()[0] == 1 {
        assert_eq!(&bytes[0..4], &least_first);
    } else {
        assert_eq!(&bytes[0..4], &most_first);
    }
}

#[test]
fn bytes_of_new_data_hold_the_identity() {
    let bytes = UniformData::new().bytes();
    let one = 1.0f32.to_ne_bytes();
    for word in 0..20 {
        let expected = if word >= 4 && (word - 4) % 5 == 0 { one } else { [0u8; 4] };
        assert_eq!(&bytes[4 * word..4 * word + 4], &expected);
    }
}

#[test]
fn buffer_init_describes_the_uniform_buffer() {
    let data = UniformData::new();
    let init = data.buffer_init();
    assert_eq!(init.label, "Camera Buffer");
    assert_eq!(init.contents, data.bytes());
    assert_eq!(init.contents.len() as u64, UNIFORM_SIZE);
    assert_eq!(init.usage, BufferUsage { copy_src: false, copy_dst: true, uniform: true });
}

#[test]
fn new_camera_uniform_keeps_its_buffer() {
    let uniform = CameraUniform::new("buffer");
    assert_eq!(*uniform.buffer(), "buffer");
    assert_eq!(uniform.data(), UniformData::new());
}

#[test]
fn update_view_proj_promotes_the_position_and_stores_the_product() {
    let eye = Point3::new(1.5f32, -2.0, 7.25);
    let view = Matrix4::look_at_rh(eye, Point3::origin(), Vector3::unit_y());
    let projection = cgmath::perspective(Deg(45.0f32), 4.0 / 3.0, 0.1, 100.0);
    let product = projection * view;

    let mut uniform = CameraUniform::new(0u8);
    uniform.update_view_proj([eye.x.to_bits(), eye.y.to_bits(), eye.z.to_bits()], matrix_bits(product));

    let data = uniform.data();
    let position: [f32; 4] = eye.to_homogeneous().into();
    assert_eq!(data.view_position.map(f32::from_bits), position);
    assert_eq!(data.view_position.map(f32::from_bits), [1.5, -2.0, 7.25, 1.0]);
    assert_eq!(data.view_proj, matrix_bits(projection * view));
    assert_ne!(data.view_proj, matrix_bits(view * projection));
    assert_eq!(*uniform.buffer(), 0u8);
}

#[test]
fn update_view_proj_replaces_earlier_data() {
    let mut uniform = CameraUniform::new(());
    uniform.update_view_proj([1, 2, 3], [9; 16]);
    uniform.update_view_proj([4, 5, 6], [7; 16]);
    assert_eq!(uniform.data().view_position, [4, 5, 6, ONE]);
    assert_eq!(uniform.data().view_proj, [7; 16]);
}

#[test]
fn update_buffer_plans_one_copy_of_the_whole_uniform() {
    let mut uniform = CameraUniform::new(String::from("uniform buffer"));
    uniform.update_view_proj([11, 12, 13], [5; 16]);
    let staged = uniform.update_buffer();
    assert!(std::ptr::eq(staged.destination, uniform.buffer()));
    assert_eq!(staged.destination, "uniform buffer");
    assert_eq!(staged.copy, BufferCopy { source_offset: 0, destination_offset: 0, size: 80 });
    assert_eq!(staged.copy.size, UNIFORM_SIZE);
    assert_eq!(staged.staging.label, "Camera Update Buffer");
    assert_eq!(staged.staging.usage, BufferUsage { copy_src: true, copy_dst: false, uniform: false });
    assert_eq!(staged.staging.contents.len() as u64, staged.copy.size);
    assert_eq!(staged.staging.contents, uniform.data().bytes());
    let mut words = vec![11, 12, 13, ONE];
    words.extend_from_slice(&[5; 16]);
    assert_eq!(staged.staging.contents, native_bytes(&words));
}

#[test]
fn update_buffer_leaves_the_uniform_alone() {
    let uniform = CameraUniform::new(3i32);
    let before = uniform.data();
    let first = uniform.update_buffer();
    let second = uniform.update_buffer();
    assert_eq!(uniform.data(), before);
    assert_eq!(first.staging.contents, second.staging.contents);
    assert_eq!(first.copy, second.copy);
    assert_eq!(*uniform.buffer(), 3);
}
