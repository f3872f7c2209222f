use jit_dispatch::cast::{bool_cast, cast};
use jit_dispatch::element::ElementType;
use jit_dispatch::runtime::{ChannelId, Compiler, Device, Runtime, ServerId};
use jit_dispatch::tensor::{JitTensor, Shape};

fn test_runtime() -> Runtime {
    Runtime::new(
        Compiler::Wgsl,
        ServerId { index: 0 },
        ChannelId { index: 0 },
        Device::default(),
    )
}

#[test]
fn should_cast_int_to_float() {
    let device = Device::default();
    let rt = test_runtime();
    let mut client = rt.client();

    let mut values: Vec<i64> = Vec::new();
    for i in 0..100 {
        values.push(i as i64);
    }
    let handle = client.create(values);
    let tensor = JitTensor::new(handle, Shape::new(vec![100]), ElementType::I32, device);
    let tensor_float = cast(&mut client, tensor, ElementType::F32);

    let data_int = client.read(handle);
    let data_float = client.read(tensor_float.handle);

    for i in 0..100 {
        assert_eq!(data_int[i], i as i64);
        assert_eq!(data_float[i] as f32, i as f32);
    }
}

#[test]
fn should_cast_bool_to_int() {
    let device = Device::default();
    let rt = test_runtime();
    let mut client = rt.client();

    // The logical matrix [[true, false, true], [false, false, true]], as
    // derived from [[1, 0, 3], [0, 0, 900]] > 0: the boolean words keep
    // whatever non-zero pattern the comparison's inputs had.
    let words: Vec<i64> = vec![1, 0, 3, 0, 0, 900];
    let handle = client.create(words);
    let tensor_bool = JitTensor::new(handle, Shape::new(vec![2, 3]), ElementType::U32, device);

    let tensor_int = bool_cast(&mut client, tensor_bool, ElementType::I32);
    let data = client.read(tensor_int.handle);

    assert_eq!(data, vec![1, 0, 1, 0, 0, 1]);
}

#[test]
fn should_cast_bool_to_float() {
    let device = Device::default();
    let rt = test_runtime();
    let mut client = rt.client();

    let words: Vec<i64> = vec![1, 0, 3, 0, 0, 900];
    let handle = client.create(words);
    let tensor_bool = JitTensor::new(handle, Shape::new(vec![2, 3]), ElementType::U32, device);

    let tensor_float = bool_cast(&mut client, tensor_bool, ElementType::F32);
    let data: Vec<f32> = client
        .read(tensor_float.handle)
        .iter()
        .map(|v| *v as f32)
        .collect();

    assert_eq!(data, vec![1.0, 0.0, 1.0, 0.0, 0.0, 1.0]);
}

#[test]
fn identity_cast_shares_handle_and_allocates_nothing() {
    let device = Device::default();
    let rt = test_runtime();
    let mut client = rt.client();

    let handle = client.create(vec![7, 8, 9, 10]);
    let tensor = JitTensor::new(handle, Shape::new(vec![2, 2]), ElementType::I32, device);
    let buffers_before = client.num_buffers();

    let same = cast(&mut client, tensor, ElementType::I32);

    assert_eq!(same.handle, handle);
    assert_eq!(same.shape.dims, vec![2, 2]);
    assert_eq!(client.num_buffers(), buffers_before);
    assert_eq!(client.read(same.handle), vec![7, 8, 9, 10]);
}

#[test]
fn cast_output_buffer_is_sized_exactly() {
    let device = Device::default();
    let rt = test_runtime();
    let mut client = rt.client();

    let handle = client.create(vec![1, 2, 3, 4, 5, 6]);
    let tensor = JitTensor::new(handle, Shape::new(vec![3, 2]), ElementType::I32, device);
    let buffers_before = client.num_buffers();

    let out = cast(&mut client, tensor, ElementType::F32);

    // One fresh buffer of exactly num_elements output elements, 4 bytes each.
    assert_eq!(client.num_buffers(), buffers_before + 1);
    assert_eq!(client.read(out.handle).len(), 6);
}

#[test]
fn cast_int_to_unsigned_saturates() {
    let device = Device::default();
    let rt = test_runtime();
    let mut client = rt.client();

    let handle = client.create(vec![-3, 0, 12]);
    let tensor = JitTensor::new(handle, Shape::new(vec![3]), ElementType::I32, device);

    let out = cast(&mut client, tensor, ElementType::U32);

    assert_eq!(client.read(out.handle), vec![0, 0, 12]);
}

#[test]
fn bool_cast_canonicalizes_same_type() {
    let device = Device::default();
    let rt = test_runtime();
    let mut client = rt.client();

    let handle = client.create(vec![0, 4294967295, 2, 0]);
    let tensor = JitTensor::new(handle, Shape::new(vec![4]), ElementType::U32, device);

    let out = bool_cast(&mut client, tensor, ElementType::U32);

    assert_eq!(client.read(out.handle), vec![0, 1, 1, 0]);
    // The input tensor itself is untouched.
    assert_eq!(client.read(handle), vec![0, 4294967295, 2, 0]);
}

#[test]
fn scalar_tensor_casts() {
    let device = Device::default();
    let rt = test_runtime();
    let mut client = rt.client();

    // An empty dimension list is a scalar holding one element.
    let handle = client.create(vec![42]);
    let tensor = JitTensor::new(handle, Shape::new(vec![]), ElementType::I32, device);

    let out = cast(&mut client, tensor, ElementType::F32);

    assert_eq!(client.read(out.handle), vec![42]);
}
