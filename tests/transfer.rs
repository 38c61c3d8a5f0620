use cuda_bridge::buffer::DeviceBuf;
use cuda_bridge::context::{init, CuContext, DriverState};
use cuda_bridge::status::{CudaError, ErrorKind};
use cuda_bridge::stream::{CudaStream, LaunchGeometry};
use cuda_bridge::transfer::{decode_words, encode_words};

#[test]
fn encoding_is_little_endian() {
    assert_eq!(encode_words(&[0x0403_0201, 0xA0B0_C0D0]), vec![1, 2, 3, 4, 0xD0, 0xC0, 0xB0, 0xA0]);
    assert_eq!(decode_words(&[1, 2, 3, 4]), Ok(vec![0x0403_0201]));
}

#[test]
fn round_trip_of_words() {
    let data: Vec<u32> = vec![0, 1, 255, 256, 65_535, 0xDEAD_BEEF, u32::MAX];
    assert_eq!(decode_words(&encode_words(&data)), Ok(data));
    assert_eq!(decode_words(&encode_words(&[])), Ok(vec![]));
}

#[test]
fn round_trip_of_floats() {
    let data: Vec<f32> = vec![0.0, -1.5, 3.25, f32::MAX, f32::MIN_POSITIVE];
    let bits: Vec<u32> = data.iter().map(|x| x.to_bits()).collect();
    let back: Vec<f32> = decode_words(&encode_words(&bits)).unwrap().into_iter().map(f32::from_bits).collect();
    assert_eq!(back, data);
}

#[test]
fn partial_word_is_refused() {
    assert_eq!(decode_words(&[1, 2, 3]), Err(CudaError { kind: ErrorKind::Usage, code: 0 }));
}

/// Adds two staged inputs element by element, as the kernel does on the device.
fn add_kernel(x: &[u8], y: &[u8]) -> Vec<u8> {
    let x = decode_words(x).unwrap();
    let y = decode_words(y).unwrap();
    let sum: Vec<u32> = x
        .iter()
        .zip(y.iter())
        .map(|(a, b)| (f32::from_bits(*a) + f32::from_bits(*b)).to_bits())
        .collect();
    encode_words(&sum)
}

#[test]
fn vector_add_launch_scenario() {
    let n: usize = 16_000_000;
    let mut driver = DriverState::new();
    init(&mut driver, 0).unwrap();
    let mut ctx = CuContext::init(0, 0, 0xC0).unwrap();
    let mut stream = CudaStream::create_default(&mut ctx, 0, 0x5).unwrap();
    let x: Vec<f32> = (0..n).map(|i| i as f32).collect();
    let x_bits: Vec<u32> = x.iter().map(|v| v.to_bits()).collect();
    let staged = encode_words(&x_bits);
    let x_cu = DeviceBuf::alloc_from(&mut ctx, &x, 0, 0x1000).unwrap();
    let y_cu = DeviceBuf::alloc_from(&mut ctx, &x, 0, 0x2000).unwrap();
    assert_eq!(x_cu.byte_size(), staged.len());
    let res = DeviceBuf::allocate::<f32>(&mut ctx, n, 0, 0x3000).unwrap();
    let g = LaunchGeometry { grid_x: 32, grid_y: 1, grid_z: 1, warp_count: 3 };
    let launch = stream.launch_args(g, &[&x_cu, &y_cu], &res, n as u64, 4).unwrap();
    assert_eq!(launch.inputs, vec![0x1000, 0x2000]);
    assert_eq!(launch.output, 0x3000);
    let device_out = add_kernel(&staged, &staged);
    stream.record_launch(&launch, 0).unwrap();
    assert!(res.allocate_on_cpu::<f32>(&stream).is_err());
    stream.synchronize(0).unwrap();
    assert_eq!(res.allocate_on_cpu::<f32>(&stream), Ok(n));
    let out: Vec<f32> = decode_words(&device_out).unwrap().into_iter().map(f32::from_bits).collect();
    assert_eq!(out.len(), n);
    assert_eq!(&out[..10], &[0.0, 2.0, 4.0, 6.0, 8.0, 10.0, 12.0, 14.0, 16.0, 18.0]);
    for (i, v) in out.iter().enumerate() {
        assert_eq!(*v, 2.0 * i as f32);
    }
}
