use deepviewrt::error::Error;
use deepviewrt::tensor::{Tensor, TensorType};

#[test]
fn tensor_type_codes_round_trip() {
    let all = [
        TensorType::RAW,
        TensorType::STR,
        TensorType::I8,
        TensorType::U8,
        TensorType::I16,
        TensorType::U16,
        TensorType::I32,
        TensorType::U32,
        TensorType::I64,
        TensorType::U64,
        TensorType::F16,
        TensorType::F32,
        TensorType::F64,
    ];
    for (i, t) in all.iter().enumerate() {
        assert_eq!(t.code(), i as u32);
        assert_eq!(TensorType::try_from(i as u32), Ok(*t));
    }
    assert_eq!(TensorType::F32.code(), 11);
}

#[test]
fn tensor_type_rejects_unknown_code() {
    assert_eq!(TensorType::try_from(13), Err(()));
    assert_eq!(TensorType::try_from(u32::MAX), Err(()));
}

#[test]
fn new_tensor_owns_its_buffer() {
    let t = Tensor::new(0x1000, std::io::ErrorKind::OutOfMemory).unwrap();
    assert!(t.is_owned());
    assert_eq!(t.to_mut_ptr(), 0x1000);
}

#[test]
fn new_tensor_null_is_io_error() {
    match Tensor::new(0, std::io::ErrorKind::OutOfMemory) {
        Err(Error::IoError(k)) => assert_eq!(k, std::io::ErrorKind::OutOfMemory),
        _ => panic!("expected an io error"),
    }
}

#[test]
fn from_ptr_null_is_wrapper_error() {
    match Tensor::from_ptr(0, false) {
        Err(Error::WrapperError(m)) => assert_eq!(m, "ptr is null"),
        _ => panic!("expected a wrapper error"),
    }
    let t = Tensor::from_ptr(0x2000, false).unwrap();
    assert!(!t.is_owned());
}

#[test]
fn borrowed_tensor_never_releases() {
    let mut t = Tensor::from_ptr(0x2000, false).unwrap();
    assert!(!t.release());
    assert!(!t.release());
}

#[test]
fn owned_tensor_releases_exactly_once() {
    let mut t = Tensor::new(0x3000, std::io::ErrorKind::Other).unwrap();
    assert!(t.release());
    assert!(!t.release());
    assert!(!t.release());
}

#[test]
fn readers_share_and_unmaps_match_maps() {
    let mut t = Tensor::new(0x3000, std::io::ErrorKind::Other).unwrap();
    assert!(t.mapro(0x9000).is_ok());
    assert!(t.mapro(0x9000).is_ok());
    assert!(t.can_maprw().is_err());
    assert!(t.maprw(0x9000).is_err());
    assert!(t.unmap_readonly());
    assert!(t.unmap_readonly());
    // every view is closed: no further unmap is owed
    assert!(!t.unmap_readonly());
    assert!(!t.unmap_readwrite());
    assert!(t.can_maprw().is_ok());
}

#[test]
fn writer_is_exclusive() {
    let mut t = Tensor::new(0x3000, std::io::ErrorKind::Other).unwrap();
    assert!(t.maprw(0x9000).is_ok());
    assert!(t.can_mapro().is_err());
    assert!(t.mapro(0x9000).is_err());
    assert!(t.maprw(0x9000).is_err());
    assert!(!t.unmap_readonly());
    assert!(t.unmap_readwrite());
    assert!(!t.unmap_readwrite());
    assert!(t.mapro(0x9000).is_ok());
}

#[test]
fn failed_native_map_opens_no_view() {
    let mut t = Tensor::new(0x3000, std::io::ErrorKind::Other).unwrap();
    match t.mapro(0) {
        Err(Error::WrapperError(m)) => assert_eq!(m, "nn_tensor_mapro failed"),
        _ => panic!("expected a wrapper error"),
    }
    match t.maprw(0) {
        Err(Error::WrapperError(m)) => assert_eq!(m, "nn_tensor_maprw failed"),
        _ => panic!("expected a wrapper error"),
    }
    assert!(!t.unmap_readonly());
    assert!(!t.unmap_readwrite());
    assert!(t.can_maprw().is_ok());
}

#[test]
fn assign_checks_shape_length() {
    assert!(Tensor::check_assign(3, &[1, 2, 3]).is_ok());
    assert!(Tensor::check_assign(0, &[]).is_ok());
    match Tensor::check_assign(2, &[1, 2, 3]) {
        Err(Error::WrapperError(m)) => assert_eq!(m, "shape length should be equal to n_dims"),
        _ => panic!("expected a wrapper error"),
    }
    assert!(Tensor::check_assign(-1, &[]).is_err());
}

#[test]
fn scales_of_length_one_or_channel_count() {
    let shape = [1, 4, 8];
    assert!(Tensor::check_scales(1, &shape, 2).is_ok());
    assert!(Tensor::check_scales(8, &shape, 2).is_ok());
    assert!(Tensor::check_scales(4, &shape, 1).is_ok());
    assert!(Tensor::check_scales(4, &shape, 2).is_err());
    assert!(Tensor::check_scales(0, &shape, 0).is_err());
    assert!(Tensor::check_scales(8, &shape, -1).is_err());
    assert!(Tensor::check_scales(8, &shape, 3).is_err());
    assert!(Tensor::check_scales(1, &shape, -1).is_ok());
}

#[test]
fn wrapped_engine_never_tears_down() {
    let mut e = deepviewrt::engine::Engine::wrap(0x700).unwrap();
    assert_eq!(e.to_ptr(), 0x700);
    assert!(!e.release());
    assert!(!e.release());
    assert!(deepviewrt::engine::Engine::wrap(0).is_err());
}

#[test]
fn owning_engine_tears_down_once() {
    let mut e = deepviewrt::engine::Engine::new(0x700).unwrap();
    assert!(e.release());
    assert!(!e.release());
    match deepviewrt::engine::Engine::new(0) {
        Err(Error::WrapperError(m)) => assert_eq!(m, "nn_engine_init returned null"),
        _ => panic!("expected a wrapper error"),
    }
}

#[test]
fn tensor_engine_is_resolved_once() {
    let mut t = Tensor::new(0x3000, std::io::ErrorKind::Other).unwrap();
    assert!(t.engine(0).is_none());
    assert_eq!(t.cached_engine(), None);
    assert_eq!(t.engine(0x500).map(|e| e.to_ptr()), Some(0x500));
    assert_eq!(t.engine(0x600).map(|e| e.to_ptr()), Some(0x500));
    assert_eq!(t.cached_engine(), Some(0x500));
}
