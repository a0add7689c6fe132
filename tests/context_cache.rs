use deepviewrt::context::{check_name, select_index, Context};
use deepviewrt::engine::Engine;
use deepviewrt::error::Error;

fn loaded_context() -> Context {
    let mut c = Context::new(None, 0x100).unwrap();
    c.load_model(vec![1, 2, 3, 4]);
    assert!(c.model_loaded(0, Some(String::from("success"))).is_ok());
    c
}

#[test]
fn new_context_null_fails() {
    match Context::new(None, 0) {
        Err(Error::WrapperError(m)) => assert_eq!(m, "nn_context_init returned null"),
        _ => panic!("expected a wrapper error"),
    }
    assert!(Context::from_ptr(0).is_err());
}

#[test]
fn context_release_follows_ownership() {
    let engine = Engine::new(7).unwrap();
    let mut owned = Context::new(Some(&engine), 0x100).unwrap();
    assert_eq!(owned.cached_engine(), Some(7));
    assert!(owned.release());
    assert!(!owned.release());
    let mut borrowed = Context::from_ptr(0x100).unwrap();
    assert!(!borrowed.release());
}

#[test]
fn engine_is_resolved_once() {
    let mut c = Context::new(None, 0x100).unwrap();
    assert!(c.engine(0).is_none());
    assert_eq!(c.cached_engine(), None);
    assert_eq!(c.engine(0x500).map(|e| e.to_ptr()), Some(0x500));
    assert_eq!(c.engine(0x600).map(|e| e.to_ptr()), Some(0x500));
    let engine = Engine::new(0x700).unwrap();
    let mut given = Context::new(Some(&engine), 0x100).unwrap();
    assert_eq!(given.engine(0x500).map(|e| e.to_ptr()), Some(0x700));
}

#[test]
fn same_index_gives_same_handle() {
    let mut c = loaded_context();
    let a = c.tensor_index(3, 0x4000).unwrap();
    let b = c.tensor_index(3, 0x4000).unwrap();
    assert_eq!(a, b);
    assert_eq!(c.cache_len(), 1);
    let other = c.tensor_index(5, 0x5000).unwrap();
    assert_ne!(other, a);
    let again = c.tensor_index(3, 0x4000).unwrap();
    assert_eq!(again, a);
    assert_eq!(c.cached(again).to_mut_ptr(), 0x4000);
    assert!(!c.cached(again).is_owned());
    assert_eq!(c.cache_len(), 2);
}

#[test]
fn write_view_through_one_lookup_is_seen_by_another() {
    let mut c = loaded_context();
    let a = c.tensor_index(3, 0x4000).unwrap();
    assert!(c.maprw_at(a, 0x9000).is_ok());
    let b = c.tensor_index(3, 0x4000).unwrap();
    assert!(c.cached(b).can_mapro().is_err());
    assert!(c.unmap_readwrite_at(b));
    assert!(!c.unmap_readwrite_at(b));
    assert!(c.cached(a).can_mapro().is_ok());
}

#[test]
fn lookup_of_unresolved_tensor_fails() {
    let mut c = loaded_context();
    match c.tensor_index(3, 0) {
        Err(Error::WrapperError(m)) => assert_eq!(m, "No tensor found"),
        _ => panic!("expected a wrapper error"),
    }
    assert_eq!(c.cache_len(), 0);
}

#[test]
fn unload_clears_cache_and_lookups_fail() {
    let mut c = loaded_context();
    c.tensor_index(3, 0x4000).unwrap();
    c.unload_model();
    assert_eq!(c.cache_len(), 0);
    assert!(c.model().is_empty());
    assert!(!c.is_loaded());
    match c.tensor_index(3, 0x4000) {
        Err(Error::WrapperError(m)) => assert_eq!(m, "no model is loaded"),
        _ => panic!("expected a wrapper error"),
    }
    c.load_model(vec![9]);
    assert!(c.model_loaded(0, None).is_ok());
    assert!(c.tensor_index(3, 0x4000).is_ok());
}

#[test]
fn unload_twice_does_not_fail() {
    let mut c = loaded_context();
    c.unload_model();
    c.unload_model();
    assert!(!c.is_loaded());
    assert_eq!(c.cache_len(), 0);
}

#[test]
fn failed_load_keeps_blob_but_not_loaded() {
    let mut c = Context::new(None, 0x100).unwrap();
    c.load_model(vec![5, 6]);
    match c.model_loaded(20, Some(String::from("model invalid"))) {
        Err(Error::NNError(m)) => assert_eq!(m, "model invalid"),
        _ => panic!("expected an engine error"),
    }
    assert_eq!(c.model(), &vec![5, 6]);
    assert!(!c.is_loaded());
    assert!(c.tensor_index(0, 0x4000).is_err());
}

#[test]
fn load_replaces_cache() {
    let mut c = loaded_context();
    c.tensor_index(1, 0x4000).unwrap();
    c.load_model(vec![7, 7, 7]);
    assert_eq!(c.cache_len(), 0);
    assert_eq!(c.model(), &vec![7, 7, 7]);
}

#[test]
fn run_reports_engine_status() {
    let c = loaded_context();
    assert!(c.run(0, None).is_ok());
    assert!(matches!(c.run(1, None), Err(Error::Null)));
}

#[test]
fn input_and_output_resolve_through_index_lists() {
    let mut c = loaded_context();
    let inputs = vec![4u32];
    let outputs = vec![9u32, 11u32];
    let i = c.input(0, &inputs, 0x4000).unwrap();
    let o = c.output(1, &outputs, 0x6000).unwrap();
    assert_eq!(c.cached(i).to_mut_ptr(), 0x4000);
    assert_eq!(c.cached(o).to_mut_ptr(), 0x6000);
    assert_eq!(c.tensor_index(4, 0x4000).unwrap(), i);
    assert_eq!(c.tensor_index(11, 0x6000).unwrap(), o);
    match c.input(1, &inputs, 0x4000) {
        Err(Error::WrapperError(m)) => assert_eq!(m, "index out of range"),
        _ => panic!("expected a wrapper error"),
    }
}

#[test]
fn tensor_by_name_is_cached_by_index() {
    let mut c = loaded_context();
    let a = c.tensor("input", 4, 0x4000).unwrap();
    let b = c.tensor_index(4, 0x4000).unwrap();
    assert_eq!(a, b);
    match c.tensor("in\0put", 4, 0x4000) {
        Err(Error::WrapperError(m)) => assert_eq!(m, "name contains a nul byte"),
        _ => panic!("expected a wrapper error"),
    }
    match c.tensor("missing", -1, 0) {
        Err(Error::WrapperError(m)) => assert_eq!(m, "Could not get index of layer"),
        _ => panic!("expected a wrapper error"),
    }
}

#[test]
fn name_and_index_checks() {
    assert!(check_name("conv_1").is_ok());
    assert!(check_name("").is_ok());
    assert!(check_name("a\0b").is_err());
    assert_eq!(select_index(&vec![3, 8], 1).unwrap(), 8);
    assert!(select_index(&vec![3, 8], 2).is_err());
}

#[test]
fn views_on_cached_slots_follow_the_discipline() {
    let mut c = loaded_context();
    let a = c.tensor_index(2, 0x4000).unwrap();
    assert!(c.mapro_at(a, 0x9000).is_ok());
    assert!(c.mapro_at(a, 0x9000).is_ok());
    assert!(c.maprw_at(a, 0x9000).is_err());
    c.tensor_index(8, 0x8000).unwrap();
    let b = c.tensor_index(2, 0x4000).unwrap();
    assert_eq!(a, b);
    assert!(c.unmap_readonly_at(b));
    assert!(c.unmap_readonly_at(b));
    assert!(!c.unmap_readonly_at(b));
    assert!(c.mapro_at(b, 0).is_err());
    assert!(c.maprw_at(b, 0x9000).is_ok());
    assert!(!c.cached(b).is_owned());
    assert_eq!(c.cached(b).to_mut_ptr(), 0x4000);
}
