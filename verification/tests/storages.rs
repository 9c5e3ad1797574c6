use std::any::TypeId;

use boomphf::Mphf;
use livestore::storages::panic_uninit_value_type;
use livestore::Storages;

#[test]
fn each_store_is_found_by_its_type() {
    let builder = Storages::<&'static str>::new()
        .add_store(TypeId::of::<u8>(), "u8")
        .add_store(TypeId::of::<u16>(), "u16")
        .add_store(TypeId::of::<u32>(), "u32")
        .add_store(TypeId::of::<String>(), "String")
        .add_store(TypeId::of::<Vec<u8>>(), "Vec<u8>");
    let hasher = Mphf::new(2.2, builder.ids());
    let storages = builder.done(hasher).unwrap();
    assert_eq!(storages.as_store(&TypeId::of::<u8>()), Some(&"u8"));
    assert_eq!(storages.as_store(&TypeId::of::<u16>()), Some(&"u16"));
    assert_eq!(storages.as_store(&TypeId::of::<u32>()), Some(&"u32"));
    assert_eq!(storages.as_store(&TypeId::of::<String>()), Some(&"String"));
    assert_eq!(storages.as_store(&TypeId::of::<Vec<u8>>()), Some(&"Vec<u8>"));
    let id = TypeId::of::<u8>();
    assert_eq!(storages.store_at(&id, None), None);
    assert_eq!(storages.store_at(&id, Some(5)), None);
    let found: Vec<&&str> = (0..5).filter_map(|p| storages.store_at(&id, Some(p))).collect();
    assert_eq!(found, vec![&"u8"]);
}

#[test]
fn a_type_that_was_not_added_has_no_store() {
    let builder = Storages::<u8>::new()
        .add_store(TypeId::of::<u8>(), 1)
        .add_store(TypeId::of::<u16>(), 2);
    let hasher = Mphf::new(2.2, builder.ids());
    let storages = builder.done(hasher).unwrap();
    let others = [
        TypeId::of::<i8>(),
        TypeId::of::<i16>(),
        TypeId::of::<i32>(),
        TypeId::of::<i64>(),
        TypeId::of::<u32>(),
        TypeId::of::<u64>(),
        TypeId::of::<String>(),
        TypeId::of::<Vec<u8>>(),
        TypeId::of::<()>(),
        TypeId::of::<char>(),
    ];
    for id in others.iter() {
        assert_eq!(storages.as_store(id), None);
    }
}

#[test]
fn a_hash_function_for_other_types_does_not_fit() {
    let hasher = Mphf::new(2.2, &[TypeId::of::<u8>(), TypeId::of::<u16>()]);
    let builder = Storages::<u8>::new()
        .add_store(TypeId::of::<u8>(), 1)
        .add_store(TypeId::of::<u8>(), 2);
    assert!(builder.done(hasher).is_none());
}

#[test]
fn message_for_a_type_without_a_store() {
    assert_eq!(
        panic_uninit_value_type("crate::Foo"),
        "
        --- LIVESTORE VALUE ERROR CODE: 391 ---
        Attempted to get, set, or subscribe to a value of type 'crate::Foo' into a LiveStore, but it had not been initialized.
        Value types needs to be initialized in with [`LiveStoreBuilder::add_val_store::<V>`] before they can be used. 
    "
    );
}
