use icon_overlay::icon_overlay::{class_key, register, slot_key, unregister, OVERLAY_CLSID};
use icon_overlay::registry::{format_guid, RegistryStore};

#[test]
fn test_resgister() {
    let install_path = "C:\\Program Files\\LastWatched\\shell_extention.dll";
    let mut store = RegistryStore::new();
    register(&mut store, install_path);
    if store.get_value(&class_key()).is_none() {
        panic!("regristation failed!");
    }
}

#[test]
fn guid_text_is_canonical() {
    assert_eq!(
        format_guid(OVERLAY_CLSID),
        "{172d5af2-6916-48d3-a611-368273076434}"
    );
    assert_eq!(format_guid(0), "{00000000-0000-0000-0000-000000000000}");
    assert_eq!(
        format_guid(u128::MAX),
        "{ffffffff-ffff-ffff-ffff-ffffffffffff}"
    );
}

#[test]
fn register_writes_both_entries() {
    let mut store = RegistryStore::new();
    register(&mut store, "C:\\ext\\overlay.dll");
    assert_eq!(
        store.get_value(&class_key()),
        Some(String::from("C:\\ext\\overlay.dll"))
    );
    assert_eq!(
        store.get_value(&slot_key()),
        Some(String::from("{172d5af2-6916-48d3-a611-368273076434}"))
    );
    assert_eq!(
        slot_key(),
        "Software\\Microsoft\\Windows\\CurrentVersion\\Explorer\\ShellIconOverlayIdentifiers\\ LastWatched"
    );
}

#[test]
fn register_unregister_restores_prior_state() {
    let mut store = RegistryStore::new();
    store.set_value(
        String::from("Software\\Other\\Entry"),
        String::from("kept"),
    );
    register(&mut store, "C:\\ext\\overlay.dll");
    unregister(&mut store);
    // Both provider entries are gone again; the unrelated entry survives.
    assert_eq!(store.get_value(&class_key()), None);
    assert_eq!(store.get_value(&slot_key()), None);
    assert_eq!(
        store.get_value(&String::from("Software\\Other\\Entry")),
        Some(String::from("kept"))
    );
}

#[test]
fn unregister_of_unregistered_store_changes_nothing() {
    let mut store = RegistryStore::new();
    store.set_value(String::from("k"), String::from("v"));
    unregister(&mut store);
    assert_eq!(store.get_value(&String::from("k")), Some(String::from("v")));
}

#[test]
fn store_overwrites_and_deletes() {
    let mut store = RegistryStore::new();
    let key = String::from("Software\\X");
    store.set_value(key.clone(), String::from("one"));
    store.set_value(key.clone(), String::from("two"));
    assert_eq!(store.get_value(&key), Some(String::from("two")));
    store.delete_value(&key);
    assert_eq!(store.get_value(&key), None);
    assert_eq!(store.get_value(&String::from("absent")), None);
}
