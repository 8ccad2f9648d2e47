use std::cell::Cell;
use std::sync::{Arc, Weak};
use pixel_engine::asset::cache::AssetCache;
use pixel_engine::asset::Cached;

#[test]
fn cache_get_after_insert() {
    let mut c: AssetCache<u32> = AssetCache::new();
    assert_eq!(c.get(b"a.png"), None);
    assert_eq!(c.insert(b"a.png", 1), None);
    assert_eq!(c.insert(b"b.png", 2), None);
    assert_eq!(c.get(b"a.png"), Some(&1));
    assert_eq!(c.get(b"b.png"), Some(&2));
    assert_eq!(c.insert(b"a.png", 3), Some(1));
    assert_eq!(c.get(b"a.png"), Some(&3));
    assert_eq!(c.get(b"b.png"), Some(&2));
    assert_eq!(c.get(b"a.pn"), None);
}

#[test]
fn cache_loads_once_while_the_asset_lives() {
    let mut c: AssetCache<Weak<String>> = AssetCache::new();
    let loads = Cell::new(0);
    let load = || {
        loads.set(loads.get() + 1);
        let asset = Arc::new(String::from("sprite"));
        Ok::<_, ()>((Arc::downgrade(&asset), asset))
    };
    let first = c.get_or_load(b"s.ase", |w: &Weak<String>| w.upgrade(), load).unwrap();
    let second = c
        .get_or_load(b"s.ase", |w: &Weak<String>| w.upgrade(), || {
            loads.set(loads.get() + 1);
            Err(())
        })
        .unwrap();
    assert_eq!(loads.get(), 1);
    assert!(Arc::ptr_eq(&first, &second));
    let handle = Cached::handle(first);
    assert_eq!(handle.get(), "sprite");
    assert_eq!(&*handle.clone(), "sprite");
}

#[test]
fn cache_reloads_a_dropped_asset() {
    let mut c: AssetCache<Weak<String>> = AssetCache::new();
    let first = c
        .get_or_load(b"x", |w: &Weak<String>| w.upgrade(), || {
            let asset = Arc::new(String::from("one"));
            Ok::<_, ()>((Arc::downgrade(&asset), asset))
        })
        .unwrap();
    drop(first);
    let again = c
        .get_or_load(b"x", |w: &Weak<String>| w.upgrade(), || {
            let asset = Arc::new(String::from("two"));
            Ok::<_, ()>((Arc::downgrade(&asset), asset))
        })
        .unwrap();
    assert_eq!(*again, "two");
}

#[test]
fn cache_keeps_nothing_when_loading_fails() {
    let mut c: AssetCache<Weak<String>> = AssetCache::new();
    let r = c.get_or_load(b"bad", |w: &Weak<String>| w.upgrade(), || Err::<(Weak<String>, Arc<String>), &str>("missing"));
    assert_eq!(r, Err("missing"));
    assert!(c.get(b"bad").is_none());
}
