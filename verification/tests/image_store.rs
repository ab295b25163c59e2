use gpucanvas::image::{ImageFlags, ImageFormat, ImageId, ImageSource, ImageStore};
use gpucanvas::renderer::Void;
use gpucanvas::{ErrorKind, Image};
use imgref::Img;
use rgb::{RGB8, RGBA8};

fn rgba_pixels(n: usize) -> Vec<RGBA8> {
    vec![RGBA8 { r: 1, g: 2, b: 3, a: 4 }; n]
}

#[test]
fn add_then_get() {
    let mut store = ImageStore::new();
    let mut void = Void::new();
    let pixels = rgba_pixels(12);
    let id = store
        .add(&mut void, ImageSource::from(Img::new(&pixels[..], 4, 3)), ImageFlags::empty())
        .unwrap();
    let image = store.get(id).unwrap();
    assert_eq!(image.info().width(), 4);
    assert_eq!(image.info().height(), 3);
    assert_eq!(image.info().format(), ImageFormat::Rgba);
    assert!(image.info().flags().is_empty());
}

#[test]
fn removed_image_is_not_found() {
    let mut store = ImageStore::new();
    let mut void = Void::new();
    let pixels = rgba_pixels(4);
    let id = store
        .add(&mut void, ImageSource::from(Img::new(&pixels[..], 2, 2)), ImageFlags::empty())
        .unwrap();
    assert!(store.get(id).is_some());
    store.remove(&mut void, id);
    assert!(store.get(id).is_none());
    assert!(store.get_mut(id).is_none());
    store.remove(&mut void, id);
    assert!(store.get(id).is_none());
}

#[test]
fn unknown_id_is_not_found() {
    let mut store = ImageStore::new();
    let never = ImageId { index: 17, generation: 3 };
    assert!(store.get(never).is_none());
    assert!(store.get_mut(never).is_none());
    let mut void = Void::new();
    store.remove(&mut void, never);
    assert!(store.get(never).is_none());
}

#[test]
fn reused_slot_does_not_revive_old_handle() {
    let mut store = ImageStore::new();
    let mut void = Void::new();
    let pixels = rgba_pixels(4);
    let first = store
        .add(&mut void, ImageSource::from(Img::new(&pixels[..], 2, 2)), ImageFlags::empty())
        .unwrap();
    store.remove(&mut void, first);
    let second = store
        .add(&mut void, ImageSource::from(Img::new(&pixels[..], 1, 4)), ImageFlags::empty())
        .unwrap();
    assert_ne!(first, second);
    assert!(store.get(first).is_none());
    assert_eq!(store.get(second).unwrap().info().height(), 4);
}

#[test]
fn update_of_unknown_id_fails() {
    let mut store = ImageStore::new();
    let mut void = Void::new();
    let pixels = rgba_pixels(4);
    let never = ImageId { index: 0, generation: 0 };
    let result = store.update(&mut void, never, ImageSource::from(Img::new(&pixels[..], 2, 2)), 0, 0);
    assert_eq!(result, Err(ErrorKind::ImageIdNotFound));
}

#[test]
fn update_out_of_bounds_fails() {
    let mut store = ImageStore::new();
    let mut void = Void::new();
    let pixels = rgba_pixels(16);
    let id = store
        .add(&mut void, ImageSource::from(Img::new(&pixels[..], 4, 4)), ImageFlags::empty())
        .unwrap();
    let patch = ImageSource::from(Img::new(&pixels[..], 2, 2));
    assert_eq!(store.update(&mut void, id, patch, 2, 2), Ok(()));
    assert_eq!(store.update(&mut void, id, patch, 3, 0), Err(ErrorKind::ImageUpdateOutOfBounds));
    assert_eq!(store.update(&mut void, id, patch, 0, 3), Err(ErrorKind::ImageUpdateOutOfBounds));
    assert_eq!(
        store.update(&mut void, id, patch, usize::MAX, 0),
        Err(ErrorKind::ImageUpdateOutOfBounds)
    );
    assert_eq!(
        store.update(&mut void, id, patch, 0, usize::MAX),
        Err(ErrorKind::ImageUpdateOutOfBounds)
    );
}

#[test]
fn update_with_other_format_fails() {
    let mut store = ImageStore::new();
    let mut void = Void::new();
    let pixels = rgba_pixels(16);
    let id = store
        .add(&mut void, ImageSource::from(Img::new(&pixels[..], 4, 4)), ImageFlags::empty())
        .unwrap();
    let rgb = vec![RGB8 { r: 0, g: 0, b: 0 }; 4];
    let patch = ImageSource::from(Img::new(&rgb[..], 2, 2));
    assert_eq!(
        store.update(&mut void, id, patch, 0, 0),
        Err(ErrorKind::ImageUpdateWithDifferentFormat)
    );
    // the bounds are tested before the format
    assert_eq!(store.update(&mut void, id, patch, 3, 3), Err(ErrorKind::ImageUpdateOutOfBounds));
}

#[test]
fn clear_removes_everything() {
    let mut store = ImageStore::new();
    let mut void = Void::new();
    let pixels = rgba_pixels(4);
    let a = store
        .add(&mut void, ImageSource::from(Img::new(&pixels[..], 2, 2)), ImageFlags::empty())
        .unwrap();
    let b = store
        .add(&mut void, ImageSource::from(Img::new(&pixels[..], 2, 2)), ImageFlags::empty())
        .unwrap();
    store.clear(&mut void);
    assert!(store.get(a).is_none());
    assert!(store.get(b).is_none());
    let c = store
        .add(&mut void, ImageSource::from(Img::new(&pixels[..], 2, 2)), ImageFlags::empty())
        .unwrap();
    assert!(store.get(c).is_some());
    assert!(store.get(a).is_none());
}

#[test]
fn spent_handles_are_never_handed_out_again() {
    let mut store = ImageStore::new();
    let mut void = Void::new();
    let pixels = rgba_pixels(1);
    let mut spent: Vec<ImageId> = Vec::new();
    let mut live: Vec<ImageId> = Vec::new();
    for round in 0..40 {
        let id = store
            .add(&mut void, ImageSource::from(Img::new(&pixels[..], 1, 1)), ImageFlags::empty())
            .unwrap();
        assert!(!spent.contains(&id));
        assert!(!live.contains(&id));
        live.push(id);
        if round % 3 != 0 {
            let gone = live.remove(round % live.len());
            store.remove(&mut void, gone);
            spent.push(gone);
        }
        if round == 25 {
            store.clear(&mut void);
            spent.append(&mut live);
        }
        for id in &spent {
            assert!(store.get(*id).is_none());
        }
        for id in &live {
            assert!(store.get(*id).is_some());
        }
    }
}
