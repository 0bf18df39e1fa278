use printschema::media::MediaSizeTuple;
use std::collections::hash_map::DefaultHasher;
use std::hash::{Hash, Hasher};

#[test]
fn test_getter_and_setter() {
    let mut size = MediaSizeTuple::mm(210, 297);
    assert_eq!(size.width_in_micron(), 210000);
    assert_eq!(size.height_in_micron(), 297000);
    size.set_width_in_micron(297000);
    size.set_height_in_micron(210000);
    assert_eq!(size.width_in_micron(), 297000);
    assert_eq!(size.height_in_micron(), 210000);
}

#[test]
fn test_debug_fmt() {
    assert_eq!(
        MediaSizeTuple::mm(210, 297).describe(),
        "MediaSizeTuple(21.0000 cm × 29.7000 cm)"
    );
    assert_eq!(
        MediaSizeTuple::micron(210001, 297001).describe(),
        "MediaSizeTuple(21.0001 cm × 29.7001 cm)"
    );
}

#[test]
fn test_eq() {
    assert_eq!(
        MediaSizeTuple::micron(210000, 297000),
        MediaSizeTuple::mm(210, 297)
    );
}

#[test]
fn test_clone() {
    let size = MediaSizeTuple::mm(210, 297);
    assert_eq!(size, size.clone());
}

#[test]
fn test_hash() {
    let hash1 = {
        let mut hasher = DefaultHasher::new();
        MediaSizeTuple::mm(210, 297).hash(&mut hasher);
        hasher.finish()
    };
    let hash2 = {
        let mut hasher = DefaultHasher::new();
        MediaSizeTuple::micron(210000, 297000).hash(&mut hasher);
        hasher.finish()
    };
    assert_eq!(hash1, hash2);
}

#[test]
fn test_is_roll() {
    assert_eq!(MediaSizeTuple::mm(210, 297).is_roll(), false);
    assert!(MediaSizeTuple::mm(210, 0).is_roll());
    assert!(MediaSizeTuple::mm(0, 297).is_roll());
}

#[test]
fn describe_pads_the_fraction() {
    assert_eq!(
        MediaSizeTuple::micron(10, 1010).describe(),
        "MediaSizeTuple(0.0010 cm × 0.1010 cm)"
    );
}
