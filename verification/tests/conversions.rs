use const_array_map::keys::{KeyU16, KeyU8};
use const_array_map::utils::{into_usize, transmute_copy_safe, transmute_safe};

#[test]
fn widening_preserves_the_value_at_every_width() {
    assert_eq!(into_usize(0u8), 0usize);
    assert_eq!(into_usize(255u8), 255usize);
    assert_eq!(into_usize(65535u16), 65535usize);
    assert_eq!(into_usize(7u32), 7usize);
    assert_eq!(into_usize(1u64 << 40), 1usize << 40);
    assert_eq!(into_usize(42usize), 42usize);
}

#[test]
fn keys_reinterpret_as_their_discriminants() {
    let k = KeyU8::<4>::new(3).unwrap();
    let d: u8 = transmute_safe(k);
    assert_eq!(d, 3u8);
    let d_ref: u8 = transmute_copy_safe(&k);
    assert_eq!(d_ref, 3u8);

    let w = KeyU16::<300>::new(299).unwrap();
    let d16: u16 = transmute_safe(w);
    assert_eq!(d16, 299u16);
}
