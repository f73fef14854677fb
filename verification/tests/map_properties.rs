use const_array_map::keys::{KeyU16, KeyU32, KeyU64, KeyU8, KeyUsize};
use const_array_map::map::{key_to_index, ConstArrayMap, PrimitiveEnum};

type Letter = KeyU8<4>;

fn letter(value: u8) -> Letter {
    KeyU8::new(value).unwrap()
}

#[test]
fn round_trip_indices_in_range_and_distinct() {
    let mut seen = [false; 4];
    for value in 0..4u8 {
        let i = key_to_index(letter(value));
        assert!(i < 4);
        assert!(!seen[i], "two keys map to slot {i}");
        seen[i] = true;
    }
    assert!(seen.iter().all(|&s| s));
}

#[test]
fn keys_outside_the_domain_are_not_constructible() {
    assert!(KeyU8::<4>::new(3).is_some());
    assert!(KeyU8::<4>::new(4).is_none());
    assert!(KeyU8::<4>::new(255).is_none());
    assert!(KeyU16::<4>::new(4).is_none());
    assert!(KeyU32::<4>::new(4).is_none());
    assert!(KeyU64::<4>::new(4).is_none());
    assert!(KeyUsize::<4>::new(4).is_none());
}

#[test]
fn last_write_wins() {
    let k = letter(2);
    let pairs = vec![(k, 10u64), (k, 20u64)];
    let m = ConstArrayMap::from_pairs(0, &pairs);
    assert_eq!(*m.get(k), 20);
}

#[test]
fn default_fill_returns_default_at_every_key() {
    let m: ConstArrayMap<Letter, char> = ConstArrayMap::filled('d');
    for value in 0..4u8 {
        assert_eq!(*m.get(letter(value)), 'd');
    }
}

#[test]
fn mutation_is_visible_and_leaves_other_keys_alone() {
    let mut m: ConstArrayMap<Letter, u32> = ConstArrayMap::filled(0);
    *m.get_mut(letter(1)) = 77;
    assert_eq!(*m.get(letter(1)), 77);
    assert_eq!(*m.get(letter(0)), 0);
    assert_eq!(*m.get(letter(2)), 0);
    assert_eq!(*m.get(letter(3)), 0);
}

#[test]
fn checked_and_unchecked_accessors_agree() {
    let pairs: Vec<(Letter, i32)> = (0..4u8).map(|v| (letter(v), -(v as i32))).collect();
    let mut m = ConstArrayMap::from_pairs(0, &pairs);
    for value in 0..4u8 {
        assert_eq!(m.get(letter(value)), m.const_get(letter(value)));
    }
    *m.const_get_mut(letter(2)) = 9;
    assert_eq!(*m.get(letter(2)), 9);
    assert_eq!(*m.get_mut(letter(2)), 9);
    assert_eq!(*m.const_get(letter(2)), 9);
}

#[test]
fn letters_scenario() {
    let a = letter(0);
    let b = letter(1);
    let c = letter(2);
    let d = letter(3);
    let pairs = vec![(a, 'a'), (b, 'b'), (c, 'c'), (d, 'd')];
    let mut letters = ConstArrayMap::from_pairs('-', &pairs);

    assert_eq!(*letters.get(a), 'a');
    assert_eq!(*letters.const_get(c), 'c');

    *letters.get_mut(b) = 'x';
    assert_eq!(*letters.get(b), 'x');
    assert_eq!(*letters.get(a), 'a');
}

#[test]
fn single_value_domain_has_one_slot() {
    type One = KeyU8<1>;
    assert_eq!(One::slot_count(), 1);
    assert!(KeyU8::<1>::new(1).is_none());
    let k = KeyU8::<1>::new(0).unwrap();
    let mut m: ConstArrayMap<One, u8> = ConstArrayMap::filled(5);
    assert_eq!(m.values().len(), 1);
    assert_eq!(*m.get(k), 5);
    *m.get_mut(k) = 6;
    assert_eq!(m.into_values(), vec![6]);
}

#[test]
fn cross_width_domains_behave_identically() {
    let values: Vec<char> = vec!['p', 'q', 'r', 's'];

    let m8 = ConstArrayMap::from_pairs(
        ' ',
        &(0..4u8).map(|v| (KeyU8::<4>::new(v).unwrap(), values[v as usize])).collect(),
    );
    let m16 = ConstArrayMap::from_pairs(
        ' ',
        &(0..4u16).map(|v| (KeyU16::<4>::new(v).unwrap(), values[v as usize])).collect(),
    );
    let m32 = ConstArrayMap::from_pairs(
        ' ',
        &(0..4u32).map(|v| (KeyU32::<4>::new(v).unwrap(), values[v as usize])).collect(),
    );
    let m64 = ConstArrayMap::from_pairs(
        ' ',
        &(0..4u64).map(|v| (KeyU64::<4>::new(v).unwrap(), values[v as usize])).collect(),
    );
    let mn = ConstArrayMap::from_pairs(
        ' ',
        &(0..4usize).map(|v| (KeyUsize::<4>::new(v).unwrap(), values[v])).collect(),
    );

    for v in 0..4usize {
        let expected = values[v];
        assert_eq!(*m8.get(KeyU8::new(v as u8).unwrap()), expected);
        assert_eq!(*m16.get(KeyU16::new(v as u16).unwrap()), expected);
        assert_eq!(*m32.get(KeyU32::new(v as u32).unwrap()), expected);
        assert_eq!(*m64.get(KeyU64::new(v as u64).unwrap()), expected);
        assert_eq!(*mn.get(KeyUsize::new(v).unwrap()), expected);
    }
}

#[test]
fn values_come_out_in_ascending_slot_order() {
    let pairs = vec![
        (letter(3), 30u64),
        (letter(0), 0u64),
        (letter(2), 20u64),
        (letter(1), 10u64),
    ];
    let m = ConstArrayMap::from_pairs(99, &pairs);
    assert_eq!(m.values(), vec![0, 10, 20, 30]);
    assert_eq!(m.values(), vec![0, 10, 20, 30]);
    assert_eq!(m.into_values(), vec![0, 10, 20, 30]);
}

#[test]
fn unwritten_slots_keep_the_default() {
    let pairs = vec![(letter(1), 'b')];
    let m = ConstArrayMap::from_pairs('-', &pairs);
    assert_eq!(*m.get(letter(0)), '-');
    assert_eq!(*m.get(letter(1)), 'b');
    assert_eq!(*m.get(letter(2)), '-');
    assert_eq!(*m.get(letter(3)), '-');
}
