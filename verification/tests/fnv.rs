use lz_fnv::Fnv0;
use lz_fnv::Fnv1;
use lz_fnv::Fnv1a;
use lz_fnv::FnvHasher;

#[test]
fn fnv0_32_prime_calculation() {
    let mut fnv0 = Fnv0::<u32>::new();

    fnv0.write(b"chongo <Landon Curt Noll> /\\../\\");

    let result = fnv0.finish();

    assert_eq!(result, 0x811c9dc5);
}

#[test]
fn fnv0_64_prime_calculation() {
    let mut fnv0 = Fnv0::<u64>::new();

    fnv0.write(b"chongo <Landon Curt Noll> /\\../\\");

    let result = fnv0.finish();

    assert_eq!(result, 0xcbf29ce484222325);
}

#[test]
fn empty_hash() {
    let fnv128a = Fnv1a::<u128>::default();

    let hash = fnv128a.finish();

    assert_eq!(hash, 0x6C62272E07BB014262B821756295C58D_u128);
}

#[test]
fn test_hash() {
    let mut fnv128a = Fnv1a::<u128>::default();
    fnv128a.write(b"foobar");

    let hash = fnv128a.finish();

    assert_eq!(hash, 0x343e1662793c64bf6f0d3597ba446f18_u128);
}

#[test]
fn determinism_same_input_same_digest() {
    let mut a = Fnv1a::<u64>::new();
    let mut b = Fnv1a::<u64>::new();
    a.write(b"determinism");
    b.write(b"determinism");
    assert_eq!(a.finish(), b.finish());

    let mut c = Fnv1::<u32>::new();
    let mut d = Fnv1::<u32>::new();
    c.write(b"determinism");
    d.write(b"determinism");
    assert_eq!(c.finish(), d.finish());

    let mut e = Fnv0::<u128>::with_key(872);
    let mut f = Fnv0::<u128>::with_key(872);
    e.write(b"determinism");
    f.write(b"determinism");
    assert_eq!(e.finish(), f.finish());
}

#[test]
fn streaming_equivalence_split_equals_whole() {
    let mut split = Fnv1a::<u64>::new();
    split.write(b"foo");
    split.write(b"bar");
    let mut whole = Fnv1a::<u64>::new();
    whole.write(b"foobar");
    assert_eq!(split.finish(), whole.finish());
    assert_eq!(whole.finish(), 0x85944171f73967e8);

    let mut split32 = Fnv1::<u32>::new();
    split32.write(b"");
    split32.write(b"foo");
    split32.write(b"");
    split32.write(b"bar");
    let mut whole32 = Fnv1::<u32>::new();
    whole32.write(b"foobar");
    assert_eq!(split32.finish(), whole32.finish());

    let mut split128 = Fnv1a::<u128>::new();
    split128.write(b"foo");
    split128.write(b"bar");
    let mut whole128 = Fnv1a::<u128>::new();
    whole128.write(b"foobar");
    assert_eq!(split128.finish(), whole128.finish());
}

#[test]
fn order_sensitivity_concrete_pair() {
    let mut forward = Fnv1a::<u32>::new();
    forward.write(&[0x01, 0x02]);
    let mut reversed = Fnv1a::<u32>::new();
    reversed.write(&[0x02, 0x01]);
    assert_eq!(forward.finish(), 0xed74208a);
    assert_eq!(reversed.finish(), 0x5c7b8b0c);
    assert_ne!(forward.finish(), reversed.finish());
}

#[test]
fn empty_input_leaves_offset_basis() {
    let mut fnv1_32 = Fnv1::<u32>::new();
    fnv1_32.write(b"");
    assert_eq!(fnv1_32.finish(), 0x811c9dc5);

    let mut fnv1a_64 = Fnv1a::<u64>::new();
    fnv1a_64.write(b"");
    assert_eq!(fnv1a_64.finish(), 0xcbf29ce484222325);

    let mut fnv1a_128 = Fnv1a::<u128>::new();
    fnv1a_128.write(b"");
    assert_eq!(fnv1a_128.finish(), 0x6C62272E07BB014262B821756295C58D_u128);
}

#[test]
fn empty_input_leaves_seed() {
    let mut seeded = Fnv0::<u64>::with_key(872);
    seeded.write(b"");
    assert_eq!(seeded.finish(), 872);

    let mut zeroed = Fnv0::<u32>::new();
    zeroed.write(b"");
    assert_eq!(zeroed.finish(), 0);
}

#[test]
fn known_answers_32() {
    let mut fnv1 = Fnv1::<u32>::new();
    fnv1.write(b"a");
    assert_eq!(fnv1.finish(), 0x050c5d7e);

    let mut fnv1a = Fnv1a::<u32>::new();
    fnv1a.write(b"a");
    assert_eq!(fnv1a.finish(), 0xe40c292c);

    let mut fnv1a_foobar = Fnv1a::<u32>::new();
    fnv1a_foobar.write(b"foobar");
    assert_eq!(fnv1a_foobar.finish(), 0xbf9cf968);
}

#[test]
fn known_answers_64() {
    let mut fnv1 = Fnv1::<u64>::new();
    fnv1.write(b"a");
    assert_eq!(fnv1.finish(), 0xaf63bd4c8601b7be);

    let mut fnv1_foobar = Fnv1::<u64>::new();
    fnv1_foobar.write(b"foobar");
    assert_eq!(fnv1_foobar.finish(), 0x340d8765a4dda9c2);
}

#[test]
fn known_answers_128() {
    let mut fnv1 = Fnv1::<u128>::new();
    fnv1.write(b"foobar");
    assert_eq!(fnv1.finish(), 0x7896bfea9c3c64bf6dc58353d2c293aa_u128);
}

#[test]
fn variant_distinctness_same_input() {
    let mut fnv1 = Fnv1::<u32>::new();
    fnv1.write(b"a");
    let mut fnv1a = Fnv1a::<u32>::new();
    fnv1a.write(b"a");
    assert_ne!(fnv1.finish(), fnv1a.finish());

    let mut fnv1_64 = Fnv1::<u64>::new();
    fnv1_64.write(b"foobar");
    let mut fnv1a_64 = Fnv1a::<u64>::new();
    fnv1a_64.write(b"foobar");
    assert_ne!(fnv1_64.finish(), fnv1a_64.finish());
}

#[test]
fn with_key_matches_default_basis() {
    let mut seeded = Fnv1a::<u64>::with_key(0xcbf29ce484222325);
    seeded.write(b"foobar");
    let mut fresh = Fnv1a::<u64>::new();
    fresh.write(b"foobar");
    assert_eq!(seeded.finish(), fresh.finish());

    let mut seeded32 = Fnv1::<u32>::with_key(0x811c9dc5);
    seeded32.write(b"a");
    let mut fresh32 = Fnv1::<u32>::new();
    fresh32.write(b"a");
    assert_eq!(seeded32.finish(), fresh32.finish());
}

#[test]
fn fnv0_computes_offset_basis_of_fnv1() {
    // The 128-bit offset basis is by definition the FNV-0 hash of the same
    // signature string the 32- and 64-bit bases come from.
    let mut fnv0 = Fnv0::<u128>::with_key(0);
    fnv0.write(b"chongo <Landon Curt Noll> /\\../\\");
    assert_eq!(fnv0.finish(), 0x6C62272E07BB014262B821756295C58D_u128);
}

#[test]
fn std_hasher_interface_matches_fnv_hasher() {
    let mut via_std = Fnv1a::<u64>::new();
    std::hash::Hasher::write(&mut via_std, b"foobar");
    assert_eq!(std::hash::Hasher::finish(&via_std), 0x85944171f73967e8);

    let mut fnv1 = Fnv1::<u64>::new();
    std::hash::Hasher::write(&mut fnv1, b"a");
    assert_eq!(std::hash::Hasher::finish(&fnv1), 0xaf63bd4c8601b7be);

    let mut fnv0 = Fnv0::<u64>::new();
    std::hash::Hasher::write(&mut fnv0, b"chongo <Landon Curt Noll> /\\../\\");
    assert_eq!(std::hash::Hasher::finish(&fnv0), 0xcbf29ce484222325);
}

#[test]
fn digest_is_a_pure_read() {
    let mut hasher = Fnv1a::<u32>::new();
    hasher.write(b"foo");
    let mid = hasher.finish();
    assert_eq!(mid, hasher.finish());
    hasher.write(b"bar");
    let mut whole = Fnv1a::<u32>::new();
    whole.write(b"foobar");
    assert_eq!(hasher.finish(), whole.finish());
}
