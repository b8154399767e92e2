use rocm_rs::rocarray::kernels::{calculate_range_len, Mappable, NumericOps, RangeOps, Reducible};
use rocm_rs::rocarray::random::RandomUtils;

#[test]
fn test_random_permutation() {
    let perm = RandomUtils::random_permutation(10, Some(42)).unwrap();
    assert_eq!(perm.len(), 10);

    // Check that all values 0-9 are present
    let mut sorted_perm = perm.clone();
    sorted_perm.sort();
    let expected: Vec<u32> = (0..10).collect();
    assert_eq!(sorted_perm, expected);
}

#[test]
fn test_sample_without_replacement() {
    let sample = RandomUtils::sample_without_replacement(100, 10, Some(42)).unwrap();
    assert_eq!(sample.len(), 10);

    // Check that all values are unique and in valid range
    let mut unique_sample = sample.clone();
    unique_sample.sort();
    unique_sample.dedup();
    assert_eq!(unique_sample.len(), 10); // All values should be unique
    assert!(sample.iter().all(|&x| x < 100)); // All values should be < 100
}

#[test]
fn unseeded_permutation_is_identity() {
    assert_eq!(RandomUtils::random_permutation(5, None).unwrap(), vec![0, 1, 2, 3, 4]);
    assert_eq!(RandomUtils::random_permutation(0, Some(1)).unwrap(), Vec::<u32>::new());
    assert_eq!(RandomUtils::sample_without_replacement(5, 3, None).unwrap(), vec![0, 1, 2]);
}

#[test]
fn oversized_sample_is_refused() {
    match RandomUtils::sample_without_replacement(3, 4, Some(1)) {
        Err(rocm_rs::error::Error::Custom(m)) => {
            assert_eq!(m, "Sample size cannot be larger than population size")
        }
        _ => panic!("expected an error"),
    }
}

#[test]
fn shuffle_follows_keys() {
    // step 3 swaps 3 with 9 % 4 = 1, step 2 swaps 2 with 5 % 3 = 2, step 1 swaps 1 with 4 % 2 = 0
    let out = RandomUtils::shuffle(vec![0, 1, 2, 3], &[4, 5, 9]);
    assert_eq!(out, vec![3, 0, 2, 1]);
}

#[test]
fn kernel_names() {
    assert_eq!(<i32 as NumericOps>::TYPE_NAME, "int");
    assert_eq!(<u64 as NumericOps>::TYPE_NAME, "ulong");
    assert_eq!(<u32 as RangeOps>::range_kernel_name(), "generic_range");
    assert_eq!(<i64 as Reducible>::reduce_kernel_name(), "generic_reduce");
    assert_eq!(<i32 as Mappable<u32>>::map_kernel_name(), "generic_map");
    assert_eq!(<u64 as Mappable<i64>>::map_kernel_name(), "generic_map");
    assert_eq!(calculate_range_len(0i32, 10, 1).unwrap(), 100);
}

#[test]
fn a_seed_fixes_the_permutation_and_the_sample() {
    let a = RandomUtils::random_permutation(12, Some(7)).unwrap();
    let b = RandomUtils::random_permutation(12, Some(7)).unwrap();
    assert_eq!(a, b);
    let sample = RandomUtils::sample_without_replacement(12, 5, Some(7)).unwrap();
    assert_eq!(sample, a[..5].to_vec());
}
