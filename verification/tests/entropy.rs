use mandelbrot_core::entropy::{bucket_counts, bucket_key, nonzero_counts, MAX_EXACT};

fn entropy(observed: &[u64], total: u64) -> f64 {
    let mut sum = 0.0;
    for count in observed {
        let p = *count as f64 / total as f64;
        sum += p * p.log2();
    }
    -sum
}

#[test]
fn bucket_key_is_zero_for_bounded_and_iteration_plus_one_for_escaped() {
    assert_eq!(bucket_key(None), 0);
    assert_eq!(bucket_key(Some(0)), 1);
    assert_eq!(bucket_key(Some(399)), 400);
    assert_eq!(bucket_key(Some(u32::MAX)), 4_294_967_296);
}

#[test]
fn bucket_counts_count_each_key_in_its_own_bucket() {
    let values = vec![None, Some(0), Some(3), None, Some(3), Some(3), Some(399)];
    let (counts, total) = bucket_counts(&values);
    assert_eq!(total, 7);
    assert!(counts.len() > 400);
    assert_eq!(counts[0], 2);
    assert_eq!(counts[1], 1);
    assert_eq!(counts[4], 3);
    assert_eq!(counts[400], 1);
    assert_eq!(counts.iter().sum::<u64>(), 7);
    assert_eq!(nonzero_counts(&counts), vec![2, 1, 3, 1]);
}

#[test]
fn bucket_counts_of_no_samples_are_all_zero() {
    let (counts, total) = bucket_counts(&Vec::new());
    assert_eq!(total, 0);
    assert!(counts.iter().all(|c| *c == 0));
    assert!(nonzero_counts(&counts).is_empty());
}

#[test]
fn keys_up_to_the_exact_limit_have_their_own_bucket() {
    let limit = MAX_EXACT as u32;
    let values = vec![Some(limit - 1), Some(limit - 2), Some(limit - 3)];
    let (counts, total) = bucket_counts(&values);
    assert_eq!(total, 3);
    assert_eq!(counts[limit as usize], 1);
    assert_eq!(counts[limit as usize - 1], 1);
    assert_eq!(counts[limit as usize - 2], 1);
    assert_eq!(nonzero_counts(&counts), vec![1, 1, 1]);
}

#[test]
fn large_keys_lie_behind_the_exact_buckets() {
    let values = vec![Some(5000), Some(0), Some(100_000), Some(u32::MAX)];
    let (counts, total) = bucket_counts(&values);
    assert_eq!(total, 4);
    assert_eq!(counts[1], 1);
    let exact: u64 = counts[..=MAX_EXACT as usize].iter().sum();
    assert_eq!(exact, 1);
    assert_eq!(counts.iter().sum::<u64>(), 4);
}

#[test]
fn nearby_large_keys_share_a_bucket() {
    // keys 1066 and 1067
    let values = vec![Some(1065), Some(1066)];
    let (counts, _) = bucket_counts(&values);
    assert_eq!(nonzero_counts(&counts), vec![2]);
}

#[test]
fn nonzero_counts_keeps_order() {
    assert_eq!(nonzero_counts(&vec![0, 5, 0, 0, 1, 7, 0]), vec![5, 1, 7]);
    assert!(nonzero_counts(&vec![0, 0]).is_empty());
    assert!(nonzero_counts(&Vec::new()).is_empty());
}

#[test]
fn entropy_of_single_bucket_is_zero() {
    let values: Vec<Option<u32>> = vec![None; 100];
    let (counts, total) = bucket_counts(&values);
    let observed = nonzero_counts(&counts);
    assert_eq!(observed, vec![100]);
    assert_eq!(entropy(&observed, total), 0.0);
    let values: Vec<Option<u32>> = vec![Some(17); 100];
    let (counts, total) = bucket_counts(&values);
    let observed = nonzero_counts(&counts);
    assert_eq!(observed, vec![100]);
    assert_eq!(entropy(&observed, total), 0.0);
}

#[test]
fn entropy_of_uniform_buckets_is_log2_of_their_number() {
    let values: Vec<Option<u32>> = (0..100u32)
        .map(|i| if i % 4 == 0 { None } else { Some(i % 4) })
        .collect();
    let (counts, total) = bucket_counts(&values);
    let observed = nonzero_counts(&counts);
    assert_eq!(observed, vec![25, 25, 25, 25]);
    assert_eq!(entropy(&observed, total), 2.0);
}
