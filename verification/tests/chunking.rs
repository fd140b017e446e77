use dma_core::chunk::{compute_chunk_count, NDTR_MAX};

#[test]
fn chunk_count_for_200000_elements() {
    // giant transfer of 200,000 elements against the 65,535 limit
    let c = compute_chunk_count(200_000);
    assert_eq!(c, 4);
    assert_eq!(200_000 % c, 0);
    assert_eq!(200_000 / c, 50_000);
    assert!(200_000 / c <= NDTR_MAX);
}

#[test]
fn chunk_count_minimal_giant_length() {
    // the smallest even length above the limit
    let len = NDTR_MAX + 1; // 65,536
    let c = compute_chunk_count(len);
    assert_eq!(c, 2);
    assert_eq!(len / c, 32_768);
}

#[test]
fn chunk_count_prime_factor_forces_many_chunks() {
    // 131,074 = 2 * 65,537 with 65,537 prime: the smallest dividing
    // count above the estimate is 65,537, giving chunks of 2 elements
    let len = 131_074;
    let c = compute_chunk_count(len);
    assert_eq!(c, 65_537);
    assert_eq!(len / c, 2);
}

#[test]
fn chunk_count_for_exact_multiples_of_the_limit() {
    // 131,070 = 2 x 65,535: the ceiling of len / limit already divides
    // the length, so exactly two chunks of a full counter each are used
    let c = compute_chunk_count(131_070);
    assert_eq!(c, 2);
    assert_eq!(131_070 / c, 65_535);

    // 262,140 = 4 x 65,535
    let c4 = compute_chunk_count(262_140);
    assert_eq!(c4, 4);
    assert_eq!(262_140 / c4, 65_535);
}

#[test]
fn chunk_count_properties_hold_across_lengths() {
    for len in [65_536usize, 70_000, 100_002, 131_070, 131_072, 200_000, 262_140, 999_998] {
        let c = compute_chunk_count(len);
        // the count divides the length evenly
        assert_eq!(len % c, 0);
        // at least the ceiling of len / limit many chunks
        assert!(c * NDTR_MAX >= len);
        assert!(c >= 2);
        // each chunk fits the hardware counter
        assert!(len / c <= NDTR_MAX);
    }
}
