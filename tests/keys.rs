use ycsb::keys::Uniform;

#[test]
fn uniform_index_is_draw_modulo_count() {
    let u = Uniform::new(10);
    assert_eq!(u.index_of(0), 0);
    assert_eq!(u.index_of(9), 9);
    assert_eq!(u.index_of(10), 0);
    assert_eq!(u.index_of(12345), 5);
    assert_eq!(u.index_of(u64::MAX), 5);
}

#[test]
fn uniform_single_key() {
    let u = Uniform::new(1);
    for _ in 0..100 {
        assert_eq!(u.next(), 0);
    }
}

#[test]
fn uniform_draws_stay_in_range() {
    let u = Uniform::new(7);
    for _ in 0..10_000 {
        assert!(u.next() < 7);
    }
}

#[test]
fn uniform_block_hits_each_index_once() {
    let u = Uniform::new(16);
    let mut seen = [0u32; 16];
    for raw in 16 * 1000..16 * 1001 {
        seen[u.index_of(raw) as usize] += 1;
    }
    assert!(seen.iter().all(|&c| c == 1));
}

#[test]
fn uniform_chi_squared() {
    // 20 bins, 19 degrees of freedom: the 0.1% critical value is 43.82.
    let n: u64 = 20;
    let draws: u64 = 200_000;
    let u = Uniform::new(n);
    let mut counts = vec![0u64; n as usize];
    for _ in 0..draws {
        counts[u.next() as usize] += 1;
    }
    let expected = draws as f64 / n as f64;
    let chi2: f64 = counts
        .iter()
        .map(|&c| {
            let d = c as f64 - expected;
            d * d / expected
        })
        .sum();
    assert!(chi2 < 43.82, "chi-squared {}", chi2);
}
