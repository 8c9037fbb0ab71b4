use easel::chart::{prime_factor, Columns, Histogram, Rect, Throttle};
use easel::fill::FillStyle;
use easel::size::SizeU32;

fn exponents_of(n: u32) -> Vec<u32> {
    let mut sieve = rk_primes::Sieve::default();
    let mut powers = Vec::new();
    prime_factor(&mut sieve, &mut powers, n);
    powers
}

#[test]
fn prime_factor_small_values() {
    assert_eq!(exponents_of(0), vec![]);
    assert_eq!(exponents_of(1), vec![]);
    assert_eq!(exponents_of(2), vec![1]);
    assert_eq!(exponents_of(3), vec![0, 1]);
    assert_eq!(exponents_of(4), vec![2]);
    assert_eq!(exponents_of(6), vec![1, 1]);
    assert_eq!(exponents_of(12), vec![2, 1]);
    assert_eq!(exponents_of(18), vec![1, 2]);
    assert_eq!(exponents_of(35), vec![0, 0, 1, 1]);
    assert_eq!(exponents_of(97), vec![0, 0, 0, 0, 0, 0, 0, 0, 0, 0, 0, 0, 0, 0, 0, 0,
        0, 0, 0, 0, 0, 0, 0, 0, 1]);
}

fn is_prime(n: u32) -> bool {
    n >= 2 && (2..n).all(|d| n % d != 0)
}

#[test]
fn prime_factor_product_rebuilds_value() {
    let primes: Vec<u32> = (2..500u32).filter(|&n| is_prime(n)).collect();
    for n in 2..500u32 {
        let powers = exponents_of(n);
        assert!(powers.len() <= primes.len());
        let mut product: u64 = 1;
        for (k, &e) in powers.iter().enumerate() {
            product *= (primes[k] as u64).pow(e);
        }
        assert_eq!(product, n as u64, "factoring {n}");
        assert!(*powers.last().unwrap() > 0, "trailing zero for {n}");
    }
}

#[test]
fn histogram_counts_and_factors() {
    let mut sieve = rk_primes::Sieve::default();
    let mut h = Histogram::new();
    assert_eq!(h.value(), 1);
    h.incr(&mut sieve);
    assert_eq!(h.value(), 2);
    assert_eq!(h.powers().as_slice(), &[1]);
    for _ in 0..10 {
        h.incr(&mut sieve);
    }
    assert_eq!(h.value(), 12);
    assert_eq!(h.powers().as_slice(), &[2, 1]);
}

#[test]
fn columns_lay_out_bricks() {
    let powers = vec![2u32, 1];
    let canvas = SizeU32 { height: 320, width: 800 };
    let mut cols = Columns::new(&powers, canvas);
    // Two columns: brick width 400; tallest column has two bricks, so the
    // brick height is 160.
    let first = cols.next().expect("first column");
    assert_eq!(first, vec![
        Rect { x: 2, y: 2, w: 396, h: 156 },
        Rect { x: 2, y: 162, w: 396, h: 156 },
    ]);
    let second = cols.next().expect("second column");
    assert_eq!(second, vec![Rect { x: 402, y: 2, w: 396, h: 156 }]);
    assert!(cols.next().is_none());
}

#[test]
fn columns_survive_degenerate_input() {
    let powers: Vec<u32> = Vec::new();
    let mut cols = Columns::new(&powers, SizeU32 { height: 10, width: 10 });
    assert!(cols.next().is_none());
    let zeros = vec![0u32, 0];
    let mut cols = Columns::new(&zeros, SizeU32 { height: 10, width: 10 });
    assert_eq!(cols.next(), Some(vec![]));
    assert_eq!(cols.next(), Some(vec![]));
    assert!(cols.next().is_none());
}

#[test]
fn throttle_skips_all_but_every_period() {
    let mut t = Throttle::new(3);
    let kept: Vec<bool> = (0..7).map(|_| !t.skip()).collect();
    assert_eq!(kept, vec![true, false, false, true, false, false, true]);
    let mut always = Throttle::new(1);
    assert!(!always.skip());
    assert!(!always.skip());
}

#[test]
fn fill_styles_cycle() {
    assert_eq!(FillStyle::Color.get(0), "#FF0000");
    assert_eq!(FillStyle::Color.get(13), "#000080");
    assert_eq!(FillStyle::Color.get(14), "#FF0000");
    // Grayscale channel: 15 + (index % 16) * 14, twice per channel in hex.
    assert_eq!(FillStyle::Grayscale.get(0), "#0f0f0f");
    assert_eq!(FillStyle::Grayscale.get(1), "#1d1d1d");
    assert_eq!(FillStyle::Grayscale.get(15), "#e1e1e1");
    assert_eq!(FillStyle::Grayscale.get(16), "#0f0f0f");
    for k in 0..16usize {
        let want = format!("#{v:02x}{v:02x}{v:02x}", v = 15 + k % 16 * 14);
        assert_eq!(FillStyle::Grayscale.get(k), want);
    }
}
