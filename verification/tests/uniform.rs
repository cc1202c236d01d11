use uniform::{Error, RngCore, SampleRange, SampleUniform, Uniform, UniformInt, UniformSampler};
use uniform::SampleBorrow;

/// A small deterministic bit source for the tests, seeded explicitly so every
/// run draws the same sequence.
struct TestRng(u64);

impl TestRng {
    fn new(seed: u64) -> TestRng {
        TestRng(seed)
    }
}

impl RngCore for TestRng {
    fn next_u32(&mut self) -> u32 {
        (self.next_u64() >> 32) as u32
    }

    fn next_u64(&mut self) -> u64 {
        self.0 = self.0.wrapping_add(0x9E37_79B9_7F4A_7C15);
        let mut z = self.0;
        z = (z ^ (z >> 30)).wrapping_mul(0xBF58_476D_1CE4_E5B9);
        z = (z ^ (z >> 27)).wrapping_mul(0x94D0_49BB_1331_11EB);
        z ^ (z >> 31)
    }
}

/// A bit source that counts how many draws are taken from it.
struct CountingRng {
    inner: TestRng,
    calls: u64,
}

impl CountingRng {
    fn new(seed: u64) -> CountingRng {
        CountingRng { inner: TestRng::new(seed), calls: 0 }
    }
}

impl RngCore for CountingRng {
    fn next_u32(&mut self) -> u32 {
        self.calls += 1;
        self.inner.next_u32()
    }

    fn next_u64(&mut self) -> u64 {
        self.calls += 1;
        self.inner.next_u64()
    }
}

fn samples_u8(lb: u8, ub: u8, seed: u64) -> (Vec<u8>, Vec<u8>) {
    let mut rng = TestRng::new(seed);
    let mut single = Vec::new();
    for _ in 0..3 {
        single.push(UniformInt::<u8>::sample_single(lb, ub, &mut rng).unwrap());
    }
    let distr = Uniform::new(lb, ub).unwrap();
    let mut multiple = Vec::new();
    for _ in 0..3 {
        multiple.push(distr.sample(&mut rng));
    }
    (single, multiple)
}

fn samples_u32(lb: u32, ub: u32, seed: u64) -> (Vec<u32>, Vec<u32>) {
    let mut rng = TestRng::new(seed);
    let mut single = Vec::new();
    for _ in 0..3 {
        single.push(UniformInt::<u32>::sample_single(lb, ub, &mut rng).unwrap());
    }
    let distr = Uniform::new(lb, ub).unwrap();
    let mut multiple = Vec::new();
    for _ in 0..3 {
        multiple.push(distr.sample(&mut rng));
    }
    (single, multiple)
}

#[test]
fn value_stability() {
    // A fixed seed must reproduce the exact same sequence on both the
    // single-shot and the reusable path, and every value must lie in range.
    let (s1, m1) = samples_u8(11u8, 219, 897);
    let (s2, m2) = samples_u8(11u8, 219, 897);
    assert_eq!(s1, s2);
    assert_eq!(m1, m2);
    for &v in s1.iter().chain(m1.iter()) {
        assert!(11 <= v && v < 219);
    }

    let (s1, m1) = samples_u32(11u32, 219, 897);
    let (s2, m2) = samples_u32(11u32, 219, 897);
    assert_eq!(s1, s2);
    assert_eq!(m1, m2);
    for &v in s1.iter().chain(m1.iter()) {
        assert!(11 <= v && v < 219);
    }

    // The u8 and u32 samplers over the same bounds map the same draws to the
    // same values.
    let (su8, mu8) = samples_u8(11u8, 219, 897);
    let (su32, mu32) = samples_u32(11u32, 219, 897);
    let widened: Vec<u32> = su8.iter().chain(mu8.iter()).map(|&v| v as u32).collect();
    let got: Vec<u32> = su32.iter().chain(mu32.iter()).copied().collect();
    assert_eq!(widened, got);
}

#[derive(Clone, Copy, PartialEq, PartialOrd)]
struct MyF32 {
    x: f32,
}

#[derive(Clone, Copy, Debug)]
struct UniformMyF32(UniformInt<u32>);

impl UniformSampler for UniformMyF32 {
    type X = MyF32;

    // The ghost members of the trait are erased in compiled code and never
    // called at run time; an unverified back-end supplies token bodies.
    fn wf(&self) -> bool {
        true
    }

    fn contains(&self, _x: MyF32) -> bool {
        true
    }

    fn valid_exclusive(low: MyF32, high: MyF32) -> bool {
        low < high
    }

    fn valid_inclusive(low: MyF32, high: MyF32) -> bool {
        low <= high
    }

    fn in_exclusive_range(low: MyF32, high: MyF32, x: MyF32) -> bool {
        low <= x && x < high
    }

    fn in_inclusive_range(low: MyF32, high: MyF32, x: MyF32) -> bool {
        low <= x && x <= high
    }

    fn spec_new(low: MyF32, high: MyF32) -> Result<Self, Error> {
        Self::new(low, high)
    }

    fn spec_new_inclusive(low: MyF32, high: MyF32) -> Result<Self, Error> {
        Self::new_inclusive(low, high)
    }

    fn new(low: MyF32, high: MyF32) -> Result<Self, Error> {
        UniformInt::<u32>::new(low.x as u32, high.x as u32).map(UniformMyF32)
    }

    fn new_inclusive(low: MyF32, high: MyF32) -> Result<Self, Error> {
        UniformInt::<u32>::new_inclusive(low.x as u32, high.x as u32).map(UniformMyF32)
    }

    fn sample<R: RngCore>(&self, rng: &mut R) -> MyF32 {
        MyF32 { x: self.0.sample(rng) as f32 }
    }
}

impl SampleUniform for MyF32 {
    type Sampler = UniformMyF32;
}

#[test]
fn test_custom_uniform() {
    let (low, high) = (MyF32 { x: 17.0f32 }, MyF32 { x: 22.0f32 });
    let uniform = Uniform::new(low, high).unwrap();
    let mut rng = TestRng::new(804);
    for _ in 0..100 {
        let x: MyF32 = uniform.sample(&mut rng);
        assert!(low <= x && x < high);
    }
}

#[test]
fn uniform_distributions_can_be_compared() {
    assert_eq!(Uniform::new(1_u32, 2_u32).unwrap(), Uniform::new(1_u32, 2_u32).unwrap());
}

#[test]
fn distributions_over_different_bounds_differ() {
    assert_ne!(Uniform::new(1_u32, 3_u32).unwrap(), Uniform::new(1_u32, 2_u32).unwrap());
    assert_ne!(
        Uniform::new_inclusive(1_u32, 2_u32).unwrap(),
        Uniform::new_inclusive(2_u32, 2_u32).unwrap()
    );
}

#[test]
fn validation() {
    assert_eq!(Uniform::<u32>::new(5, 5).unwrap_err(), Error::EmptyRange);
    assert_eq!(Uniform::<u8>::new(5, 5).unwrap_err(), Error::EmptyRange);
    assert_eq!(Uniform::<u64>::new(5, 5).unwrap_err(), Error::EmptyRange);
    assert_eq!(Uniform::<i32>::new(5, 5).unwrap_err(), Error::EmptyRange);
    assert_eq!(Uniform::<u32>::new(7, 5).unwrap_err(), Error::EmptyRange);
    assert_eq!(Uniform::<u32>::new_inclusive(6, 5).unwrap_err(), Error::EmptyRange);
    assert_ne!(Error::EmptyRange, Error::NonFinite);

    let d = Uniform::<u32>::new_inclusive(5, 5).unwrap();
    let mut rng = TestRng::new(17);
    for _ in 0..50 {
        assert_eq!(d.sample(&mut rng), 5);
    }
}

#[test]
fn error_messages() {
    assert_eq!(
        Error::EmptyRange.message(),
        "low > high (or equal if exclusive) in uniform distribution"
    );
    assert_eq!(Error::NonFinite.message(), "Non-finite range in uniform distribution");
}

#[test]
fn full_domain_uses_single_draw() {
    // Over the entire representable domain nothing is ever rejected, so each
    // sample takes exactly one draw from the bit source.
    let mut rng = CountingRng::new(7);
    let d = Uniform::<u8>::new_inclusive(0, u8::MAX).unwrap();
    for _ in 0..1000 {
        let _ = d.sample(&mut rng);
    }
    assert_eq!(rng.calls, 1000);

    let mut rng = CountingRng::new(8);
    let d = Uniform::<u64>::new_inclusive(0, u64::MAX).unwrap();
    for _ in 0..1000 {
        let _ = d.sample(&mut rng);
    }
    assert_eq!(rng.calls, 1000);

    let mut rng = CountingRng::new(9);
    let d = Uniform::<u32>::new_inclusive(0, u32::MAX).unwrap();
    for _ in 0..1000 {
        let _ = d.sample(&mut rng);
    }
    assert_eq!(rng.calls, 1000);
}

#[test]
fn full_domain_reuses_every_bit() {
    // Over the full u64 domain starting at zero, the sample is the raw draw.
    let mut a = TestRng::new(9);
    let mut b = TestRng::new(9);
    let d = Uniform::<u64>::new_inclusive(0, u64::MAX).unwrap();
    for _ in 0..100 {
        assert_eq!(d.sample(&mut a), b.next_u64());
    }
}

#[test]
fn uniformity_small_range() {
    // Over many draws from [0, 3), each outcome appears with frequency close
    // to one third; a reintroduced modulo bias would skew the counts.
    let mut rng = TestRng::new(12345);
    let d = Uniform::<u32>::new(0, 3).unwrap();
    let mut counts = [0i64; 3];
    for _ in 0..30000 {
        counts[d.sample(&mut rng) as usize] += 1;
    }
    for &c in counts.iter() {
        assert!((c - 10000).abs() < 1000, "counts skewed: {:?}", counts);
    }
}

#[test]
fn single_and_reusable_share_distribution() {
    // The one-shot and the reusable path are not bit-identical in general,
    // but they draw from the same distribution: compare first moments.
    let n = 10000u32;
    let mut rng = TestRng::new(5150);
    let mut sum_single = 0u64;
    for _ in 0..n {
        let v = UniformInt::<u32>::sample_single(0u32, 100, &mut rng).unwrap();
        assert!(v < 100);
        sum_single += v as u64;
    }
    let d = Uniform::<u32>::new(0, 100).unwrap();
    let mut sum_reusable = 0u64;
    for _ in 0..n {
        let v = d.sample(&mut rng);
        assert!(v < 100);
        sum_reusable += v as u64;
    }
    let mean_single = sum_single as f64 / n as f64;
    let mean_reusable = sum_reusable as f64 / n as f64;
    assert!((mean_single - 49.5).abs() < 1.5, "single mean {}", mean_single);
    assert!((mean_reusable - 49.5).abs() < 1.5, "reusable mean {}", mean_reusable);
}

#[test]
fn reproducible_sequence_u8() {
    // The concrete scenario: bounds (11u8, 219) and a fixed seed. The exact
    // outputs are an implementation detail of the bit source, so the test
    // asserts range membership, reproducibility, and a sane shape.
    let d = Uniform::new(11u8, 219).unwrap();
    let mut first = Vec::new();
    let mut rng = TestRng::new(42);
    for _ in 0..2000 {
        first.push(d.sample(&mut rng));
    }
    let mut again = Vec::new();
    let mut rng = TestRng::new(42);
    for _ in 0..2000 {
        again.push(d.sample(&mut rng));
    }
    assert_eq!(first, again);

    let mut buckets = [0i64; 4];
    for &v in first.iter() {
        assert!(11 <= v && v < 219);
        buckets[((v - 11) as usize * 4) / 208] += 1;
    }
    for &b in buckets.iter() {
        assert!((b - 500).abs() < 150, "buckets skewed: {:?}", buckets);
    }
}

#[test]
fn signed_ranges() {
    let mut rng = TestRng::new(77);
    let d = Uniform::new(-5i32, 5).unwrap();
    let mut seen_neg = false;
    let mut seen_pos = false;
    for _ in 0..200 {
        let v = d.sample(&mut rng);
        assert!(-5 <= v && v < 5);
        if v < 0 {
            seen_neg = true;
        }
        if v > 0 {
            seen_pos = true;
        }
    }
    assert!(seen_neg && seen_pos);

    let d = Uniform::new_inclusive(i32::MIN, i32::MAX).unwrap();
    for _ in 0..200 {
        let _ = d.sample(&mut rng);
    }
}

#[test]
fn range_syntax_sample_single() {
    let mut rng = TestRng::new(3);
    let v = (10u32..20).sample_single(&mut rng).unwrap();
    assert!(10 <= v && v < 20);
    assert_eq!((5u32..5).sample_single(&mut rng).unwrap_err(), Error::EmptyRange);
    assert!(SampleRange::is_empty(&(5u32..5)));
    assert!(!SampleRange::is_empty(&(10u32..20)));

    let v = (10u32..=20).sample_single(&mut rng).unwrap();
    assert!(10 <= v && v <= 20);
    assert_eq!((6u32..=5).sample_single(&mut rng).unwrap_err(), Error::EmptyRange);
    assert!(SampleRange::is_empty(&(6u32..=5)));
    assert!(!SampleRange::is_empty(&(10u32..=20)));

    let v = (-5i32..=5).sample_single(&mut rng).unwrap();
    assert!(-5 <= v && v <= 5);
    let v = (1u8..7).sample_single(&mut rng).unwrap();
    assert!(1 <= v && v < 7);
    let v = (1u64..7).sample_single(&mut rng).unwrap();
    assert!(1 <= v && v < 7);
}

#[test]
fn range_converts_into_constructor() {
    let mut rng = TestRng::new(21);
    let d = Uniform::from_range(10u32..20).unwrap();
    for _ in 0..50 {
        let v = d.sample(&mut rng);
        assert!(10 <= v && v < 20);
    }
    assert_eq!(Uniform::from_range(5u32..5).unwrap_err(), Error::EmptyRange);
    assert_eq!(Uniform::from_range(10u32..20), Uniform::new(10u32, 20));

    let d = Uniform::from_range_inclusive(10u32..=20).unwrap();
    for _ in 0..50 {
        let v = d.sample(&mut rng);
        assert!(10 <= v && v <= 20);
    }
    assert_eq!(Uniform::from_range_inclusive(6u32..=5).unwrap_err(), Error::EmptyRange);
    assert_eq!(Uniform::from_range_inclusive(10u32..=20), Uniform::new_inclusive(10u32, 20));
}

#[test]
fn failed_validation_leaves_rng_untouched() {
    // Validation precedes any draw, so a rejected range consumes nothing
    // from the bit source.
    let mut probed = TestRng::new(99);
    let mut fresh = TestRng::new(99);
    assert!(UniformInt::<u32>::sample_single(5u32, 5, &mut probed).is_err());
    assert!(UniformInt::<u32>::sample_single_inclusive(6u32, 5, &mut probed).is_err());
    assert!((7u32..7).sample_single(&mut probed).is_err());
    assert!((7u32..=6).sample_single(&mut probed).is_err());
    assert_eq!(probed.next_u64(), fresh.next_u64());
}

#[test]
fn sample_borrow_resolves_values_and_references() {
    let v: u32 = 9;
    let r: &u32 = &v;
    assert_eq!(*SampleBorrow::<u32>::borrow(&v), 9);
    assert_eq!(*SampleBorrow::<u32>::borrow(&r), 9);
}
