use half::f16;
use turbo_kv_cache::rotation::{rotate_forward, rotate_inverse, Step};
use turbo_kv_cache::turbo_quant::{
    dequantize_turbo4, fwht_128, nearest_centroid, quantize_turbo4, wht_sign1, wht_sign2,
    BlockTurbo4, BLOCK_TURBO4_BYTES, CENTROIDS_4BIT, GROUP, MID_4BIT,
};

const SIGNS1: [f32; GROUP] = [
    -1.0, 1.0, 1.0, -1.0, -1.0, 1.0, -1.0, 1.0, -1.0, -1.0, 1.0, 1.0, 1.0, 1.0, 1.0, 1.0,
    1.0, -1.0, 1.0, -1.0, 1.0, -1.0, -1.0, 1.0, 1.0, 1.0, -1.0, 1.0, 1.0, -1.0, -1.0, -1.0,
    -1.0, 1.0, 1.0, -1.0, 1.0, 1.0, -1.0, 1.0, -1.0, 1.0, 1.0, -1.0, -1.0, 1.0, -1.0, 1.0,
    1.0, 1.0, 1.0, -1.0, -1.0, -1.0, -1.0, -1.0, 1.0, -1.0, 1.0, 1.0, 1.0, 1.0, -1.0, 1.0,
    -1.0, -1.0, 1.0, -1.0, -1.0, -1.0, 1.0, -1.0, -1.0, -1.0, 1.0, -1.0, -1.0, -1.0, 1.0, 1.0,
    1.0, -1.0, -1.0, 1.0, 1.0, 1.0, -1.0, -1.0, 1.0, 1.0, -1.0, 1.0, 1.0, -1.0, 1.0, -1.0,
    -1.0, 1.0, 1.0, -1.0, 1.0, -1.0, 1.0, -1.0, 1.0, 1.0, 1.0, 1.0, -1.0, 1.0, -1.0, 1.0,
    1.0, -1.0, 1.0, 1.0, -1.0, -1.0, -1.0, -1.0, -1.0, 1.0, 1.0, -1.0, 1.0, 1.0, -1.0, 1.0,
];
const SIGNS2: [f32; GROUP] = [
    1.0, 1.0, 1.0, 1.0, -1.0, 1.0, 1.0, -1.0, 1.0, -1.0, -1.0, -1.0, 1.0, -1.0, -1.0, -1.0,
    1.0, 1.0, -1.0, -1.0, 1.0, -1.0, 1.0, -1.0, 1.0, -1.0, -1.0, 1.0, -1.0, 1.0, 1.0, 1.0,
    1.0, 1.0, -1.0, -1.0, -1.0, 1.0, -1.0, -1.0, -1.0, -1.0, -1.0, -1.0, 1.0, 1.0, 1.0, -1.0,
    1.0, -1.0, 1.0, 1.0, 1.0, -1.0, -1.0, 1.0, -1.0, -1.0, -1.0, -1.0, -1.0, -1.0, 1.0, 1.0,
    1.0, -1.0, 1.0, -1.0, -1.0, -1.0, -1.0, 1.0, -1.0, 1.0, -1.0, 1.0, -1.0, -1.0, 1.0, 1.0,
    -1.0, 1.0, -1.0, 1.0, 1.0, -1.0, 1.0, -1.0, -1.0, -1.0, -1.0, 1.0, -1.0, -1.0, 1.0, -1.0,
    1.0, -1.0, 1.0, 1.0, 1.0, -1.0, -1.0, 1.0, -1.0, 1.0, -1.0, 1.0, 1.0, -1.0, -1.0, 1.0,
    -1.0, 1.0, -1.0, 1.0, 1.0, -1.0, 1.0, -1.0, 1.0, -1.0, -1.0, -1.0, -1.0, -1.0, 1.0, -1.0,
];

const CENTROIDS: [f32; 16] = [
    -0.241529, -0.182877, -0.143016, -0.111036, -0.083292, -0.058050, -0.034299, -0.011349,
    0.011349, 0.034299, 0.058050, 0.083292, 0.111036, 0.143016, 0.182877, 0.241529,
];
const MIDPOINTS: [f32; 15] = [
    -0.212203, -0.162947, -0.127026, -0.097164, -0.070671, -0.046174, -0.022824, 0.000000,
    0.022824, 0.046174, 0.070671, 0.097164, 0.127026, 0.162947, 0.212203,
];

const INV_SQRT_GROUP: f32 = 0.088_388_35;

fn millionths(n: i32) -> f32 {
    (f64::from(n) / 1e6) as f32
}

fn follow(x: &mut [f32; GROUP], steps: Vec<Step>) {
    for step in steps {
        match step {
            Step::Sign { i, sign } => x[i] *= f32::from(sign),
            Step::Butterfly { lo, hi } => {
                let a = x[lo];
                let b = x[hi];
                x[lo] = a + b;
                x[hi] = a - b;
            }
            Step::Scale { i } => x[i] *= INV_SQRT_GROUP,
        }
    }
}

fn forward(x: &mut [f32; GROUP]) {
    follow(x, rotate_forward());
}

fn inverse(x: &mut [f32; GROUP]) {
    follow(x, rotate_inverse());
}

fn l2_norm(x: &[f32; GROUP]) -> f32 {
    x.iter().map(|v| v * v).sum::<f32>().sqrt()
}

fn quantize(rotated: &[f32; GROUP]) -> BlockTurbo4 {
    let norm = l2_norm(rotated).max(f32::MIN_POSITIVE);
    let inv_norm = 1.0 / norm;
    let mut at_least = [[false; 15]; 128];
    for j in 0..GROUP {
        for m in 0..15 {
            at_least[j][m] = rotated[j] * inv_norm >= millionths(MID_4BIT[m]);
        }
    }
    quantize_turbo4(f16::from_f32(norm).to_bits(), &at_least)
}

fn dequantize(block: &BlockTurbo4) -> [f32; GROUP] {
    let norm = f16::from_bits(block.norm).to_f32();
    let centroids = dequantize_turbo4(block);
    let mut out = [0f32; GROUP];
    for j in 0..GROUP {
        out[j] = millionths(centroids[j]) * norm;
    }
    out
}

fn test_vector(seed: u32) -> [f32; GROUP] {
    let mut state = seed | 1;
    let mut next = || {
        state ^= state << 13;
        state ^= state >> 17;
        state ^= state << 5;
        (f64::from(state) / f64::from(u32::MAX)) as f32 - 0.5
    };
    let mut out = [0f32; GROUP];
    for v in out.iter_mut() {
        *v = next() + next() + next();
    }
    out
}

fn cosine_similarity(a: &[f32; GROUP], b: &[f32; GROUP]) -> f32 {
    let dot: f32 = a.iter().zip(b).map(|(x, y)| x * y).sum();
    let na = l2_norm(a);
    let nb = l2_norm(b);
    dot / (na * nb)
}

#[test]
fn rotation_round_trips_exactly() {
    let original = test_vector(42);
    let mut x = original;
    forward(&mut x);
    inverse(&mut x);
    for (a, b) in original.iter().zip(x.iter()) {
        assert!(
            (a - b).abs() < 1e-4,
            "rotation did not invert cleanly: {a} vs {b}"
        );
    }
}

#[test]
fn turbo4_round_trip_preserves_direction() {
    for seed in [1, 7, 1234, 999_999] {
        let original = test_vector(seed);
        let mut rotated = original;
        forward(&mut rotated);

        let block = quantize(&rotated);
        let mut recovered = dequantize(&block);
        inverse(&mut recovered);

        let sim = cosine_similarity(&original, &recovered);
        assert!(sim > 0.9, "seed {seed}: cosine similarity too low: {sim}");
    }
}

#[test]
fn a_block_is_66_bytes() {
    assert_eq!(GROUP, 128);
    assert_eq!(BLOCK_TURBO4_BYTES, 66);
    assert_eq!(std::mem::size_of::<BlockTurbo4>(), BLOCK_TURBO4_BYTES);
}

#[test]
fn signs_are_those_of_the_tables() {
    for i in 0..GROUP {
        assert_eq!(f32::from(wht_sign1(i)), SIGNS1[i], "first sign of {i}");
        assert_eq!(f32::from(wht_sign2(i)), SIGNS2[i], "second sign of {i}");
    }
}

#[test]
fn tables_hold_the_centroids() {
    for i in 0..16 {
        assert_eq!(millionths(CENTROIDS_4BIT[i]), CENTROIDS[i]);
    }
    for i in 0..15 {
        assert_eq!(millionths(MID_4BIT[i]), MIDPOINTS[i]);
        assert!(CENTROIDS_4BIT[i] < MID_4BIT[i] && MID_4BIT[i] < CENTROIDS_4BIT[i + 1]);
    }
}

#[test]
fn butterflies_come_stage_by_stage() {
    let mut expected = Vec::new();
    let mut h = 1;
    while h < GROUP {
        let mut i = 0;
        while i < GROUP {
            for j in i..i + h {
                expected.push((j, j + h));
            }
            i += h * 2;
        }
        h *= 2;
    }
    assert_eq!(fwht_128(), expected);
    assert_eq!(expected.len(), 448);
}

fn rotated(x: &[i64; GROUP], steps: Vec<Step>) -> [i64; GROUP] {
    let mut y = *x;
    for step in steps {
        match step {
            Step::Sign { i, sign } => y[i] *= i64::from(sign),
            Step::Butterfly { lo, hi } => {
                let (a, b) = (y[lo], y[hi]);
                y[lo] = a + b;
                y[hi] = a - b;
            }
            Step::Scale { .. } => {}
        }
    }
    y
}

fn whole_vector(seed: i64) -> [i64; GROUP] {
    let mut x = [0i64; GROUP];
    for (i, v) in x.iter_mut().enumerate() {
        *v = (seed * (i as i64 + 3) * 7919) % 1009 - 500;
    }
    x
}

#[test]
fn rotations_list_their_steps() {
    let signs1: Vec<Step> = (0..GROUP)
        .map(|i| Step::Sign {
            i,
            sign: wht_sign1(i),
        })
        .collect();
    let signs2: Vec<Step> = (0..GROUP)
        .map(|i| Step::Sign {
            i,
            sign: wht_sign2(i),
        })
        .collect();
    let mut transform: Vec<Step> = fwht_128()
        .into_iter()
        .map(|(lo, hi)| Step::Butterfly { lo, hi })
        .collect();
    transform.extend((0..GROUP).map(|i| Step::Scale { i }));
    assert_eq!(
        rotate_forward(),
        [&signs1[..], &transform[..], &signs2[..]].concat()
    );
    assert_eq!(
        rotate_inverse(),
        [&signs2[..], &transform[..], &signs1[..]].concat()
    );
}

#[test]
fn exact_rotation_is_undone() {
    let x = whole_vector(5);
    let forward = rotated(&x, rotate_forward());
    let back = rotated(&forward, rotate_inverse());
    for i in 0..GROUP {
        assert_eq!(back[i], 128 * x[i]);
    }
    let inverse = rotated(&x, rotate_inverse());
    let again = rotated(&inverse, rotate_forward());
    for i in 0..GROUP {
        assert_eq!(again[i], 128 * x[i]);
    }
}

#[test]
fn exact_rotation_keeps_products() {
    let (x, y) = (whole_vector(5), whole_vector(11));
    let inner = |a: &[i64; GROUP], b: &[i64; GROUP]| -> i64 {
        a.iter().zip(b).map(|(u, v)| u * v).sum()
    };
    let (rx, ry) = (
        rotated(&x, rotate_forward()),
        rotated(&y, rotate_forward()),
    );
    assert_eq!(inner(&rx, &ry), 128 * inner(&x, &y));
}

#[test]
fn exact_inverse_is_linear() {
    let (x, y) = (whole_vector(5), whole_vector(11));
    let mut sum = [0i64; GROUP];
    for i in 0..GROUP {
        sum[i] = 3 * x[i] - 2 * y[i];
    }
    let (rx, ry, rs) = (
        rotated(&x, rotate_inverse()),
        rotated(&y, rotate_inverse()),
        rotated(&sum, rotate_inverse()),
    );
    for i in 0..GROUP {
        assert_eq!(rs[i], 3 * rx[i] - 2 * ry[i]);
    }
}

#[test]
fn nearest_centroid_counts_midpoints() {
    assert_eq!(nearest_centroid(&[]), 0);
    assert_eq!(nearest_centroid(&[true, true, false, true]), 3);
    for value in -300_000..300_000i32 {
        let at_least: Vec<bool> = MID_4BIT.iter().map(|m| value >= *m).collect();
        let n = usize::from(nearest_centroid(&at_least));
        let best = CENTROIDS_4BIT
            .iter()
            .map(|c| (c - value).abs())
            .min()
            .unwrap();
        assert!((CENTROIDS_4BIT[n] - value).abs() <= best + 1);
    }
}

#[test]
fn packing_keeps_every_index() {
    let mut at_least = [[false; 15]; 128];
    for j in 0..GROUP {
        for m in 0..(j * 5) % 16 {
            at_least[j][m] = true;
        }
    }
    let block = quantize_turbo4(0xbeef, &at_least);
    assert_eq!(block.norm, 0xbeef);
    for j in 0..GROUP {
        let nibble = (block.qs[j / 2] >> ((j % 2) * 4)) & 0xF;
        assert_eq!(usize::from(nibble), (j * 5) % 16);
    }
    assert_eq!(block.qs[0], 0x50);
    let values = dequantize_turbo4(&block);
    for j in 0..GROUP {
        assert_eq!(values[j], CENTROIDS_4BIT[(j * 5) % 16]);
    }
}

#[test]
fn unpacking_reads_every_nibble() {
    let mut qs = [0u8; 64];
    for (b, q) in qs.iter_mut().enumerate() {
        *q = (b * 37 % 256) as u8;
    }
    let values = dequantize_turbo4(&BlockTurbo4 { norm: 0, qs });
    for b in 0..64 {
        assert_eq!(values[2 * b], CENTROIDS_4BIT[usize::from(qs[b] & 0xF)]);
        assert_eq!(values[2 * b + 1], CENTROIDS_4BIT[usize::from(qs[b] >> 4)]);
    }
}

#[test]
fn a_block_holds_nearest_centroids() {
    let mut values = [0i32; GROUP];
    let mut at_least = [[false; 15]; 128];
    for j in 0..GROUP {
        values[j] = j as i32 * 4001 - 256_000;
        for m in 0..15 {
            at_least[j][m] = values[j] >= MID_4BIT[m];
        }
    }
    let read = dequantize_turbo4(&quantize_turbo4(0x3c00, &at_least));
    for j in 0..GROUP {
        for c in CENTROIDS_4BIT {
            assert!((read[j] - values[j]).abs() <= (c - values[j]).abs() + 1);
        }
    }
    assert_eq!(read[0], -241_529);
    assert_eq!(read[64], 11_349);
}
