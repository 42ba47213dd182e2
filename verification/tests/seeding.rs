use cellsim::patterns::{seed_strategy_for_kernel, SeedStrategy};
use cellsim::seed::{
    intensity_byte_exec, seed_pattern, seed_stochastic, Pattern, ALIVE_THRESHOLD,
};

fn pixel(buf: &[u8], w: u32, x: u32, y: u32) -> (u8, u8, u8, u8) {
    let i = ((y * w + x) * 4) as usize;
    (buf[i], buf[i + 1], buf[i + 2], buf[i + 3])
}

fn pattern_of(kernel: i32) -> Pattern {
    match seed_strategy_for_kernel(kernel) {
        SeedStrategy::Pattern(p) => p,
        SeedStrategy::Stochastic => panic!("expected a pattern strategy"),
    }
}

#[test]
fn intensity_bytes_round_to_nearest() {
    assert_eq!(intensity_byte_exec(0), 0);
    assert_eq!(intensity_byte_exec(100), 255);
    assert_eq!(intensity_byte_exec(50), 128); // 127.5 rounds up
    assert_eq!(intensity_byte_exec(10), 26); // 25.5 rounds up
    assert_eq!(intensity_byte_exec(30), 77); // 76.5 rounds up
    assert_eq!(intensity_byte_exec(40), 102); // exact
}

#[test]
fn pattern_seed_centers_and_flips() {
    // A 2x2 table on a 4x4 grid: the box corner lands at (1, 1).
    let p = Pattern::new(2, 2, vec![10, 20, 30, 40]);
    let buf = seed_pattern(4, 4, &p);
    assert_eq!(buf.len(), 4 * 4 * 4);
    // Cells outside the centered box are fully dead.
    for (x, y) in [(0, 0), (3, 0), (0, 3), (3, 3), (0, 1), (3, 2), (1, 0), (2, 3)] {
        assert_eq!(pixel(&buf, 4, x, y), (0, 0, 0, 255));
    }
    // The box corner (pattern row 0 / col 0 in grid terms) shows the
    // table's last row, first column: 30 -> byte 77.
    assert_eq!(pixel(&buf, 4, 1, 1), (77, 77, 77, 255));
    // Last row, second column: 40 -> 102.
    assert_eq!(pixel(&buf, 4, 2, 1), (102, 102, 102, 255));
    // First table row appears one grid row up: 10 -> 26, 20 -> 51.
    assert_eq!(pixel(&buf, 4, 1, 2), (26, 26, 26, 255));
    assert_eq!(pixel(&buf, 4, 2, 2), (51, 51, 51, 255));
}

#[test]
fn pattern_seeding_is_deterministic() {
    for kernel in [3, 4, 7] {
        let p1 = pattern_of(kernel);
        let p2 = pattern_of(kernel);
        let b1 = seed_pattern(64, 52, &p1);
        let b2 = seed_pattern(64, 52, &p2);
        assert_eq!(b1, b2);
    }
}

#[test]
fn kernel_selects_strategy() {
    for kernel in [-1, 0, 1, 2] {
        assert!(matches!(
            seed_strategy_for_kernel(kernel),
            SeedStrategy::Stochastic
        ));
    }
    let p3 = pattern_of(3);
    assert_eq!((p3.width, p3.height), (20, 20));
    let p4 = pattern_of(4);
    assert_eq!((p4.width, p4.height), (55, 51));
    let p9 = pattern_of(9);
    assert_eq!((p9.width, p9.height), (1, 1));
    assert_eq!(p9.cells, vec![0]);
}

#[test]
fn orbium_matches_its_table_on_an_exact_grid() {
    // On a 20x20 grid the 20x20 table fills the grid with offset (0, 0).
    let p = pattern_of(3);
    let buf = seed_pattern(20, 20, &p);
    // The table's top row shows at the grid's top row (vertical flip):
    // row 0, col 6 holds 0.10 -> byte 26.
    assert_eq!(pixel(&buf, 20, 6, 19), (26, 26, 26, 255));
    // The table's last row, first column holds 0.0.
    assert_eq!(pixel(&buf, 20, 0, 0), (0, 0, 0, 255));
    // Table row 10, col 10 holds 1.0 and shows at grid y = 9.
    assert_eq!(pixel(&buf, 20, 10, 9), (255, 255, 255, 255));
}

#[test]
fn oversized_pattern_is_cropped_by_the_grid() {
    // A 3x1 table on a 1x1 grid: the box starts left of the grid, and the
    // one grid cell shows the table's middle column.
    let p = Pattern::new(3, 1, vec![10, 20, 30]);
    let buf = seed_pattern(1, 1, &p);
    assert_eq!(pixel(&buf, 1, 0, 0), (51, 51, 51, 255));
}

#[test]
fn stochastic_cells_follow_their_samples() {
    let samples = vec![0u32, ALIVE_THRESHOLD - 1, ALIVE_THRESHOLD, u32::MAX];
    let buf = seed_stochastic(&samples);
    let expected = vec![
        255, 255, 255, 255, // below threshold: alive
        255, 255, 255, 255, // just below threshold: alive
        0, 0, 0, 255, // at threshold: dead
        0, 0, 0, 255, // far above threshold: dead
    ];
    assert_eq!(buf, expected);
}

fn lcg(state: &mut u64) -> u32 {
    *state = state
        .wrapping_mul(6364136223846793005)
        .wrapping_add(1442695040888963407);
    (*state >> 32) as u32
}

#[test]
fn stochastic_fraction_converges_to_half() {
    let n = 100 * 100;
    let mut state = 42u64;
    let mut samples: Vec<u32> = Vec::with_capacity(n);
    for _ in 0..n {
        samples.push(lcg(&mut state));
    }
    let buf = seed_stochastic(&samples);
    let mut alive: Vec<bool> = Vec::with_capacity(n);
    for i in 0..n {
        assert_eq!(buf[i * 4 + 3], 255);
        assert_eq!(buf[i * 4], buf[i * 4 + 1]);
        assert_eq!(buf[i * 4], buf[i * 4 + 2]);
        alive.push(buf[i * 4] == 255);
    }
    let count = alive.iter().filter(|&&a| a).count();
    let frac = count as f64 / n as f64;
    assert!((frac - 0.5).abs() < 0.03, "fraction alive was {}", frac);
}

#[test]
fn stochastic_neighbors_are_uncorrelated() {
    let w = 100usize;
    let h = 100usize;
    let mut state = 7u64;
    let mut samples: Vec<u32> = Vec::with_capacity(w * h);
    for _ in 0..w * h {
        samples.push(lcg(&mut state));
    }
    let buf = seed_stochastic(&samples);
    let alive = |x: usize, y: usize| buf[(y * w + x) * 4] == 255;
    let mut agree = 0usize;
    let mut pairs = 0usize;
    for y in 0..h {
        for x in 0..w - 1 {
            pairs += 1;
            if alive(x, y) == alive(x + 1, y) {
                agree += 1;
            }
        }
    }
    for y in 0..h - 1 {
        for x in 0..w {
            pairs += 1;
            if alive(x, y) == alive(x, y + 1) {
                agree += 1;
            }
        }
    }
    let rate = agree as f64 / pairs as f64;
    assert!(
        (rate - 0.5).abs() < 0.03,
        "neighbor agreement rate was {}",
        rate
    );
}
