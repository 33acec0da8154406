use lab03::light::{next_preset, PRESET_COUNT};

#[test]
fn three_presets() {
    assert_eq!(PRESET_COUNT, 3);
}

#[test]
fn next_preset_wraps() {
    assert_eq!(next_preset(0), 1);
    assert_eq!(next_preset(1), 2);
    assert_eq!(next_preset(2), 0);
}

#[test]
fn full_cycle_returns_to_start() {
    for start in 0..PRESET_COUNT {
        let mut i = start;
        let mut seen = vec![false; PRESET_COUNT];
        for _ in 0..PRESET_COUNT {
            i = next_preset(i);
            seen[i] = true;
        }
        assert_eq!(i, start);
        assert!(seen.iter().all(|&s| s));
    }
}
