use flash_rbf::calibration::{search_step, SearchStep};

fn b(v: f64) -> u64 {
    v.to_bits()
}

#[test]
fn improvement_is_recorded_and_raises_low_end() {
    assert_eq!(search_step(b(0.5), b(0.75)), SearchStep { record_best: true, lower_high: false });
}

#[test]
fn worse_error_lowers_high_end() {
    assert_eq!(search_step(b(0.9), b(0.75)), SearchStep { record_best: false, lower_high: true });
}

#[test]
fn equal_error_raises_low_end() {
    assert_eq!(search_step(b(0.75), b(0.75)), SearchStep { record_best: false, lower_high: false });
}

#[test]
fn nan_error_raises_low_end() {
    assert_eq!(search_step(b(f64::NAN), b(0.75)), SearchStep { record_best: false, lower_high: false });
}
