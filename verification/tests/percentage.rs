use vvm_core::{CoveragePercentage, CoverageRatio};

fn percentage(covered: usize, uncovered: usize) -> CoveragePercentage {
    CoveragePercentage::from_ratio(CoverageRatio::new(
        covered,
        uncovered,
        covered.saturating_add(uncovered),
    ))
}

#[test]
fn formats_expected_fixed_point_values() {
    assert_eq!(percentage(0, 4).to_text(), "0.00%");
    assert_eq!(percentage(1, 3).to_text(), "25.00%");
    assert_eq!(percentage(1, 2).to_text(), "33.33%");
    assert_eq!(percentage(2, 1).to_text(), "66.67%");
    assert_eq!(percentage(1, 7).to_text(), "12.50%");
    assert_eq!(percentage(8, 0).to_text(), "100.00%");
}

#[test]
fn rounds_half_up_and_clamps_incomplete_ratios() {
    assert_eq!(percentage(1, 1_599).to_text(), "0.06%");
    assert_eq!(percentage(999_999, 1).to_text(), "99.99%");
}

#[test]
fn zero_denominator_is_zero() {
    assert_eq!(CoveragePercentage::from_ratio(CoverageRatio::new(0, 0, 0)).to_text(), "0.00%");
}

#[test]
fn accessors_are_exact() {
    let percentage = percentage(7, 1);
    assert_eq!(percentage.basis_points(), 8_750);
    assert_eq!(percentage.whole_percent(), 87);
    assert_eq!(percentage.fractional_hundredths(), 50);
}
