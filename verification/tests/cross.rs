use vvm_core::{
    Bin, BinId, CoverageSampleDisposition, Coverpoint, Cross2, CrossAxis, CrossBinId,
    CrossBuildError, CrossSampleError,
};

fn coverpoint(name: &str, values: &[u8]) -> Coverpoint<u8> {
    values
        .iter()
        .fold(Coverpoint::builder(name), |builder, value| {
            builder.bin(Bin::value(&format!("bin_{value}"), *value))
        })
        .build()
        .expect("valid coverpoint")
}

#[test]
fn builds_row_major_complete_cross() {
    let left = coverpoint("left", &[1, 2]);
    let right = coverpoint("right", &[3, 4]);
    let cross = Cross2::builder("left_x_right", &left, &right).build().expect("valid cross");
    let pairs = cross
        .bins()
        .iter()
        .map(|bin| (bin.left_bin_id(), bin.right_bin_id()))
        .collect::<Vec<_>>();
    assert_eq!(
        pairs,
        [
            (BinId::new(0), BinId::new(0)),
            (BinId::new(0), BinId::new(1)),
            (BinId::new(1), BinId::new(0)),
            (BinId::new(1), BinId::new(1)),
        ]
    );
}

#[test]
fn samples_cartesian_product_atomically() {
    let mut left = Coverpoint::builder("left")
        .bin(Bin::inclusive_range("all", 0_u8, 2))
        .bin(Bin::value("one", 1))
        .build()
        .expect("valid coverpoint");
    let mut right = Coverpoint::builder("right")
        .bin(Bin::inclusive_range("all", 0_u8, 2))
        .bin(Bin::value("one", 1))
        .build()
        .expect("valid coverpoint");
    let mut cross = Cross2::builder("left_x_right", &left, &right).build().expect("valid cross");
    let left_sample = left.sample(&1).expect("normal sample");
    let right_sample = right.sample(&1).expect("normal sample");
    let sample = cross.sample(&left_sample, &right_sample).expect("cross sample");

    assert_eq!(
        sample.matched_bins(),
        [CrossBinId::new(0), CrossBinId::new(1), CrossBinId::new(2), CrossBinId::new(3)]
    );
    assert!(cross.bins().iter().all(|bin| bin.hits() == 1));
    assert_eq!(cross.sample_count(), 1);
}

#[test]
fn ignored_axis_skips_cross() {
    let mut left = Coverpoint::builder("left")
        .bin(Bin::value("one", 1_u8))
        .ignore_bin(Bin::value("zero", 0))
        .build()
        .expect("valid coverpoint");
    let mut right = coverpoint("right", &[1]);
    let mut cross = Cross2::builder("left_x_right", &left, &right).build().expect("valid cross");
    let left_sample = left.sample(&0).expect("ignored sample");
    let right_sample = right.sample(&1).expect("normal sample");
    let sample = cross.sample(&left_sample, &right_sample).expect("skipped cross sample");

    assert!(sample.skipped());
    assert_eq!(sample.left_disposition(), CoverageSampleDisposition::Ignored);
    assert_eq!(cross.sample_count(), 1);
    assert_eq!(cross.skipped_sample_count(), 1);
    assert!(cross.bins().iter().all(|bin| bin.hits() == 0));
}

#[test]
fn rejects_same_named_different_source() {
    let left = coverpoint("same", &[1]);
    let mut other_left = coverpoint("same", &[1]);
    let mut right = coverpoint("right", &[1]);
    let mut cross = Cross2::builder("same_x_right", &left, &right).build().expect("valid cross");
    let left_sample = other_left.sample(&1).expect("normal sample");
    let right_sample = right.sample(&1).expect("normal sample");
    let error = cross.sample(&left_sample, &right_sample).expect_err("source mismatch");

    assert_eq!(error.axis(), Some(CrossAxis::Left));
    assert_eq!(cross.sample_count(), 0);
    assert!(matches!(error, CrossSampleError::SourceMismatch { .. }));
}

#[test]
fn cross_build_rejects_invalid_definitions() {
    let left = coverpoint("left", &[1, 2]);
    let right = coverpoint("right", &[3, 4, 5]);
    assert!(matches!(
        Cross2::builder("bad name", &left, &right).build(),
        Err(CrossBuildError::InvalidName { .. })
    ));
    assert!(matches!(
        Cross2::builder("lr", &left, &right).at_least(0).build(),
        Err(CrossBuildError::ZeroRequiredHits { .. })
    ));
    assert!(matches!(
        Cross2::builder("lr", &left, &right).max_bins(0).build(),
        Err(CrossBuildError::ZeroBinLimit { .. })
    ));
    match Cross2::builder("lr", &left, &right).max_bins(5).build() {
        Err(CrossBuildError::BinLimitExceeded { total_bins, limit, .. }) => {
            assert_eq!((total_bins, limit), (6, 5));
        }
        _ => panic!("expected a bin-limit error"),
    }
    let cross = Cross2::builder("lr", &left, &right).max_bins(6).at_least(2).build().expect("fits");
    assert_eq!(cross.bins().len(), 6);
    assert!(cross.bins().iter().all(|bin| bin.required_hits() == 2));
    assert_eq!(cross.bins()[5].left_bin_name(), "bin_2");
    assert_eq!(cross.bins()[5].right_bin_name(), "bin_5");
}

#[test]
fn cross_coverage_tracks_hit_threshold() {
    let mut left = coverpoint("left", &[1, 2]);
    let mut right = coverpoint("right", &[3]);
    let mut cross = Cross2::builder("lr", &left, &right).build().expect("valid cross");
    assert_eq!(cross.coverage().covered(), 0);
    assert_eq!(cross.coverage().total(), 2);
    let l = left.sample(&2).expect("sample");
    let r = right.sample(&3).expect("sample");
    let sample = cross.sample(&l, &r).expect("cross sample");
    assert!(sample.hit());
    assert_eq!(sample.matched_bins(), [CrossBinId::new(1)]);
    assert_eq!(cross.coverage().covered(), 1);
    assert_eq!(cross.covered_bins().len(), 1);
    assert_eq!(cross.uncovered_bins().len(), 1);
    assert_eq!(cross.bin(CrossBinId::new(1)).map(|b| b.hits()), Some(1));
    assert!(cross.bin(CrossBinId::new(9)).is_none());
}
