use batching::error::BatchError;
use batching::normalize::{
    normalize_fixed, normalize_rows, normalize_rows_fixed, normalize_rows_min_max, FixedRange,
    Normalization, Ratio,
};

fn value(r: &Ratio) -> f64 {
    r.num as f64 / r.den as f64
}

#[test]
fn fixed_range_example_value() {
    let r = normalize_fixed(800000, 380000, 1420000).unwrap();
    assert_eq!(r, Ratio { num: 420000, den: 1040000 });
    assert!((value(&r) - 0.4038).abs() < 1e-4);
}

#[test]
fn fixed_range_with_equal_bounds_is_rejected() {
    assert_eq!(normalize_fixed(5, 7, 7), Err(BatchError::ConfigurationError));
}

#[test]
fn fixed_range_endpoints_are_zero_and_one() {
    let ranges = [(380000, 1420000), (0, 166000), (-50, 50)];
    for (min, max) in ranges {
        let lo = normalize_fixed(min, min, max).unwrap();
        let hi = normalize_fixed(max, min, max).unwrap();
        assert_eq!(lo.num, 0);
        assert_ne!(lo.den, 0);
        assert_eq!(hi.num, hi.den);
        assert_eq!(value(&hi), 1.0);
    }
}

#[test]
fn fixed_rows_scale_each_channel() {
    let rows = vec![vec![10, 0], vec![20, 5]];
    let ranges = vec![FixedRange { min: 10, max: 30 }, FixedRange { min: 0, max: 10 }];
    let out = normalize_rows_fixed(&rows, &ranges).unwrap();
    assert_eq!(
        out,
        vec![
            vec![Ratio { num: 0, den: 20 }, Ratio { num: 0, den: 10 }],
            vec![Ratio { num: 10, den: 20 }, Ratio { num: 5, den: 10 }],
        ]
    );
}

#[test]
fn fixed_rows_errors() {
    let rows = vec![vec![10, 0], vec![20]];
    let good = vec![FixedRange { min: 10, max: 30 }, FixedRange { min: 0, max: 10 }];
    let bad = vec![FixedRange { min: 10, max: 30 }, FixedRange { min: 4, max: 4 }];
    assert_eq!(normalize_rows_fixed(&rows, &good), Err(BatchError::ShapeError));
    assert_eq!(normalize_rows_fixed(&rows, &bad), Err(BatchError::ConfigurationError));
}

#[test]
fn min_max_uses_batch_bounds() {
    let rows = vec![vec![1, -4], vec![3, 0], vec![2, 4]];
    let out = normalize_rows_min_max(&rows, 2).unwrap();
    assert_eq!(value(&out[0][0]), 0.0);
    assert_eq!(value(&out[1][0]), 1.0);
    assert_eq!(value(&out[2][0]), 0.5);
    assert_eq!(out[0][1], Ratio { num: 0, den: 8 });
    assert_eq!(out[1][1], Ratio { num: 4, den: 8 });
    assert_eq!(out[2][1], Ratio { num: 8, den: 8 });
}

#[test]
fn min_max_constant_channel_is_zero() {
    let rows = vec![vec![7, 1], vec![7, 2], vec![7, 3]];
    let out = normalize_rows_min_max(&rows, 2).unwrap();
    for row in &out {
        assert_eq!(row[0], Ratio { num: 0, den: 1 });
        assert!(value(&row[0]).is_finite());
        assert_eq!(value(&row[0]), 0.0);
    }
    let single = normalize_rows_min_max(&vec![vec![42]], 1).unwrap();
    assert_eq!(single, vec![vec![Ratio { num: 0, den: 1 }]]);
}

#[test]
fn min_max_shape_error_and_empty_batch() {
    let rows = vec![vec![1, 2], vec![3]];
    assert_eq!(normalize_rows_min_max(&rows, 2), Err(BatchError::ShapeError));
    let empty: Vec<Vec<i64>> = Vec::new();
    assert_eq!(normalize_rows_min_max(&empty, 3), Ok(Vec::new()));
}

#[test]
fn strategy_must_fit_width() {
    let rows = vec![vec![1, 2]];
    let fixed = Normalization::Fixed(vec![FixedRange { min: 0, max: 4 }]);
    assert_eq!(normalize_rows(&rows, 2, &fixed), Err(BatchError::ConfigurationError));
    let fixed = Normalization::Fixed(vec![
        FixedRange { min: 0, max: 4 },
        FixedRange { min: 0, max: 4 },
    ]);
    assert_eq!(
        normalize_rows(&rows, 2, &fixed),
        Ok(vec![vec![Ratio { num: 1, den: 4 }, Ratio { num: 2, den: 4 }]])
    );
    assert_eq!(
        normalize_rows(&rows, 2, &Normalization::BatchMinMax),
        Ok(vec![vec![Ratio { num: 0, den: 1 }, Ratio { num: 0, den: 1 }]])
    );
}
