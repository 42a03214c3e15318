use golden_compare::comparison::{
    difference_alpha, difference_color, evaluate_filters, judge, CheckRecord, ComparisonError,
    ComparisonReport, DiagnosticImage, Diagnostics, ImageComparison, ImageComparisonCheck,
};
use golden_compare::expression::{ExpressionError, HostAttributes, TestExpression};
use golden_compare::image::RgbaImage;
use golden_compare::image_trigger::ImageTrigger;

fn host() -> HostAttributes {
    HostAttributes {
        os: "linux".to_string(),
        arch: "x86_64".to_string(),
        family: "unix".to_string(),
    }
}

fn image(width: u32, height: u32, data: Vec<u8>) -> RgbaImage {
    RgbaImage::from_raw(width, height, data).expect("buffer of the right size")
}

fn simple(tolerance: Option<u8>, max_outliers: Option<usize>) -> ImageComparison {
    ImageComparison { tolerance, max_outliers, checks: Vec::new(), trigger: ImageTrigger::LastFrame }
}

fn check(tolerance: u8, max_outliers: usize, filter: Option<&str>) -> ImageComparisonCheck {
    ImageComparisonCheck {
        tolerance,
        max_outliers,
        filter: filter.map(|source| TestExpression::new(source.to_string())),
    }
}

fn advanced(checks: Vec<ImageComparisonCheck>) -> ImageComparison {
    ImageComparison { tolerance: None, max_outliers: None, checks, trigger: ImageTrigger::LastFrame }
}

fn nothing() -> Diagnostics {
    Diagnostics { actual: false, difference_color: None, difference_alpha: None }
}

/// A 2x2 image and one that differs from it by 10 in the blue channel of the
/// second pixel.
fn blue_pair() -> (RgbaImage, RgbaImage) {
    let expected = image(2, 2, vec![100; 16]);
    let mut changed = vec![100; 16];
    changed[6] = 110;
    (image(2, 2, changed), expected)
}

fn blue_difference() -> Vec<u8> {
    let mut data = vec![0; 16];
    data[6] = 10;
    data
}

#[test]
fn blue_difference_fails_under_tolerance_five() {
    let (actual, expected) = blue_pair();
    let report = simple(Some(5), Some(0)).test(&actual, &expected, &host(), false);
    assert_eq!(
        report.result,
        Err(ComparisonError::TooManyOutliers {
            check: 0,
            outliers: 1,
            max_outliers: 0,
            max_difference: 10
        })
    );
    assert_eq!(report.records, Vec::new());
    let mut color = vec![0; 12];
    color[5] = 10;
    assert_eq!(
        report.diagnostics,
        Diagnostics { actual: true, difference_color: Some(color), difference_alpha: None }
    );
}

#[test]
fn blue_difference_passes_under_tolerance_fifteen() {
    let (actual, expected) = blue_pair();
    let report = simple(Some(15), Some(0)).test(&actual, &expected, &host(), false);
    assert_eq!(
        report,
        ComparisonReport {
            result: Ok(()),
            records: vec![CheckRecord::Passed { outliers: 0, max_difference: 10 }],
            diagnostics: nothing(),
        }
    );
}

#[test]
fn allowed_outliers_pass() {
    let (actual, expected) = blue_pair();
    let report = simple(Some(5), Some(1)).test(&actual, &expected, &host(), false);
    assert_eq!(report.result, Ok(()));
    assert_eq!(report.records, vec![CheckRecord::Passed { outliers: 1, max_difference: 10 }]);
}

#[test]
fn unset_simple_fields_count_as_zero() {
    let (actual, expected) = blue_pair();
    let report = simple(None, None).test(&actual, &expected, &host(), false);
    assert_eq!(
        report.result,
        Err(ComparisonError::TooManyOutliers {
            check: 0,
            outliers: 1,
            max_outliers: 0,
            max_difference: 10
        })
    );
    let report = simple(None, Some(1)).test(&actual, &expected, &host(), false);
    assert_eq!(report.result, Ok(()));
    let report = simple(Some(10), None).test(&actual, &expected, &host(), false);
    assert_eq!(report.result, Ok(()));
}

#[test]
fn identical_images_pass_whatever_the_simple_check() {
    let picture = image(2, 2, (0..16).map(|i| (i * 13) as u8).collect());
    for tolerance in [None, Some(0), Some(1), Some(255)] {
        for max_outliers in [None, Some(0), Some(3), Some(usize::MAX)] {
            let report = simple(tolerance, max_outliers).test(&picture, &picture, &host(), false);
            assert_eq!(
                report,
                ComparisonReport {
                    result: Ok(()),
                    records: vec![CheckRecord::Passed { outliers: 0, max_difference: 0 }],
                    diagnostics: nothing(),
                }
            );
        }
    }
}

#[test]
fn size_mismatch_fails_before_anything_else() {
    let actual = image(2, 1, vec![0; 8]);
    let expected = image(1, 2, vec![0; 8]);
    let mixed = ImageComparison {
        tolerance: Some(1),
        max_outliers: None,
        checks: vec![check(0, 0, Some("not("))],
        trigger: ImageTrigger::LastFrame,
    };
    let error = ComparisonError::SizeMismatch {
        expected_width: 1,
        expected_height: 2,
        actual_width: 2,
        actual_height: 1,
    };
    for comparison in [mixed, simple(Some(255), Some(100)), advanced(vec![check(0, 0, Some("foo"))])] {
        let report = comparison.test(&actual, &expected, &host(), false);
        assert_eq!(
            report,
            ComparisonReport {
                result: Err(error.clone()),
                records: Vec::new(),
                diagnostics: Diagnostics {
                    actual: true,
                    difference_color: None,
                    difference_alpha: None
                },
            }
        );
        let report = comparison.test(&actual, &expected, &host(), true);
        assert_eq!(report.result, Err(error.clone()));
        assert_eq!(report.diagnostics, nothing());
    }
}

#[test]
fn size_mismatch_of_empty_images_is_reported() {
    let actual = image(0, 1, Vec::new());
    let expected = image(1, 0, Vec::new());
    let report = simple(None, None).test(&actual, &expected, &host(), false);
    assert!(matches!(report.result, Err(ComparisonError::SizeMismatch { .. })));
}

#[test]
fn simple_and_advanced_together_fail() {
    let (actual, expected) = blue_pair();
    for (tolerance, max_outliers) in [(Some(255), None), (None, Some(100)), (Some(0), Some(0))] {
        let comparison = ImageComparison {
            tolerance,
            max_outliers,
            checks: vec![check(255, 100, None)],
            trigger: ImageTrigger::LastFrame,
        };
        let report = comparison.test(&actual, &expected, &host(), false);
        assert_eq!(
            report,
            ComparisonReport {
                result: Err(ComparisonError::MixedChecks),
                records: Vec::new(),
                diagnostics: nothing(),
            }
        );
        assert_eq!(comparison.checks(), Err(ComparisonError::MixedChecks));
    }
}

#[test]
fn checks_resolve_to_the_list_or_the_simple_check() {
    let list = vec![check(1, 2, Some("os = \"linux\"")), check(3, 4, None)];
    let comparison = advanced(list.clone());
    let resolved = comparison.checks().expect("not mixed");
    assert_eq!(resolved.as_ref(), list.as_slice());
    let comparison = simple(Some(7), None);
    let resolved = comparison.checks().expect("not mixed");
    assert_eq!(resolved.as_ref(), [check(7, 0, None)].as_slice());
    let comparison = simple(None, None);
    let resolved = comparison.checks().expect("not mixed");
    assert_eq!(resolved.as_ref(), [check(0, 0, None)].as_slice());
}

#[test]
fn sole_check_gated_off_fails() {
    let (actual, expected) = blue_pair();
    let report = advanced(vec![check(255, 100, Some("os = \"windows\""))]).test(
        &actual,
        &expected,
        &host(),
        false,
    );
    assert_eq!(
        report,
        ComparisonReport {
            result: Err(ComparisonError::NoChecksExecuted),
            records: vec![CheckRecord::Skipped],
            diagnostics: nothing(),
        }
    );
}

#[test]
fn all_checks_gated_off_fail_even_on_identical_images() {
    let picture = image(1, 1, vec![1, 2, 3, 4]);
    let comparison = advanced(vec![
        check(0, 0, Some("os = \"windows\"")),
        check(0, 0, Some("not(arch = \"x86_64\")")),
    ]);
    let report = comparison.test(&picture, &picture, &host(), false);
    assert_eq!(report.result, Err(ComparisonError::NoChecksExecuted));
    assert_eq!(report.records, vec![CheckRecord::Skipped, CheckRecord::Skipped]);
}

#[test]
fn gated_checks_run_where_their_expression_holds() {
    let (actual, expected) = blue_pair();
    let comparison = advanced(vec![
        check(0, 0, Some("os = \"windows\"")),
        check(10, 0, Some("os = \"linux\"")),
        check(0, 1, None),
    ]);
    let report = comparison.test(&actual, &expected, &host(), false);
    assert_eq!(report.result, Ok(()));
    assert_eq!(
        report.records,
        vec![
            CheckRecord::Skipped,
            CheckRecord::Passed { outliers: 0, max_difference: 10 },
            CheckRecord::Passed { outliers: 1, max_difference: 10 },
        ]
    );
    let windows = HostAttributes {
        os: "windows".to_string(),
        arch: "x86_64".to_string(),
        family: "windows".to_string(),
    };
    let report = comparison.test(&actual, &expected, &windows, false);
    assert_eq!(
        report.result,
        Err(ComparisonError::TooManyOutliers {
            check: 0,
            outliers: 1,
            max_outliers: 0,
            max_difference: 10
        })
    );
    assert_eq!(report.records, Vec::new());
}

#[test]
fn first_failing_check_ends_the_comparison() {
    let (actual, expected) = blue_pair();
    let comparison = advanced(vec![
        check(20, 0, None),
        check(5, 0, None),
        check(0, 0, Some("not(")),
    ]);
    let report = comparison.test(&actual, &expected, &host(), false);
    assert_eq!(
        report.result,
        Err(ComparisonError::TooManyOutliers {
            check: 1,
            outliers: 1,
            max_outliers: 0,
            max_difference: 10
        })
    );
    assert_eq!(report.records, vec![CheckRecord::Passed { outliers: 0, max_difference: 10 }]);
}

#[test]
fn expression_error_ends_the_comparison_without_images() {
    let (actual, expected) = blue_pair();
    let comparison = advanced(vec![check(20, 0, None), check(0, 0, Some("foo = \"bar\""))]);
    let report = comparison.test(&actual, &expected, &host(), false);
    match &report.result {
        Err(ComparisonError::Expression {
            check: 1,
            error: ExpressionError::UnknownPredicate { predicate },
        }) => assert!(predicate.contains("foo")),
        other => panic!("unexpected result {other:?}"),
    }
    assert_eq!(report.records, vec![CheckRecord::Passed { outliers: 0, max_difference: 10 }]);
    assert_eq!(report.diagnostics, nothing());
    let comparison = advanced(vec![check(0, 0, Some("not("))]);
    let report = comparison.test(&actual, &expected, &host(), false);
    assert!(matches!(
        report.result,
        Err(ComparisonError::Expression { check: 0, error: ExpressionError::Parse { .. } })
    ));
}

#[test]
fn known_failure_suppresses_the_images() {
    let (actual, expected) = blue_pair();
    let report = simple(Some(5), Some(0)).test(&actual, &expected, &host(), true);
    assert!(matches!(report.result, Err(ComparisonError::TooManyOutliers { .. })));
    assert_eq!(report.diagnostics, nothing());
}

#[test]
fn alpha_image_is_written_only_where_alpha_differs() {
    let expected = image(2, 1, vec![1, 2, 3, 4, 5, 6, 7, 8]);
    let actual = image(2, 1, vec![1, 2, 3, 4, 5, 6, 9, 28]);
    let report = simple(Some(0), Some(0)).test(&actual, &expected, &host(), false);
    assert_eq!(
        report.result,
        Err(ComparisonError::TooManyOutliers {
            check: 0,
            outliers: 2,
            max_outliers: 0,
            max_difference: 20
        })
    );
    assert_eq!(
        report.diagnostics,
        Diagnostics {
            actual: true,
            difference_color: Some(vec![0, 0, 0, 0, 0, 2]),
            difference_alpha: Some(vec![0, 20]),
        }
    );
    let report = simple(Some(0), Some(0)).test(&actual, &expected, &host(), true);
    assert_eq!(report.diagnostics, nothing());
}

#[test]
fn judge_follows_the_given_gates() {
    let checks = vec![check(0, 0, None), check(0, 0, None), check(0, 0, None)];
    let data = blue_difference();
    let report = judge(&checks, &vec![Ok(false), Ok(false), Ok(false)], &data, false, false);
    assert_eq!(report.result, Err(ComparisonError::NoChecksExecuted));
    assert_eq!(report.records, vec![CheckRecord::Skipped; 3]);
    let error = ExpressionError::Parse { message: "bad".to_string() };
    let report =
        judge(&checks, &vec![Ok(false), Err(error.clone()), Ok(true)], &data, true, false);
    assert_eq!(report.result, Err(ComparisonError::Expression { check: 1, error }));
    assert_eq!(report.records, vec![CheckRecord::Skipped]);
    assert_eq!(report.diagnostics, nothing());
    let report = judge(&checks, &vec![Ok(false), Ok(false), Ok(true)], &data, true, false);
    assert_eq!(
        report.result,
        Err(ComparisonError::TooManyOutliers {
            check: 2,
            outliers: 1,
            max_outliers: 0,
            max_difference: 10
        })
    );
    assert_eq!(report.records, vec![CheckRecord::Skipped; 2]);
    assert_eq!(report.diagnostics.difference_alpha, Some(vec![0; 4]));
    let report = judge(&[], &Vec::new(), &data, false, false);
    assert_eq!(report.result, Err(ComparisonError::NoChecksExecuted));
}

#[test]
fn filters_evaluate_to_gates_in_order() {
    let checks = vec![
        check(0, 0, None),
        check(0, 0, Some("os = \"linux\"")),
        check(0, 0, Some("os = \"macos\"")),
        check(0, 0, Some("bar")),
    ];
    let gates = evaluate_filters(&checks, &host());
    assert_eq!(gates.len(), 4);
    assert_eq!(gates[0], Ok(true));
    assert_eq!(gates[1], Ok(true));
    assert_eq!(gates[2], Ok(false));
    assert!(matches!(gates[3], Err(ExpressionError::UnknownPredicate { .. })));
}

#[test]
fn color_and_alpha_are_split() {
    let data = vec![1, 2, 3, 4, 5, 6, 7, 8, 9, 10];
    assert_eq!(difference_color(&data), vec![1, 2, 3, 5, 6, 7]);
    assert_eq!(difference_alpha(&data), vec![4, 8]);
    assert_eq!(difference_color(&[]), Vec::<u8>::new());
    assert_eq!(difference_alpha(&[1, 2, 3]), Vec::<u8>::new());
}

#[test]
fn file_names_hold_comparison_and_environment() {
    assert_eq!(DiagnosticImage::Actual.file_name("final", "wgpu-vulkan"), "final.actual-wgpu-vulkan.png");
    assert_eq!(
        DiagnosticImage::DifferenceColor.file_name("final", "wgpu-vulkan"),
        "final.difference-color-wgpu-vulkan.png"
    );
    assert_eq!(
        DiagnosticImage::DifferenceAlpha.file_name("a b", ""),
        "a b.difference-alpha-.png"
    );
}

#[test]
fn error_messages_are_self_contained() {
    assert_eq!(
        ComparisonError::SizeMismatch {
            expected_width: 640,
            expected_height: 480,
            actual_width: 1,
            actual_height: 0
        }
        .message("shot"),
        "'shot' image is not the right size. Expected = 640x480, actual = 1x0."
    );
    assert_eq!(
        ComparisonError::MixedChecks.message("shot"),
        "Image 'shot' failed: Both simple and advanced checks are defined. Either remove 'tolerance' & 'max_outliers', or move it to 'checks'."
    );
    assert_eq!(
        ComparisonError::TooManyOutliers {
            check: 12,
            outliers: 1005,
            max_outliers: 90,
            max_difference: 255
        }
        .message("shot"),
        "Image 'shot' check 12 failed: Number of outliers (1005) is bigger than allowed limit of 90. Max difference is 255"
    );
    assert_eq!(
        ComparisonError::NoChecksExecuted.message("shot"),
        "Image 'shot' failed: No checks executed."
    );
    assert_eq!(
        ComparisonError::Expression {
            check: 3,
            error: ExpressionError::UnknownPredicate { predicate: "Test".to_string() }
        }
        .message("shot"),
        "Image 'shot' check 3 failed: Unknown predicate used in expression: Test"
    );
}

#[test]
fn record_messages_name_the_check() {
    assert_eq!(CheckRecord::Skipped.message("shot", 0), "Image 'shot' check 0 skipped: Filtered out.");
    assert_eq!(
        CheckRecord::Passed { outliers: 18446744073709551615, max_difference: 7 }.message("shot", 10),
        "Image 'shot' check 10 succeeded: 18446744073709551615 outliers found, max difference 7"
    );
}
