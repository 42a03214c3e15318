//! The comparison check pipeline: how one captured image is judged against its
//! reference.
//!
//! A comparison is configured either by one simple check (`tolerance` and
//! `max_outliers` of the comparison itself) or by an ordered list of checks, each
//! of which an expression can switch off. The pipeline
//!
//! 1. fails at once where the two images differ in size;
//! 2. resolves the configuration to a list of checks, or fails where both forms
//!    are used;
//! 3. visits the checks in order: one that is switched off is skipped, one that
//!    finds no more outliers than it allows passes, and the first that finds more
//!    ends the comparison, as does the first whose expression has no value;
//! 4. fails where every check was skipped;
//! 5. succeeds otherwise.
//!
//! Nothing here writes a file. The report says which diagnostic images the
//! caller is to persist, and holds the two that are derived from the difference
//! buffer.

use crate::expression::evaluation_view;
use crate::expression::ExpressionError;
use crate::expression::ExpressionErrorView;
use crate::expression::HostAttributes;
use crate::expression::TestExpression;
use crate::image::alpha_differs;
use crate::image::calculate_difference_data;
use crate::image::calculate_max_difference;
use crate::image::calculate_outliers;
use crate::image::common_pixels;
use crate::image::difference;
use crate::image::difference_with_itself;
use crate::image::max_difference;
use crate::image::outliers;
use crate::image::RgbaImage;
use crate::image_trigger::ImageTrigger;
use crate::text::decimal;
use crate::text::decimal_digits;
use std::borrow::Cow;
use vstd::prelude::*;
use vstd::string::StringExecFns;

verus! {

/// One rule of a comparison.
#[derive(Clone, Debug, PartialEq, Eq)]
pub struct ImageComparisonCheck {
    /// Largest difference of a channel sample that is not an outlier.
    pub tolerance: u8,
    /// Number of outliers that the check allows.
    pub max_outliers: usize,
    /// Runs the check only where it evaluates to true; without one the check
    /// always runs.
    pub filter: Option<TestExpression>,
}

/// How one capture is compared with its reference image.
#[derive(Clone, Debug, PartialEq, Eq)]
pub struct ImageComparison {
    /// Tolerance of the simple check.
    pub tolerance: Option<u8>,
    /// Allowed outliers of the simple check.
    pub max_outliers: Option<usize>,
    /// The checks of the advanced form, in the order in which they are made.
    pub checks: Vec<ImageComparisonCheck>,
    /// When the capture is taken.
    pub trigger: ImageTrigger,
}

impl Default for ImageComparisonCheck {
    fn default() -> (check: ImageComparisonCheck)
        ensures
            check == (ImageComparisonCheck { tolerance: 0, max_outliers: 0, filter: None }),
    {
        ImageComparisonCheck { tolerance: 0, max_outliers: 0, filter: None }
    }
}

impl Default for ImageComparison {
    fn default() -> (comparison: ImageComparison)
        ensures
            comparison.tolerance is None,
            comparison.max_outliers is None,
            comparison.checks@.len() == 0,
            comparison.trigger == ImageTrigger::LastFrame,
    {
        ImageComparison {
            tolerance: None,
            max_outliers: None,
            checks: Vec::new(),
            trigger: ImageTrigger::LastFrame,
        }
    }
}

/// Why a comparison failed.
#[derive(Clone, Debug, PartialEq, Eq)]
pub enum ComparisonError {
    /// The images differ in width or height.
    SizeMismatch { expected_width: u32, expected_height: u32, actual_width: u32, actual_height: u32 },
    /// The comparison has a simple check and a list of checks.
    MixedChecks,
    /// The expression of the check with this index has no value.
    Expression { check: usize, error: ExpressionError },
    /// The check with this index found more outliers than it allows.
    TooManyOutliers { check: usize, outliers: usize, max_outliers: usize, max_difference: u8 },
    /// Every check was switched off.
    NoChecksExecuted,
}

/// A comparison error as a mathematical value.
pub enum ComparisonErrorView {
    SizeMismatch { expected_width: u32, expected_height: u32, actual_width: u32, actual_height: u32 },
    MixedChecks,
    Expression { check: usize, error: ExpressionErrorView },
    TooManyOutliers { check: usize, outliers: usize, max_outliers: usize, max_difference: u8 },
    NoChecksExecuted,
}

impl View for ComparisonError {
    type V = ComparisonErrorView;

    open spec fn view(&self) -> ComparisonErrorView {
        match self {
            ComparisonError::SizeMismatch {
                expected_width,
                expected_height,
                actual_width,
                actual_height,
            } => ComparisonErrorView::SizeMismatch {
                expected_width: *expected_width,
                expected_height: *expected_height,
                actual_width: *actual_width,
                actual_height: *actual_height,
            },
            ComparisonError::MixedChecks => ComparisonErrorView::MixedChecks,
            ComparisonError::Expression { check, error } => ComparisonErrorView::Expression {
                check: *check,
                error: error@,
            },
            ComparisonError::TooManyOutliers { check, outliers, max_outliers, max_difference } =>
                ComparisonErrorView::TooManyOutliers {
                    check: *check,
                    outliers: *outliers,
                    max_outliers: *max_outliers,
                    max_difference: *max_difference,
                },
            ComparisonError::NoChecksExecuted => ComparisonErrorView::NoChecksExecuted,
        }
    }
}

/// What became of a check that did not end the comparison.
#[derive(Clone, Copy, Debug, PartialEq, Eq)]
pub enum CheckRecord {
    /// Its expression switched the check off.
    Skipped,
    /// The check ran and found no more outliers than it allows.
    Passed { outliers: usize, max_difference: u8 },
}

/// The diagnostic images that the caller is to persist after a failure.
#[derive(Clone, Debug, PartialEq, Eq)]
pub struct Diagnostics {
    /// Persist the actual image.
    pub actual: bool,
    /// The colour differences to persist: three bytes per pixel.
    pub difference_color: Option<Vec<u8>>,
    /// The alpha differences to persist: one byte per pixel.
    pub difference_alpha: Option<Vec<u8>>,
}

/// Diagnostics as a mathematical value.
pub struct DiagnosticsView {
    pub actual: bool,
    pub difference_color: Option<Seq<u8>>,
    pub difference_alpha: Option<Seq<u8>>,
}

impl View for Diagnostics {
    type V = DiagnosticsView;

    open spec fn view(&self) -> DiagnosticsView {
        DiagnosticsView {
            actual: self.actual,
            difference_color: match self.difference_color {
                Some(data) => Some(data@),
                None => None,
            },
            difference_alpha: match self.difference_alpha {
                Some(data) => Some(data@),
                None => None,
            },
        }
    }
}

/// What a comparison found.
#[derive(Debug, PartialEq, Eq)]
pub struct ComparisonReport {
    /// Whether the comparison passed.
    pub result: Result<(), ComparisonError>,
    /// One record for each check that was visited and did not end the
    /// comparison, in the order of the checks.
    pub records: Vec<CheckRecord>,
    /// What to persist.
    pub diagnostics: Diagnostics,
}

/// A report as a mathematical value.
pub struct ComparisonReportView {
    pub result: Result<(), ComparisonErrorView>,
    pub records: Seq<CheckRecord>,
    pub diagnostics: DiagnosticsView,
}

impl View for ComparisonReport {
    type V = ComparisonReportView;

    open spec fn view(&self) -> ComparisonReportView {
        ComparisonReportView {
            result: match self.result {
                Ok(_) => Ok(()),
                Err(error) => Err(error@),
            },
            records: self.records@,
            diagnostics: self.diagnostics@,
        }
    }
}

/// Nothing is persisted.
pub open spec fn no_diagnostics() -> DiagnosticsView {
    DiagnosticsView { actual: false, difference_color: None, difference_alpha: None }
}

/// The first three samples of every complete pixel of a difference buffer.
pub open spec fn color_channels(difference_data: Seq<u8>) -> Seq<u8> {
    Seq::new(
        (3 * (difference_data.len() / 4)) as nat,
        |i: int| difference_data[4 * (i / 3) + i % 3],
    )
}

/// The fourth sample of every complete pixel of a difference buffer.
pub open spec fn alpha_channel(difference_data: Seq<u8>) -> Seq<u8> {
    Seq::new(difference_data.len() / 4, |p: int| difference_data[4 * p + 3])
}

/// What is persisted when a check fails: nothing for a test that is known to
/// fail; otherwise the actual image, the colour differences and, where the
/// alpha samples differ, the alpha differences.
pub open spec fn failure_diagnostics(
    difference_data: Seq<u8>,
    is_alpha_different: bool,
    known_failure: bool,
) -> DiagnosticsView {
    DiagnosticsView {
        actual: !known_failure,
        difference_color: if known_failure {
            None
        } else {
            Some(color_channels(difference_data))
        },
        difference_alpha: if is_alpha_different && !known_failure {
            Some(alpha_channel(difference_data))
        } else {
            None
        },
    }
}

/// The views of the outcomes of the expressions of a list of checks.
pub open spec fn gate_views(gates: Seq<Result<bool, ExpressionError>>) -> Seq<
    Result<bool, ExpressionErrorView>,
> {
    Seq::new(gates.len(), |i: int| evaluation_view(gates[i]))
}

/// The expression switches the check off.
pub open spec fn skips(gate: Result<bool, ExpressionErrorView>) -> bool {
    gate matches Ok(run) && !run
}

/// The expression lets the check run.
pub open spec fn runs(gate: Result<bool, ExpressionErrorView>) -> bool {
    gate matches Ok(run) && run
}

/// The check with index `i` ends the comparison: its expression has no value,
/// or it runs and finds more outliers than it allows.
pub open spec fn stops_at(
    checks: Seq<ImageComparisonCheck>,
    gates: Seq<Result<bool, ExpressionErrorView>>,
    difference_data: Seq<u8>,
    i: int,
) -> bool {
    gates[i] is Err || (runs(gates[i]) && outliers(difference_data, checks[i].tolerance)
        > checks[i].max_outliers)
}

/// The check with index `i` ends the comparison and none before it does.
pub open spec fn is_first_stop(
    checks: Seq<ImageComparisonCheck>,
    gates: Seq<Result<bool, ExpressionErrorView>>,
    difference_data: Seq<u8>,
    i: int,
) -> bool {
    &&& 0 <= i < checks.len()
    &&& stops_at(checks, gates, difference_data, i)
    &&& forall|j: int| 0 <= j < i ==> !stops_at(checks, gates, difference_data, j)
}

/// The record of a check that does not end the comparison.
pub open spec fn record_at(
    checks: Seq<ImageComparisonCheck>,
    gates: Seq<Result<bool, ExpressionErrorView>>,
    difference_data: Seq<u8>,
    i: int,
) -> CheckRecord {
    if skips(gates[i]) {
        CheckRecord::Skipped
    } else {
        CheckRecord::Passed {
            outliers: outliers(difference_data, checks[i].tolerance) as usize,
            max_difference: max_difference(difference_data),
        }
    }
}

/// The error of the check that ends the comparison.
pub open spec fn error_at(
    checks: Seq<ImageComparisonCheck>,
    gates: Seq<Result<bool, ExpressionErrorView>>,
    difference_data: Seq<u8>,
    i: int,
) -> ComparisonErrorView {
    match gates[i] {
        Err(error) => ComparisonErrorView::Expression { check: i as usize, error },
        Ok(_) => ComparisonErrorView::TooManyOutliers {
            check: i as usize,
            outliers: outliers(difference_data, checks[i].tolerance) as usize,
            max_outliers: checks[i].max_outliers,
            max_difference: max_difference(difference_data),
        },
    }
}

/// The report on a list of checks, given for each check what its expression
/// evaluates to.
///
/// Where some check ends the comparison, the first such check decides: the
/// result is its error, the records are those of the checks before it, and the
/// diagnostics are those of a failure if it ran. Otherwise every check has a
/// record, nothing is persisted, and the comparison passes if at least one check
/// ran.
pub open spec fn judgement(
    checks: Seq<ImageComparisonCheck>,
    gates: Seq<Result<bool, ExpressionErrorView>>,
    difference_data: Seq<u8>,
    is_alpha_different: bool,
    known_failure: bool,
) -> ComparisonReportView {
    if exists|i: int| is_first_stop(checks, gates, difference_data, i) {
        let stop = choose|i: int| is_first_stop(checks, gates, difference_data, i);
        ComparisonReportView {
            result: Err(error_at(checks, gates, difference_data, stop)),
            records: Seq::new(stop as nat, |j: int| record_at(checks, gates, difference_data, j)),
            diagnostics: if gates[stop] is Err {
                no_diagnostics()
            } else {
                failure_diagnostics(difference_data, is_alpha_different, known_failure)
            },
        }
    } else {
        ComparisonReportView {
            result: if exists|i: int| 0 <= i < checks.len() && runs(#[trigger] gates[i]) {
                Ok(())
            } else {
                Err(ComparisonErrorView::NoChecksExecuted)
            },
            records: Seq::new(checks.len(), |j: int| record_at(checks, gates, difference_data, j)),
            diagnostics: no_diagnostics(),
        }
    }
}

/// What the expression of a check evaluates to on a host. A check without an
/// expression always runs.
pub open spec fn gate(check: ImageComparisonCheck, host: HostAttributes) -> Result<
    bool,
    ExpressionErrorView,
> {
    match check.filter {
        Some(filter) => filter.evaluation(host),
        None => Ok(true),
    }
}

/// For each check, what its expression evaluates to on a host.
pub open spec fn gates_on(checks: Seq<ImageComparisonCheck>, host: HostAttributes) -> Seq<
    Result<bool, ExpressionErrorView>,
> {
    Seq::new(checks.len(), |i: int| gate(checks[i], host))
}

/// The checks that a borrowed or owned list stands for.
pub open spec fn check_list(checks: Cow<'_, [ImageComparisonCheck]>) -> Seq<ImageComparisonCheck> {
    match checks {
        Cow::Borrowed(borrowed) => borrowed@,
        Cow::Owned(owned) => owned@,
    }
}

/// The report on a size mismatch: the actual image is persisted unless the test
/// is known to fail.
pub open spec fn size_mismatch_report(
    actual_image: RgbaImage,
    expected_image: RgbaImage,
    known_failure: bool,
) -> ComparisonReportView {
    ComparisonReportView {
        result: Err(
            ComparisonErrorView::SizeMismatch {
                expected_width: expected_image.width,
                expected_height: expected_image.height,
                actual_width: actual_image.width,
                actual_height: actual_image.height,
            },
        ),
        records: Seq::empty(),
        diagnostics: DiagnosticsView {
            actual: !known_failure,
            difference_color: None,
            difference_alpha: None,
        },
    }
}

/// The report on a comparison that is configured in both forms.
pub open spec fn mixed_checks_report() -> ComparisonReportView {
    ComparisonReportView {
        result: Err(ComparisonErrorView::MixedChecks),
        records: Seq::empty(),
        diagnostics: no_diagnostics(),
    }
}

impl ImageComparison {
    /// The comparison has a simple check.
    pub open spec fn has_simple_check(&self) -> bool {
        self.tolerance is Some || self.max_outliers is Some
    }

    /// The comparison is configured in both forms at once.
    pub open spec fn is_mixed(&self) -> bool {
        self.has_simple_check() && self.checks@.len() > 0
    }

    /// The simple check: what is not set counts as zero, and it always runs.
    pub open spec fn simple_check(&self) -> ImageComparisonCheck {
        ImageComparisonCheck {
            tolerance: match self.tolerance {
                Some(tolerance) => tolerance,
                None => 0,
            },
            max_outliers: match self.max_outliers {
                Some(max_outliers) => max_outliers,
                None => 0,
            },
            filter: None,
        }
    }

    /// The checks of a comparison that is not mixed: its list where it has one,
    /// else its simple check alone.
    pub open spec fn resolved(&self) -> Seq<ImageComparisonCheck> {
        if self.checks@.len() > 0 {
            self.checks@
        } else {
            seq![self.simple_check()]
        }
    }

    /// What `test` reports on two images on a host.
    pub open spec fn report(
        &self,
        actual_image: RgbaImage,
        expected_image: RgbaImage,
        host: HostAttributes,
        known_failure: bool,
    ) -> ComparisonReportView {
        if actual_image.width != expected_image.width || actual_image.height
            != expected_image.height {
            size_mismatch_report(actual_image, expected_image, known_failure)
        } else if self.is_mixed() {
            mixed_checks_report()
        } else {
            judgement(
                self.resolved(),
                gates_on(self.resolved(), host),
                difference(actual_image.data@, expected_image.data@),
                alpha_differs(actual_image.data@, expected_image.data@),
                known_failure,
            )
        }
    }

    /// Resolves the configuration to the list of checks to make. Fails where
    /// the comparison has both a simple check and a list of checks.
    pub fn checks(&self) -> (resolved: Result<Cow<'_, [ImageComparisonCheck]>, ComparisonError>)
        ensures
            self.is_mixed() <==> resolved is Err,
            resolved matches Err(error) ==> error@ == ComparisonErrorView::MixedChecks,
            resolved matches Ok(checks) ==> check_list(checks) == self.resolved(),
    {
        let has_simple_check: bool = self.tolerance.is_some() || self.max_outliers.is_some();
        if has_simple_check && self.checks.len() > 0 {
            return Err(ComparisonError::MixedChecks);
        }
        if self.checks.len() > 0 {
            Ok(Cow::Borrowed(self.checks.as_slice()))
        } else {
            let mut single: Vec<ImageComparisonCheck> = Vec::new();
            single.push(
                ImageComparisonCheck {
                    tolerance: match self.tolerance {
                        Some(tolerance) => tolerance,
                        None => 0,
                    },
                    max_outliers: match self.max_outliers {
                        Some(max_outliers) => max_outliers,
                        None => 0,
                    },
                    filter: None,
                },
            );
            assert(single@ =~= seq![self.simple_check()]);
            Ok(Cow::Owned(single))
        }
    }

    /// Compares a captured image with its reference on a host.
    ///
    /// Images of equal dimensions must hold at least one pixel.
    pub fn test(
        &self,
        actual_image: &RgbaImage,
        expected_image: &RgbaImage,
        host: &HostAttributes,
        known_failure: bool,
    ) -> (report: ComparisonReport)
        requires
            actual_image.width == expected_image.width && actual_image.height
                == expected_image.height ==> common_pixels(
                actual_image.data@,
                expected_image.data@,
            ) >= 1,
        ensures
            report@ == self.report(*actual_image, *expected_image, *host, known_failure),
    {
        if actual_image.width != expected_image.width || actual_image.height
            != expected_image.height {
            return ComparisonReport {
                result: Err(
                    ComparisonError::SizeMismatch {
                        expected_width: expected_image.width,
                        expected_height: expected_image.height,
                        actual_width: actual_image.width,
                        actual_height: actual_image.height,
                    },
                ),
                records: Vec::new(),
                diagnostics: Diagnostics {
                    actual: !known_failure,
                    difference_color: None,
                    difference_alpha: None,
                },
            };
        }
        let mut is_alpha_different: bool = false;
        let difference_data: Vec<u8> = calculate_difference_data(
            actual_image,
            expected_image,
            &mut is_alpha_different,
        );
        let resolved = match self.checks() {
            Ok(resolved) => resolved,
            Err(error) => {
                return ComparisonReport {
                    result: Err(error),
                    records: Vec::new(),
                    diagnostics: Diagnostics {
                        actual: false,
                        difference_color: None,
                        difference_alpha: None,
                    },
                };
            },
        };
        let checks: &[ImageComparisonCheck] = match &resolved {
            Cow::Borrowed(borrowed) => borrowed,
            Cow::Owned(owned) => owned.as_slice(),
        };
        let gates: Vec<Result<bool, ExpressionError>> = evaluate_filters(checks, host);
        judge(checks, &gates, difference_data.as_slice(), is_alpha_different, known_failure)
    }
}

/// Evaluates the expression of every check on a host.
pub fn evaluate_filters(checks: &[ImageComparisonCheck], host: &HostAttributes) -> (gates: Vec<
    Result<bool, ExpressionError>,
>)
    ensures
        gates@.len() == checks@.len(),
        gate_views(gates@) == gates_on(checks@, *host),
{
    let mut gates: Vec<Result<bool, ExpressionError>> = Vec::new();
    let mut i: usize = 0;
    while i < checks.len()
        invariant
            i <= checks@.len(),
            gates@.len() == i,
            forall|j: int| 0 <= j < i ==> evaluation_view(gates@[j]) == gate(checks@[j], *host),
        decreases checks@.len() - i,
    {
        let outcome: Result<bool, ExpressionError> = match &checks[i].filter {
            Some(filter) => filter.evaluate(host),
            None => Ok(true),
        };
        gates.push(outcome);
        i = i + 1;
    }
    assert(gate_views(gates@) =~= gates_on(checks@, *host));
    gates
}

/// Takes the first three samples of every complete pixel of a difference
/// buffer.
pub fn difference_color(difference_data: &[u8]) -> (color: Vec<u8>)
    ensures
        color@ == color_channels(difference_data@),
{
    let pixels: usize = difference_data.len() / 4;
    let mut color: Vec<u8> = Vec::new();
    let mut p: usize = 0;
    while p < pixels
        invariant
            p <= pixels,
            pixels == difference_data@.len() / 4,
            difference_data@.len() <= usize::MAX,
            color@.len() == 3 * p,
            forall|i: int| 0 <= i < 3 * p ==> color@[i] == difference_data@[4 * (i / 3) + i % 3],
        decreases pixels - p,
    {
        let base: usize = 4 * p;
        color.push(difference_data[base]);
        color.push(difference_data[base + 1]);
        color.push(difference_data[base + 2]);
        p = p + 1;
    }
    assert(color@ =~= color_channels(difference_data@));
    color
}

/// Takes the fourth sample of every complete pixel of a difference buffer.
pub fn difference_alpha(difference_data: &[u8]) -> (alpha: Vec<u8>)
    ensures
        alpha@ == alpha_channel(difference_data@),
{
    let pixels: usize = difference_data.len() / 4;
    let mut alpha: Vec<u8> = Vec::new();
    let mut p: usize = 0;
    while p < pixels
        invariant
            p <= pixels,
            pixels == difference_data@.len() / 4,
            difference_data@.len() <= usize::MAX,
            alpha@.len() == p,
            forall|q: int| 0 <= q < p ==> alpha@[q] == difference_data@[4 * q + 3],
        decreases pixels - p,
    {
        alpha.push(difference_data[4 * p + 3]);
        p = p + 1;
    }
    assert(alpha@ =~= alpha_channel(difference_data@));
    alpha
}

/// Copies an expression error.
fn copy_error(error: &ExpressionError) -> (copy: ExpressionError)
    ensures
        copy@ == error@,
{
    match error {
        ExpressionError::TooLong => ExpressionError::TooLong,
        ExpressionError::Parse { message } => ExpressionError::Parse { message: message.clone() },
        ExpressionError::UnknownPredicate { predicate } => ExpressionError::UnknownPredicate {
            predicate: predicate.clone(),
        },
    }
}

/// At most one check is the first to end the comparison.
pub proof fn first_stop_is_unique(
    checks: Seq<ImageComparisonCheck>,
    gates: Seq<Result<bool, ExpressionErrorView>>,
    difference_data: Seq<u8>,
    i: int,
    j: int,
)
    requires
        is_first_stop(checks, gates, difference_data, i),
        is_first_stop(checks, gates, difference_data, j),
    ensures
        i == j,
{
}

/// Judges a difference buffer by a list of checks, given for each check what
/// its expression evaluated to. The buffer must hold at least one pixel.
pub fn judge(
    checks: &[ImageComparisonCheck],
    gates: &Vec<Result<bool, ExpressionError>>,
    difference_data: &[u8],
    is_alpha_different: bool,
    known_failure: bool,
) -> (report: ComparisonReport)
    requires
        gates@.len() == checks@.len(),
        difference_data@.len() >= 4,
    ensures
        report@ == judgement(
            checks@,
            gate_views(gates@),
            difference_data@,
            is_alpha_different,
            known_failure,
        ),
{
    let ghost views = gate_views(gates@);
    let mut records: Vec<CheckRecord> = Vec::new();
    let mut any_check_executed: bool = false;
    let mut i: usize = 0;
    while i < checks.len()
        invariant
            i <= checks@.len(),
            gates@.len() == checks@.len(),
            difference_data@.len() >= 4,
            views == gate_views(gates@),
            forall|j: int| 0 <= j < i ==> !stops_at(checks@, views, difference_data@, j),
            any_check_executed <==> exists|j: int| 0 <= j < i && runs(#[trigger] views[j]),
            records@.len() == i,
            forall|j: int|
                0 <= j < i ==> records@[j] == record_at(checks@, views, difference_data@, j),
        decreases checks@.len() - i,
    {
        let ghost stop = i as int;
        match &gates[i] {
            Err(error) => {
                let report = ComparisonReport {
                    result: Err(ComparisonError::Expression { check: i, error: copy_error(error) }),
                    records,
                    diagnostics: Diagnostics {
                        actual: false,
                        difference_color: None,
                        difference_alpha: None,
                    },
                };
                proof {
                    assert(is_first_stop(checks@, views, difference_data@, stop));
                    let chosen = choose|k: int| is_first_stop(checks@, views, difference_data@, k);
                    first_stop_is_unique(checks@, views, difference_data@, stop, chosen);
                    assert(report@.records =~= Seq::new(
                        stop as nat,
                        |j: int| record_at(checks@, views, difference_data@, j),
                    ));
                }
                return report;
            },
            Ok(false) => {
                records.push(CheckRecord::Skipped);
            },
            Ok(true) => {
                let outliers: usize = calculate_outliers(difference_data, checks[i].tolerance);
                let max_outliers: usize = checks[i].max_outliers;
                let max_difference: u8 = calculate_max_difference(difference_data);
                any_check_executed = true;
                if outliers <= max_outliers {
                    records.push(CheckRecord::Passed { outliers, max_difference });
                } else {
                    let color: Option<Vec<u8>> = if known_failure {
                        None
                    } else {
                        Some(difference_color(difference_data))
                    };
                    let alpha: Option<Vec<u8>> = if is_alpha_different && !known_failure {
                        Some(difference_alpha(difference_data))
                    } else {
                        None
                    };
                    let report = ComparisonReport {
                        result: Err(
                            ComparisonError::TooManyOutliers {
                                check: i,
                                outliers,
                                max_outliers,
                                max_difference,
                            },
                        ),
                        records,
                        diagnostics: Diagnostics {
                            actual: !known_failure,
                            difference_color: color,
                            difference_alpha: alpha,
                        },
                    };
                    proof {
                        assert(is_first_stop(checks@, views, difference_data@, stop));
                        let chosen = choose|k: int|
                            is_first_stop(checks@, views, difference_data@, k);
                        first_stop_is_unique(checks@, views, difference_data@, stop, chosen);
                        assert(report@.records =~= Seq::new(
                            stop as nat,
                            |j: int| record_at(checks@, views, difference_data@, j),
                        ));
                    }
                    return report;
                }
            },
        }
        proof {
            assert(!stops_at(checks@, views, difference_data@, stop));
            if runs(views[stop]) {
                assert(any_check_executed);
            }
        }
        i = i + 1;
    }
    let report = ComparisonReport {
        result: if any_check_executed {
            Ok(())
        } else {
            Err(ComparisonError::NoChecksExecuted)
        },
        records,
        diagnostics: Diagnostics { actual: false, difference_color: None, difference_alpha: None },
    };
    proof {
        assert(report@.records =~= Seq::new(
            checks@.len(),
            |j: int| record_at(checks@, views, difference_data@, j),
        ));
    }
    report
}

/// One of the diagnostic images of a failed comparison.
#[derive(Clone, Copy, Debug, PartialEq, Eq)]
pub enum DiagnosticImage {
    /// The captured image.
    Actual,
    /// The differences of the colour channels.
    DifferenceColor,
    /// The differences of the alpha channel.
    DifferenceAlpha,
}

impl DiagnosticImage {
    /// What the file name says of the kind of the image.
    pub open spec fn label(self) -> Seq<char> {
        match self {
            DiagnosticImage::Actual => ".actual-"@,
            DiagnosticImage::DifferenceColor => ".difference-color-"@,
            DiagnosticImage::DifferenceAlpha => ".difference-alpha-"@,
        }
    }

    /// The file name of the image: the name of the comparison, the kind of the
    /// image and the name of the environment.
    pub open spec fn file_name_of(self, name: Seq<char>, environment_name: Seq<char>) -> Seq<
        char,
    > {
        name + self.label() + environment_name + ".png"@
    }

    /// Names the file that the image is written to. The name is made of the
    /// name of the comparison and of the environment, so the images of
    /// different comparisons and environments never share a file.
    pub fn file_name(&self, name: &str, environment_name: &str) -> (file_name: String)
        ensures
            file_name@ == self.file_name_of(name@, environment_name@),
    {
        let mut file_name: String = String::from_str(name);
        match self {
            DiagnosticImage::Actual => file_name.append(".actual-"),
            DiagnosticImage::DifferenceColor => file_name.append(".difference-color-"),
            DiagnosticImage::DifferenceAlpha => file_name.append(".difference-alpha-"),
        }
        file_name.append(environment_name);
        file_name.append(".png");
        file_name
    }
}

/// How a message speaks of the check with the given index of a comparison.
pub open spec fn check_name(name: Seq<char>, check: usize) -> Seq<char> {
    "Image '"@ + name + "' check "@ + decimal_digits(check as nat)
}

/// Starts a message on the check with the given index of a comparison.
fn check_name_text(name: &str, check: usize) -> (text: String)
    ensures
        text@ == check_name(name@, check),
{
    let mut text: String = String::from_str("Image '");
    text.append(name);
    text.append("' check ");
    text.append(decimal(check as u64).as_str());
    text
}

impl ComparisonErrorView {
    /// The message of the error for the comparison of the given name. It names
    /// the comparison and the check, and gives both sides of what failed.
    pub open spec fn message(self, name: Seq<char>) -> Seq<char> {
        match self {
            ComparisonErrorView::SizeMismatch {
                expected_width,
                expected_height,
                actual_width,
                actual_height,
            } => "'"@ + name + "' image is not the right size. Expected = "@ + decimal_digits(
                expected_width as nat,
            ) + "x"@ + decimal_digits(expected_height as nat) + ", actual = "@ + decimal_digits(
                actual_width as nat,
            ) + "x"@ + decimal_digits(actual_height as nat) + "."@,
            ComparisonErrorView::MixedChecks => "Image '"@ + name
                + "' failed: Both simple and advanced checks are defined. Either remove 'tolerance' & 'max_outliers', or move it to 'checks'."@,
            ComparisonErrorView::Expression { check, error } => check_name(name, check)
                + " failed: "@ + error.message(),
            ComparisonErrorView::TooManyOutliers {
                check,
                outliers,
                max_outliers,
                max_difference,
            } => check_name(name, check) + " failed: Number of outliers ("@ + decimal_digits(
                outliers as nat,
            ) + ") is bigger than allowed limit of "@ + decimal_digits(max_outliers as nat)
                + ". Max difference is "@ + decimal_digits(max_difference as nat),
            ComparisonErrorView::NoChecksExecuted => "Image '"@ + name
                + "' failed: No checks executed."@,
        }
    }
}

impl ComparisonError {
    /// Writes the message of the error for the comparison of the given name.
    pub fn message(&self, name: &str) -> (message: String)
        ensures
            message@ == self@.message(name@),
    {
        match self {
            ComparisonError::SizeMismatch {
                expected_width,
                expected_height,
                actual_width,
                actual_height,
            } => {
                let mut message: String = String::from_str("'");
                message.append(name);
                message.append("' image is not the right size. Expected = ");
                message.append(decimal(*expected_width as u64).as_str());
                message.append("x");
                message.append(decimal(*expected_height as u64).as_str());
                message.append(", actual = ");
                message.append(decimal(*actual_width as u64).as_str());
                message.append("x");
                message.append(decimal(*actual_height as u64).as_str());
                message.append(".");
                message
            },
            ComparisonError::MixedChecks => {
                let mut message: String = String::from_str("Image '");
                message.append(name);
                message.append(
                    "' failed: Both simple and advanced checks are defined. Either remove 'tolerance' & 'max_outliers', or move it to 'checks'.",
                );
                message
            },
            ComparisonError::Expression { check, error } => {
                let mut message: String = check_name_text(name, *check);
                message.append(" failed: ");
                message.append(error.message().as_str());
                message
            },
            ComparisonError::TooManyOutliers { check, outliers, max_outliers, max_difference } => {
                let mut message: String = check_name_text(name, *check);
                message.append(" failed: Number of outliers (");
                message.append(decimal(*outliers as u64).as_str());
                message.append(") is bigger than allowed limit of ");
                message.append(decimal(*max_outliers as u64).as_str());
                message.append(". Max difference is ");
                message.append(decimal(*max_difference as u64).as_str());
                message
            },
            ComparisonError::NoChecksExecuted => {
                let mut message: String = String::from_str("Image '");
                message.append(name);
                message.append("' failed: No checks executed.");
                message
            },
        }
    }
}

impl CheckRecord {
    /// The message on a check that did not end the comparison.
    pub open spec fn message_of(self, name: Seq<char>, check: usize) -> Seq<char> {
        match self {
            CheckRecord::Skipped => check_name(name, check) + " skipped: Filtered out."@,
            CheckRecord::Passed { outliers, max_difference } => check_name(name, check)
                + " succeeded: "@ + decimal_digits(outliers as nat)
                + " outliers found, max difference "@ + decimal_digits(max_difference as nat),
        }
    }

    /// Writes the message on the check with the given index of a comparison.
    pub fn message(&self, name: &str, check: usize) -> (message: String)
        ensures
            message@ == self.message_of(name@, check),
    {
        let mut message: String = check_name_text(name, check);
        match self {
            CheckRecord::Skipped => {
                message.append(" skipped: Filtered out.");
            },
            CheckRecord::Passed { outliers, max_difference } => {
                message.append(" succeeded: ");
                message.append(decimal(*outliers as u64).as_str());
                message.append(" outliers found, max difference ");
                message.append(decimal(*max_difference as u64).as_str());
            },
        }
        message
    }
}

/// Where no check ends the comparison, the report is that of a comparison that
/// ran to its end.
proof fn judgement_without_stop(
    checks: Seq<ImageComparisonCheck>,
    gates: Seq<Result<bool, ExpressionErrorView>>,
    difference_data: Seq<u8>,
    is_alpha_different: bool,
    known_failure: bool,
)
    requires
        forall|i: int| 0 <= i < checks.len() ==> !stops_at(checks, gates, difference_data, i),
    ensures
        judgement(checks, gates, difference_data, is_alpha_different, known_failure).result is Ok
            <==> exists|i: int| 0 <= i < checks.len() && runs(#[trigger] gates[i]),
        judgement(checks, gates, difference_data, is_alpha_different, known_failure).result is Err
            ==> judgement(
            checks,
            gates,
            difference_data,
            is_alpha_different,
            known_failure,
        ).result->Err_0 == ComparisonErrorView::NoChecksExecuted,
{
}

/// Images of different dimensions fail at the size check, whatever checks are
/// configured and whatever they would find: no check is visited.
pub proof fn size_mismatch_fails_first(
    comparison: ImageComparison,
    actual_image: RgbaImage,
    expected_image: RgbaImage,
    host: HostAttributes,
    known_failure: bool,
)
    requires
        actual_image.width != expected_image.width || actual_image.height != expected_image.height,
    ensures
        comparison.report(actual_image, expected_image, host, known_failure).result == Err::<
            (),
            ComparisonErrorView,
        >(
            ComparisonErrorView::SizeMismatch {
                expected_width: expected_image.width,
                expected_height: expected_image.height,
                actual_width: actual_image.width,
                actual_height: actual_image.height,
            },
        ),
        comparison.report(actual_image, expected_image, host, known_failure).records.len() == 0,
{
}

/// A comparison with both a simple check and a list of checks fails on images of
/// equal dimensions with the error that says so; neither form is preferred.
pub proof fn mixed_configuration_fails(
    comparison: ImageComparison,
    actual_image: RgbaImage,
    expected_image: RgbaImage,
    host: HostAttributes,
    known_failure: bool,
)
    requires
        actual_image.width == expected_image.width,
        actual_image.height == expected_image.height,
        comparison.tolerance is Some || comparison.max_outliers is Some,
        comparison.checks@.len() > 0,
    ensures
        comparison.report(actual_image, expected_image, host, known_failure).result == Err::<
            (),
            ComparisonErrorView,
        >(ComparisonErrorView::MixedChecks),
{
}

/// A comparison all of whose checks are switched off by their expressions, such
/// as one whose only check is, fails because no check was executed.
pub proof fn gated_off_checks_fail(
    comparison: ImageComparison,
    actual_image: RgbaImage,
    expected_image: RgbaImage,
    host: HostAttributes,
    known_failure: bool,
)
    requires
        actual_image.width == expected_image.width,
        actual_image.height == expected_image.height,
        !comparison.is_mixed(),
        forall|i: int|
            0 <= i < comparison.resolved().len() ==> skips(
                gate(#[trigger] comparison.resolved()[i], host),
            ),
    ensures
        comparison.report(actual_image, expected_image, host, known_failure).result == Err::<
            (),
            ComparisonErrorView,
        >(ComparisonErrorView::NoChecksExecuted),
{
    let checks = comparison.resolved();
    let gates = gates_on(checks, host);
    let data = difference(actual_image.data@, expected_image.data@);
    let alpha = alpha_differs(actual_image.data@, expected_image.data@);
    assert forall|i: int| 0 <= i < checks.len() implies !stops_at(checks, gates, data, i) by {
        assert(skips(gate(checks[i], host)));
    }
    assert forall|i: int| 0 <= i < checks.len() implies !runs(#[trigger] gates[i]) by {
        assert(skips(gate(checks[i], host)));
    }
    judgement_without_stop(checks, gates, data, alpha, known_failure);
}

/// An image compared with itself passes a simple check, whatever tolerance and
/// number of outliers the check is configured with.
pub proof fn identical_images_pass(
    comparison: ImageComparison,
    image: RgbaImage,
    host: HostAttributes,
    known_failure: bool,
)
    requires
        comparison.checks@.len() == 0,
    ensures
        comparison.report(image, image, host, known_failure).result is Ok,
{
    let checks = comparison.resolved();
    let gates = gates_on(checks, host);
    let data = difference(image.data@, image.data@);
    let alpha = alpha_differs(image.data@, image.data@);
    assert(runs(gates[0]));
    assert forall|i: int| 0 <= i < checks.len() implies !stops_at(checks, gates, data, i) by {
        difference_with_itself(image.data@, checks[i].tolerance);
    }
    judgement_without_stop(checks, gates, data, alpha, known_failure);
}

/// An image compared with itself never fails for its outliers: no check finds
/// any, whatever its tolerance.
pub proof fn identical_images_have_no_outlier_failure(
    comparison: ImageComparison,
    image: RgbaImage,
    host: HostAttributes,
    known_failure: bool,
)
    ensures
        !(comparison.report(image, image, host, known_failure).result matches Err(
            ComparisonErrorView::TooManyOutliers { .. },
        )),
{
    let checks = comparison.resolved();
    let gates = gates_on(checks, host);
    let data = difference(image.data@, image.data@);
    let alpha = alpha_differs(image.data@, image.data@);
    if !comparison.is_mixed() {
        assert forall|i: int| 0 <= i < checks.len() implies (stops_at(checks, gates, data, i)
            ==> gates[i] is Err) by {
            difference_with_itself(image.data@, checks[i].tolerance);
        }
        if exists|i: int| is_first_stop(checks, gates, data, i) {
            let stop = choose|i: int| is_first_stop(checks, gates, data, i);
            assert(gates[stop] is Err);
        }
    }
}

} // verus!
