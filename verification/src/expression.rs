//! The expression evaluator: small boolean expressions over the attributes of
//! the host, used to switch single checks on and off.
//!
//! An expression combines predicates of the form `key = "value"` with `not(..)`,
//! `all(..)` and `any(..)`. Three keys are recognized: `os`, `arch` and
//! `family`. A predicate on one of them holds when the host reports exactly that
//! value. Any other predicate is a mistake in the configuration and makes the
//! evaluation fail.
//!
//! The grammar is that of `cfg_expr`, which parses the text and combines the
//! values of the predicates. What this module decides itself is verified: which
//! predicates are recognized, whether one holds on a host, and what the
//! evaluation returns.

use vstd::prelude::*;
use vstd::string::StringExecFns;

verus! {

/// Longest expression, in characters, that is handed to the parser.
///
/// `cfg_expr` counts the operators that stand directly inside one operator in
/// eight bits. An operator takes at least five characters (`all()`), so a text
/// within this limit cannot hold the 256 of them that the counter cannot take.
pub const MAX_EXPRESSION_LENGTH: usize = 1024;

/// What the host reports of itself.
#[derive(Clone, Debug, PartialEq, Eq)]
pub struct HostAttributes {
    /// Operating system, such as `linux`.
    pub os: String,
    /// CPU architecture, such as `x86_64`.
    pub arch: String,
    /// Family of the operating system, such as `unix`.
    pub family: String,
}

/// One predicate of a parsed expression.
#[derive(Clone, Debug, PartialEq, Eq)]
pub enum Predicate {
    /// `key = "val"` with a key that the grammar gives no meaning of its own.
    KeyValue { key: String, val: String, text: String },
    /// Any other predicate. Only its description is kept.
    Other { text: String },
}

/// A predicate as a mathematical value.
pub enum PredicateView {
    KeyValue { key: Seq<char>, val: Seq<char>, text: Seq<char> },
    Other { text: Seq<char> },
}

impl View for Predicate {
    type V = PredicateView;

    open spec fn view(&self) -> PredicateView {
        match self {
            Predicate::KeyValue { key, val, text } => PredicateView::KeyValue {
                key: key@,
                val: val@,
                text: text@,
            },
            Predicate::Other { text } => PredicateView::Other { text: text@ },
        }
    }
}

impl PredicateView {
    /// The description of the predicate, as it appears in error messages.
    pub open spec fn text(self) -> Seq<char> {
        match self {
            PredicateView::KeyValue { text, .. } => text,
            PredicateView::Other { text } => text,
        }
    }

    /// The predicate compares one of the three keys that the evaluator knows.
    pub open spec fn recognized(self) -> bool {
        self matches PredicateView::KeyValue { key, .. } && (key == "os"@ || key == "arch"@ || key
            == "family"@)
    }

    /// The predicate is recognized and the host reports exactly its value.
    pub open spec fn holds(self, host: HostAttributes) -> bool {
        self matches PredicateView::KeyValue { key, val, .. } && ((key == "os"@ && val == host.os@)
            || (key == "arch"@ && val == host.arch@) || (key == "family"@ && val == host.family@))
    }
}

/// The views of a sequence of predicates.
pub open spec fn predicate_views(predicates: Seq<Predicate>) -> Seq<PredicateView> {
    Seq::new(predicates.len(), |i: int| predicates[i]@)
}

/// For each predicate, whether it holds on the host.
pub open spec fn truths(predicates: Seq<PredicateView>, host: HostAttributes) -> Seq<bool> {
    Seq::new(predicates.len(), |i: int| predicates[i].holds(host))
}

/// The last predicate of the sequence that is not recognized, if there is one.
pub open spec fn last_unrecognized(predicates: Seq<PredicateView>) -> Option<PredicateView>
    decreases predicates.len(),
{
    if predicates.len() == 0 {
        None
    } else if !predicates.last().recognized() {
        Some(predicates.last())
    } else {
        last_unrecognized(predicates.drop_last())
    }
}

/// Why an expression has no value.
#[derive(Clone, Debug, PartialEq, Eq)]
pub enum ExpressionError {
    /// The text is longer than `MAX_EXPRESSION_LENGTH` characters.
    TooLong,
    /// The text is not an expression. `message` is the parser's report.
    Parse { message: String },
    /// The expression uses a predicate that the evaluator does not know.
    UnknownPredicate { predicate: String },
}

/// An expression error as a mathematical value.
pub enum ExpressionErrorView {
    TooLong,
    Parse { message: Seq<char> },
    UnknownPredicate { predicate: Seq<char> },
}

impl View for ExpressionError {
    type V = ExpressionErrorView;

    open spec fn view(&self) -> ExpressionErrorView {
        match self {
            ExpressionError::TooLong => ExpressionErrorView::TooLong,
            ExpressionError::Parse { message } => ExpressionErrorView::Parse { message: message@ },
            ExpressionError::UnknownPredicate { predicate } => ExpressionErrorView::UnknownPredicate {
                predicate: predicate@,
            },
        }
    }
}

impl ExpressionErrorView {
    /// The text that describes the error to a reader.
    pub open spec fn message(self) -> Seq<char> {
        match self {
            ExpressionErrorView::TooLong => "Cannot parse expression: it is too long"@,
            ExpressionErrorView::Parse { message } => "Cannot parse expression:\n"@ + message,
            ExpressionErrorView::UnknownPredicate { predicate } =>
                "Unknown predicate used in expression: "@ + predicate,
        }
    }
}

/// The outcome of an evaluation as a mathematical value.
pub open spec fn evaluation_view(result: Result<bool, ExpressionError>) -> Result<
    bool,
    ExpressionErrorView,
> {
    match result {
        Ok(value) => Ok(value),
        Err(error) => Err(error@),
    }
}

/// What an evaluation returns, given the predicates of the expression and the
/// value that their truths combine to: the value, unless a predicate is not
/// recognized. The error names the last such predicate.
pub open spec fn conclusion(predicates: Seq<PredicateView>, value: bool) -> Result<
    bool,
    ExpressionErrorView,
> {
    match last_unrecognized(predicates) {
        Some(predicate) => Err(ExpressionErrorView::UnknownPredicate { predicate: predicate.text() }),
        None => Ok(value),
    }
}

/// The text that the parser works on: the source itself, or what stands between
/// `cfg(` and `)` where the source is wrapped in them.
pub open spec fn cfg_body(source: Seq<char>) -> Seq<char> {
    if source.len() >= 5 && source.subrange(0, 4) == seq!['c', 'f', 'g', '('] && source.last()
        == ')' {
        source.subrange(4, source.len() - 1)
    } else {
        source
    }
}

/// The report of `cfg_expr::Expression::parse` on a text that it rejects; `None`
/// for a text that it accepts.
pub uninterp spec fn cfg_parse_error(source: Seq<char>) -> Option<Seq<char>>;

/// The text that a parsed expression was made from and keeps.
pub uninterp spec fn expression_text(expression: cfg_expr::Expression) -> Seq<char>;

/// The predicates of the expression that is parsed from `text`, in the order in
/// which an evaluation visits them.
pub uninterp spec fn cfg_predicates(text: Seq<char>) -> Seq<PredicateView>;

/// The value of the expression that is parsed from `text`, where `truths` holds
/// the value of each of its predicates, in the order of `cfg_predicates`.
pub uninterp spec fn cfg_value(text: Seq<char>, truths: Seq<bool>) -> bool;

#[verifier::external_type_specification]
#[verifier::external_body]
pub struct ExExpression(cfg_expr::Expression);

/// Calls `cfg_expr::Expression::parse` and turns its error into the error's
/// text. The contract claims that whether a text is accepted, and the report on
/// one that is not, depend on the text alone, and that an accepted expression
/// keeps the text it was given, without a surrounding `cfg( )`. Longer texts
/// are kept from the parser for the reason given at `MAX_EXPRESSION_LENGTH`.
#[verifier::external_body]
fn parse(source: &str) -> (parsed: Result<cfg_expr::Expression, String>)
    requires
        source@.len() <= MAX_EXPRESSION_LENGTH,
    ensures
        match parsed {
            Ok(expression) => cfg_parse_error(source@) is None && expression_text(expression)
                == cfg_body(source@),
            Err(message) => cfg_parse_error(source@) == Some(message@),
        },
{
    cfg_expr::Expression::parse(source).map_err(|error| error.to_string())
}

/// Calls `cfg_expr::Expression::predicates` and hands each predicate out as one
/// of this library: key and value of a `KeyValue`, and for every predicate its
/// `Debug` text. The contract claims that the predicates depend on the text of
/// the expression alone.
#[verifier::external_body]
fn predicates(expression: &cfg_expr::Expression) -> (listed: Vec<Predicate>)
    ensures
        predicate_views(listed@) == cfg_predicates(expression_text(*expression)),
{
    let converted = expression.predicates().map(|predicate| match predicate {
        cfg_expr::Predicate::KeyValue { key, val } => Predicate::KeyValue {
            key: key.to_string(),
            val: val.to_string(),
            text: format!("{predicate:?}"),
        },
        other => Predicate::Other { text: format!("{other:?}") },
    });
    converted.collect()
}

/// Calls `cfg_expr::Expression::eval`; the value of each predicate is what
/// `Predicate::holds` returns on it, converted as in `predicates`. The contract
/// claims that `eval` asks for the value of every predicate once, in the order
/// of `predicates`, and that its result depends on the text of the expression
/// and on those values alone.
#[verifier::external_body]
fn value(expression: &cfg_expr::Expression, host: &HostAttributes) -> (value: bool)
    ensures
        value == cfg_value(
            expression_text(*expression),
            truths(cfg_predicates(expression_text(*expression)), *host),
        ),
{
    expression.eval(|predicate| match predicate {
        cfg_expr::Predicate::KeyValue { key, val } => Predicate::KeyValue {
            key: key.to_string(),
            val: val.to_string(),
            text: format!("{predicate:?}"),
        }.holds(host),
        other => Predicate::Other { text: format!("{other:?}") }.holds(host),
    })
}

/// Whether `text` reads exactly as `literal`.
fn reads(text: &String, literal: &str) -> (same: bool)
    ensures
        same == (text@ == literal@),
{
    let other: String = String::from_str(literal);
    *text == other
}

impl Predicate {
    /// The description of the predicate.
    pub fn text(&self) -> (text: &String)
        ensures
            text@ == self@.text(),
    {
        match self {
            Predicate::KeyValue { text, .. } => text,
            Predicate::Other { text } => text,
        }
    }

    /// Whether the predicate compares one of the keys `os`, `arch`, `family`.
    pub fn recognized(&self) -> (known: bool)
        ensures
            known == self@.recognized(),
    {
        match self {
            Predicate::KeyValue { key, .. } => reads(key, "os") || reads(key, "arch") || reads(
                key,
                "family",
            ),
            Predicate::Other { .. } => false,
        }
    }

    /// Whether the predicate is recognized and the host reports its value.
    pub fn holds(&self, host: &HostAttributes) -> (holds: bool)
        ensures
            holds == self@.holds(*host),
    {
        proof {
            reveal_strlit("os");
            reveal_strlit("arch");
            reveal_strlit("family");
            assert("os"@.len() == 2);
            assert("arch"@.len() == 4);
            assert("family"@.len() == 6);
        }
        match self {
            Predicate::KeyValue { key, val, .. } => {
                if reads(key, "os") {
                    *val == host.os
                } else if reads(key, "arch") {
                    *val == host.arch
                } else if reads(key, "family") {
                    *val == host.family
                } else {
                    false
                }
            },
            Predicate::Other { .. } => false,
        }
    }
}

impl ExpressionError {
    /// The text that describes the error to a reader.
    pub fn message(&self) -> (message: String)
        ensures
            message@ == self@.message(),
    {
        match self {
            ExpressionError::TooLong => String::from_str("Cannot parse expression: it is too long"),
            ExpressionError::Parse { message } => String::from_str(
                "Cannot parse expression:\n",
            ).concat(message.as_str()),
            ExpressionError::UnknownPredicate { predicate } => String::from_str(
                "Unknown predicate used in expression: ",
            ).concat(predicate.as_str()),
        }
    }
}

/// Decides what an evaluation returns from the predicates of the expression and
/// the value that the expression has under their truths.
pub fn conclude(predicates: &Vec<Predicate>, value: bool) -> (result: Result<bool, ExpressionError>)
    ensures
        evaluation_view(result) == conclusion(predicate_views(predicates@), value),
{
    let ghost views = predicate_views(predicates@);
    let mut i: usize = predicates.len();
    proof {
        assert(views.take(i as int) =~= views);
    }
    while i > 0
        invariant
            i <= predicates.len(),
            views == predicate_views(predicates@),
            last_unrecognized(views) == last_unrecognized(views.take(i as int)),
        decreases i,
    {
        i = i - 1;
        proof {
            assert(views.take(i + 1).drop_last() =~= views.take(i as int));
            assert(views.take(i + 1).last() == predicates@[i as int]@);
        }
        if !predicates[i].recognized() {
            return Err(
                ExpressionError::UnknownPredicate { predicate: predicates[i].text().clone() },
            );
        }
    }
    proof {
        assert(views.take(0).len() == 0);
    }
    Ok(value)
}

/// An expression in its textual form.
#[derive(Clone, Debug, PartialEq, Eq)]
pub struct TestExpression {
    pub source: String,
}

impl TestExpression {
    pub fn new(source: String) -> (expression: TestExpression)
        ensures
            expression.source == source,
    {
        TestExpression { source }
    }

    /// What `evaluate` returns on a host: an error for a text that is too long
    /// or that the parser rejects, and otherwise the conclusion from the
    /// predicates of the parsed expression and its value on the host.
    pub open spec fn evaluation(&self, host: HostAttributes) -> Result<bool, ExpressionErrorView> {
        if self.source@.len() > MAX_EXPRESSION_LENGTH {
            Err(ExpressionErrorView::TooLong)
        } else {
            match cfg_parse_error(self.source@) {
                Some(message) => Err(ExpressionErrorView::Parse { message }),
                None => {
                    let text = cfg_body(self.source@);
                    let predicates = cfg_predicates(text);
                    conclusion(predicates, cfg_value(text, truths(predicates, host)))
                },
            }
        }
    }

    /// Evaluates the expression on a host.
    pub fn evaluate(&self, host: &HostAttributes) -> (result: Result<bool, ExpressionError>)
        ensures
            evaluation_view(result) == self.evaluation(*host),
    {
        let source: &str = self.source.as_str();
        if source.unicode_len() > MAX_EXPRESSION_LENGTH {
            return Err(ExpressionError::TooLong);
        }
        match parse(source) {
            Err(message) => Err(ExpressionError::Parse { message }),
            Ok(expression) => {
                let listed: Vec<Predicate> = predicates(&expression);
                let combined: bool = value(&expression, host);
                conclude(&listed, combined)
            },
        }
    }
}

/// `last_unrecognized` is the predicate that is not recognized and has only
/// recognized predicates behind it; there is none exactly where every predicate
/// is recognized.
pub proof fn last_unrecognized_is_last(predicates: Seq<PredicateView>)
    ensures
        match last_unrecognized(predicates) {
            Some(predicate) => exists|i: int|
                0 <= i < predicates.len() && #[trigger] predicates[i] == predicate
                    && !predicate.recognized() && forall|j: int|
                    i < j < predicates.len() ==> predicates[j].recognized(),
            None => forall|i: int| 0 <= i < predicates.len() ==> predicates[i].recognized(),
        },
    decreases predicates.len(),
{
    if predicates.len() > 0 {
        let front = predicates.drop_last();
        let end = predicates.len() - 1;
        if predicates.last().recognized() {
            last_unrecognized_is_last(front);
            match last_unrecognized(front) {
                Some(predicate) => {
                    let i = choose|i: int|
                        0 <= i < front.len() && #[trigger] front[i] == predicate
                            && !predicate.recognized() && forall|j: int|
                            i < j < front.len() ==> front[j].recognized();
                    assert(predicates[i] == predicate);
                    assert forall|j: int| i < j < predicates.len() implies predicates[j].recognized() by {
                        if j < end {
                            assert(front[j] == predicates[j]);
                        }
                    }
                },
                None => {
                    assert forall|i: int| 0 <= i < predicates.len() implies predicates[i].recognized() by {
                        if i < end {
                            assert(front[i] == predicates[i]);
                        }
                    }
                },
            }
        } else {
            assert(predicates[end] == predicates.last());
        }
    }
}

/// A predicate that is not recognized makes the conclusion an error, whatever
/// the expression's value and wherever the predicate stands.
pub proof fn unrecognized_predicate_fails(predicates: Seq<PredicateView>, value: bool, i: int)
    requires
        0 <= i < predicates.len(),
        !predicates[i].recognized(),
    ensures
        conclusion(predicates, value) is Err,
        conclusion(predicates, value)->Err_0 is UnknownPredicate,
    decreases predicates.len(),
{
    if predicates.last().recognized() {
        assert(i < predicates.len() - 1);
        assert(predicates.drop_last()[i] == predicates[i]);
        unrecognized_predicate_fails(predicates.drop_last(), value, i);
    }
}

/// Where every predicate is recognized, the conclusion is the expression's
/// value.
pub proof fn recognized_predicates_conclude(predicates: Seq<PredicateView>, value: bool)
    requires
        forall|i: int| 0 <= i < predicates.len() ==> predicates[i].recognized(),
    ensures
        conclusion(predicates, value) == Ok::<bool, ExpressionErrorView>(value),
    decreases predicates.len(),
{
    if predicates.len() > 0 {
        assert(predicates.last() == predicates[predicates.len() - 1]);
        assert forall|i: int| 0 <= i < predicates.drop_last().len() implies predicates.drop_last()[i].recognized() by {
            assert(predicates.drop_last()[i] == predicates[i]);
        }
        recognized_predicates_conclude(predicates.drop_last(), value);
    }
}

/// An expression that parses and uses a predicate that is not recognized never
/// evaluates to a value: the evaluation fails with an unknown-predicate error.
pub proof fn unknown_predicate_is_an_error(
    expression: TestExpression,
    host: HostAttributes,
    i: int,
)
    requires
        expression.source@.len() <= MAX_EXPRESSION_LENGTH,
        cfg_parse_error(expression.source@) is None,
        0 <= i < cfg_predicates(cfg_body(expression.source@)).len(),
        !cfg_predicates(cfg_body(expression.source@))[i].recognized(),
    ensures
        expression.evaluation(host) is Err,
        expression.evaluation(host)->Err_0 is UnknownPredicate,
{
    let text = cfg_body(expression.source@);
    let predicates = cfg_predicates(text);
    unrecognized_predicate_fails(predicates, cfg_value(text, truths(predicates, host)), i);
}

/// A predicate on a key other than `os`, `arch` and `family` is not recognized,
/// whatever its value.
pub proof fn other_keys_are_not_recognized(key: Seq<char>, val: Seq<char>, text: Seq<char>)
    requires
        key != "os"@,
        key != "arch"@,
        key != "family"@,
    ensures
        !(PredicateView::KeyValue { key, val, text }).recognized(),
        forall|host: HostAttributes| !(PredicateView::KeyValue { key, val, text }).holds(host),
{
}

} // verus!
