//! The numeric approximator's configuration: the tolerances under which two
//! numbers of a log count as equal, and the patterns that find such numbers.
//!
//! The tolerances are binary64 numbers. This library never computes with
//! them: it keeps each as its bit pattern and decides which comparison applies.

use vstd::prelude::*;

verus! {

/// How numbers in log output are compared.
#[derive(Clone, Debug, PartialEq, Eq)]
pub struct Approximations {
    /// Patterns of the numbers that are compared approximately.
    pub number_patterns: Vec<String>,
    /// Bit pattern of the largest absolute difference of two equal numbers.
    pub epsilon: Option<u64>,
    /// Bit pattern of the largest relative difference of two equal numbers.
    pub max_relative: Option<u64>,
}

/// Which of the four comparisons applies, with the tolerances it takes.
#[derive(Clone, Copy, Debug, PartialEq, Eq)]
pub enum ApproximationMode {
    /// Equality under both tolerances.
    EpsilonAndRelative { epsilon: u64, max_relative: u64 },
    /// Equality under the absolute tolerance, the relative one at its default.
    Epsilon { epsilon: u64 },
    /// Equality under the relative tolerance, the absolute one at its default.
    Relative { max_relative: u64 },
    /// Equality under the default tolerances.
    Default,
}

/// A pattern that is no regular expression.
#[derive(Clone, Debug, PartialEq, Eq)]
pub struct PatternError {
    /// Index of the pattern among the configured ones.
    pub index: usize,
    /// What the compiler of the pattern reported.
    pub message: String,
}

/// The pattern that a matcher was compiled from.
pub uninterp spec fn pattern_text(matcher: regex::Regex) -> Seq<char>;

#[verifier::external_type_specification]
#[verifier::external_body]
pub struct ExRegex(regex::Regex);

/// Calls `regex::Regex::new`. The contract claims that a matcher keeps the
/// pattern that it was compiled from. It says nothing of which patterns
/// compile: that depends on size limits of the build as well as on the pattern.
#[verifier::external_body]
fn compile(pattern: &str) -> (compiled: Result<regex::Regex, String>)
    ensures
        compiled matches Ok(matcher) ==> pattern_text(matcher) == pattern@,
{
    regex::Regex::new(pattern).map_err(|error| error.to_string())
}

/// Adds a compiled pattern to the matchers, or reports the pattern with the
/// given index as invalid and leaves the matchers as they are.
pub fn accept_pattern(
    compiled: Result<regex::Regex, String>,
    index: usize,
    matchers: &mut Vec<regex::Regex>,
) -> (accepted: Result<(), PatternError>)
    ensures
        match compiled {
            Ok(matcher) => accepted is Ok && final(matchers)@ == old(matchers)@.push(matcher),
            Err(message) => accepted matches Err(error) && error.index == index && error.message
                == message && final(matchers)@ == old(matchers)@,
        },
{
    match compiled {
        Ok(matcher) => {
            matchers.push(matcher);
            Ok(())
        },
        Err(message) => Err(PatternError { index, message }),
    }
}

impl Approximations {
    /// The comparison that the configured tolerances select.
    pub open spec fn selected_mode(&self) -> ApproximationMode {
        match (self.epsilon, self.max_relative) {
            (Some(epsilon), Some(max_relative)) => ApproximationMode::EpsilonAndRelative {
                epsilon,
                max_relative,
            },
            (Some(epsilon), None) => ApproximationMode::Epsilon { epsilon },
            (None, Some(max_relative)) => ApproximationMode::Relative { max_relative },
            (None, None) => ApproximationMode::Default,
        }
    }

    /// Decides which comparison applies: by both tolerances where both are set,
    /// by the one that is set, or by the defaults.
    pub fn mode(&self) -> (mode: ApproximationMode)
        ensures
            mode == self.selected_mode(),
    {
        match (self.epsilon, self.max_relative) {
            (Some(epsilon), Some(max_relative)) => ApproximationMode::EpsilonAndRelative {
                epsilon,
                max_relative,
            },
            (Some(epsilon), None) => ApproximationMode::Epsilon { epsilon },
            (None, Some(max_relative)) => ApproximationMode::Relative { max_relative },
            (None, None) => ApproximationMode::Default,
        }
    }

    /// Compiles the configured patterns, in their order. Stops at the first
    /// pattern that does not compile and reports it; no pattern is passed over.
    pub fn number_patterns(&self) -> (compiled: Result<Vec<regex::Regex>, PatternError>)
        ensures
            self.number_patterns@.len() == 0 ==> compiled is Ok,
            compiled matches Ok(matchers) ==> matchers@.len() == self.number_patterns@.len()
                && forall|i: int|
                0 <= i < matchers@.len() ==> pattern_text(#[trigger] matchers@[i])
                    == self.number_patterns@[i]@,
            compiled matches Err(error) ==> error.index < self.number_patterns@.len(),
    {
        let mut matchers: Vec<regex::Regex> = Vec::new();
        let mut i: usize = 0;
        while i < self.number_patterns.len()
            invariant
                i <= self.number_patterns@.len(),
                matchers@.len() == i,
                forall|j: int|
                    0 <= j < i ==> pattern_text(#[trigger] matchers@[j])
                        == self.number_patterns@[j]@,
            decreases self.number_patterns@.len() - i,
        {
            let compiled: Result<regex::Regex, String> = compile(self.number_patterns[i].as_str());
            match accept_pattern(compiled, i, &mut matchers) {
                Ok(_) => {},
                Err(error) => {
                    return Err(error);
                },
            }
            i = i + 1;
        }
        Ok(matchers)
    }
}

impl Default for Approximations {
    fn default() -> (approximations: Approximations)
        ensures
            approximations.number_patterns@.len() == 0,
            approximations.epsilon is None,
            approximations.max_relative is None,
    {
        Approximations { number_patterns: Vec::new(), epsilon: None, max_relative: None }
    }
}

} // verus!
