//! Comparison and configuration rules for golden-artifact regression tests.
//!
//! A test case declares how the content under test is run and how its output is
//! judged against recorded reference artifacts. This library holds the rules of
//! that judgement, each with a contract that Verus proves:
//!
//! - [`image`]: the difference of two RGBA pixel buffers, its outliers under a
//!   tolerance and its largest value;
//! - [`expression`]: boolean expressions over the attributes of the host, which
//!   switch single checks on and off;
//! - [`comparison`]: the pipeline that judges a captured image by a list of
//!   checks and says which diagnostic images to persist;
//! - [`approximations`]: the tolerances and patterns for numbers in log output;
//! - [`options`]: the options of a test case and their validation;
//! - [`image_trigger`]: when a capture is taken;
//! - [`text`]: numbers as decimal text, for messages.
//!
//! The library reads no file and writes none, and it never computes with
//! floating-point numbers: it keeps each as its bit pattern. Three outside
//! crates are called: `cfg_expr` parses and combines expressions, `regex`
//! compiles number patterns, and `vfs` joins paths. What is believed of them
//! without proof is stated at the functions that make the calls.

pub mod approximations;
pub mod comparison;
pub mod expression;
pub mod image;
pub mod image_trigger;
pub mod options;
pub mod text;
