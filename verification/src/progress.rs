//! What a progress indicator shows: the messages of a step, the templates of
//! its bar, and how it ends. Drawing it is left to the host.

use crate::constants::emoji;
use crate::text::{decimal, spec_decimal};
use vstd::prelude::*;
use vstd::string::*;

verus! {

/// The template of a spinner.
pub const SPINNER_TEMPLATE: &'static str = " {spinner:.green} {msg}";

/// The colour of a step that succeeded.
pub const SUCCESS_COLOR: &'static str = "green";

/// The colour of a step that failed.
pub const ERROR_COLOR: &'static str = "red";

/// The messages of a step, and whether its line is cleared at the end.
#[derive(Debug)]
pub struct Progress<'a> {
    message: Option<&'a str>,
    success_message: Option<&'a str>,
    error_message: Option<&'a str>,
    clear: bool,
}

/// A `Progress` as the library reasons about it.
pub struct ProgressView {
    /// Shown while the step runs.
    pub message: Option<Seq<char>>,
    /// Shown when the step succeeded.
    pub success_message: Option<Seq<char>>,
    /// Shown when the step failed.
    pub error_message: Option<Seq<char>>,
    /// Whether the line is cleared when the step is over.
    pub clear: bool,
}

impl<'a> View for Progress<'a> {
    type V = ProgressView;

    closed spec fn view(&self) -> ProgressView {
        ProgressView {
            message: self.message.deep_view(),
            success_message: self.success_message.deep_view(),
            error_message: self.error_message.deep_view(),
            clear: self.clear,
        }
    }
}

/// How a step ends on the terminal.
#[derive(Debug)]
pub struct Finish<'a> {
    /// The message to show, if any.
    pub message: Option<&'a str>,
    /// The colour of the prefix and the message.
    pub color: &'static str,
    /// The symbol before the message.
    pub prefix: &'static str,
    /// What stands for the symbol on a plain terminal.
    pub fallback: &'static str,
    /// Whether the line is cleared afterwards.
    pub clear: bool,
}

/// The number of decimal digits of `n`.
pub open spec fn spec_width(n: nat) -> nat {
    spec_decimal(n).len()
}

/// The template of a bar over `len` items: position and length padded to the
/// number of digits of `len`.
pub open spec fn spec_bar_template(len: nat) -> Seq<char> {
    let width = spec_decimal(spec_width(len));
    "[{pos:>"@ + width + "}/{len:"@ + width + "}] {bar:.blue/white} {msg}"@
}

/// The template of an outcome in `color`.
pub open spec fn spec_outcome_template(color: Seq<char>) -> Seq<char> {
    "{prefix:."@ + color + "} {msg:."@ + color + "}"@
}

impl<'a> Progress<'a> {
    /// A step without messages, whose line stays.
    pub fn new() -> (r: Self)
        ensures
            r@ == (ProgressView {
                message: None,
                success_message: None,
                error_message: None,
                clear: false,
            }),
    {
        Progress { message: None, success_message: None, error_message: None, clear: false }
    }

    /// Sets the message shown while the step runs.
    pub fn message(&mut self, message: &'a str) -> (r: &mut Self)
        ensures
            r@ == (ProgressView { message: Some(message@), ..old(self)@ }),
            *final(self) == *final(r),
    {
        self.message = Some(message);
        self
    }

    /// Sets the message shown when the step succeeded.
    pub fn success_message(&mut self, message: &'a str) -> (r: &mut Self)
        ensures
            r@ == (ProgressView { success_message: Some(message@), ..old(self)@ }),
            *final(self) == *final(r),
    {
        self.success_message = Some(message);
        self
    }

    /// Sets the message shown when the step failed.
    pub fn error_message(&mut self, message: &'a str) -> (r: &mut Self)
        ensures
            r@ == (ProgressView { error_message: Some(message@), ..old(self)@ }),
            *final(self) == *final(r),
    {
        self.error_message = Some(message);
        self
    }

    /// Sets whether the line is cleared when the step is over.
    pub fn clear(&mut self, clear: bool) -> (r: &mut Self)
        ensures
            r@ == (ProgressView { clear, ..old(self)@ }),
            *final(self) == *final(r),
    {
        self.clear = clear;
        self
    }

    /// The message shown while the step runs.
    pub fn start_message(&self) -> (r: Option<&'a str>)
        ensures
            r.deep_view() == self@.message,
    {
        self.message
    }

    /// How the step ends: in green with a check mark and the success message
    /// where it succeeded, in red with a cross and the error message where it
    /// failed.
    pub fn finish(&self, success: bool) -> (r: Finish<'a>)
        ensures
            r.clear == self@.clear,
            success ==> r.message.deep_view() == self@.success_message && r.color@
                == SUCCESS_COLOR@ && r.prefix@ == emoji::CHECKMARK@ && r.fallback@
                == emoji::CHECKMARK_FALLBACK@,
            !success ==> r.message.deep_view() == self@.error_message && r.color@ == ERROR_COLOR@
                && r.prefix@ == emoji::CROSS@ && r.fallback@ == emoji::CROSS_FALLBACK@,
    {
        if success {
            Finish {
                message: self.success_message,
                color: SUCCESS_COLOR,
                prefix: emoji::CHECKMARK,
                fallback: emoji::CHECKMARK_FALLBACK,
                clear: self.clear,
            }
        } else {
            Finish {
                message: self.error_message,
                color: ERROR_COLOR,
                prefix: emoji::CROSS,
                fallback: emoji::CROSS_FALLBACK,
                clear: self.clear,
            }
        }
    }
}

impl<'a> Default for Progress<'a> {
    fn default() -> (r: Self)
        ensures
            r@ == (ProgressView {
                message: None,
                success_message: None,
                error_message: None,
                clear: false,
            }),
    {
        Progress::new()
    }
}

/// The template of a bar over `len` items.
pub fn bar_template(len: usize) -> (r: String)
    ensures
        r@ == spec_bar_template(len as nat),
{
    let digits = decimal(len);
    let width = decimal(digits.as_str().unicode_len());
    let mut out = String::from_str("[{pos:>");
    out.append(width.as_str());
    out.append("}/{len:");
    out.append(width.as_str());
    out.append("}] {bar:.blue/white} {msg}");
    out
}

/// The template of an outcome in `color`.
pub fn outcome_template(color: &str) -> (r: String)
    ensures
        r@ == spec_outcome_template(color@),
{
    let mut out = String::from_str("{prefix:.");
    out.append(color);
    out.append("} {msg:.");
    out.append(color);
    out.append("}");
    out
}

} // verus!
