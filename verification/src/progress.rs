//! The progress model shared by installing and uninstalling: each report
//! names a step, a percentage and a message; the last one is `done`.
use vstd::prelude::*;
use vstd::string::*;

verus! {

pub const STEP_DONE: &'static str = "done";

pub const STEP_ERROR: &'static str = "error";

pub const MSG_INSTALL_DONE: &'static str = "安装完成";

pub const MSG_INSTALL_FAILED: &'static str = "安装失败";

/// One progress report (the payload of the `install://progress` event and of
/// the progress file).
#[derive(Debug, Clone, PartialEq)]
pub struct InstallProgress {
    /// Step name: close / extract / copy / register / shortcut / files / done / error.
    pub step: String,
    pub percent: u8,
    pub message: String,
    pub done: bool,
    pub error: Option<String>,
}

/// What an `InstallProgress` holds, as character sequences.
pub struct ProgressView {
    pub step: Seq<char>,
    pub percent: u8,
    pub message: Seq<char>,
    pub done: bool,
    pub error: Option<Seq<char>>,
}

impl View for InstallProgress {
    type V = ProgressView;

    open spec fn view(&self) -> ProgressView {
        ProgressView {
            step: self.step@,
            percent: self.percent,
            message: self.message@,
            done: self.done,
            error: match self.error {
                Some(e) => Some(e@),
                None => None,
            },
        }
    }
}

/// A report of a step still under way.
pub open spec fn running_view(step: Seq<char>, percent: u8, message: Seq<char>) -> ProgressView {
    ProgressView { step, percent, message, done: false, error: None }
}

/// The final report of a run that succeeded, with its message.
pub open spec fn finished_view(message: Seq<char>) -> ProgressView {
    ProgressView { step: STEP_DONE@, percent: 100, message, done: true, error: None }
}

/// The final report of a run that failed.
pub open spec fn failed_view(error: Seq<char>) -> ProgressView {
    ProgressView {
        step: STEP_ERROR@,
        percent: 0,
        message: MSG_INSTALL_FAILED@,
        done: true,
        error: Some(error),
    }
}

impl InstallProgress {
    /// A report of `step` under way at `percent`.
    pub fn running(step: &str, percent: u8, message: String) -> (r: InstallProgress)
        ensures
            r@ == running_view(step@, percent, message@),
    {
        InstallProgress {
            step: String::from_str(step),
            percent,
            message,
            done: false,
            error: None,
        }
    }

    /// The final report of a successful install.
    pub fn finished() -> (r: InstallProgress)
        ensures
            r@ == finished_view(MSG_INSTALL_DONE@),
    {
        Self::finished_with(MSG_INSTALL_DONE)
    }

    /// The final report of a successful run with its own message (the
    /// uninstall reuses the same model).
    pub fn finished_with(message: &str) -> (r: InstallProgress)
        ensures
            r@ == finished_view(message@),
    {
        InstallProgress {
            step: String::from_str(STEP_DONE),
            percent: 100,
            message: String::from_str(message),
            done: true,
            error: None,
        }
    }

    /// The final report of a failed run.
    pub fn failed(error: String) -> (r: InstallProgress)
        ensures
            r@ == failed_view(error@),
            r.done,
            r.error matches Some(m) && m@ == error@,
    {
        InstallProgress {
            step: String::from_str(STEP_ERROR),
            percent: 0,
            message: String::from_str(MSG_INSTALL_FAILED),
            done: true,
            error: Some(error),
        }
    }
}

/// A report ends the run exactly when it is a final one: the report of a
/// failure is final and carries its error, as the report of success is
/// final (at 100%, without an error), while a report of a step under way
/// is not final and carries no error.
pub proof fn lemma_final_reports(
    step: Seq<char>,
    percent: u8,
    message: Seq<char>,
    error: Seq<char>,
)
    ensures
        failed_view(error).done,
        failed_view(error).error == Some(error),
        finished_view(message).done,
        finished_view(message).error is None,
        finished_view(message).percent == 100,
        !running_view(step, percent, message).done,
        running_view(step, percent, message).error is None,
{
}

/// The share of extraction done after `done` of `total` entries, scaled to
/// the 0–80 band that extraction takes in the install progress.
pub open spec fn extract_percent_of(done: int, total: int) -> int {
    done * 80 / (if total < 1 {
        1
    } else {
        total
    })
}

/// `done * 80 / max(total, 1)`.
pub fn extract_percent(done: usize, total: usize) -> (r: u8)
    requires
        done <= total,
    ensures
        r == extract_percent_of(done as int, total as int),
        r <= 80,
{
    let t: u128 = if total < 1 {
        1
    } else {
        total as u128
    };
    let d: u128 = done as u128;
    let p: u128 = d * 80 / t;
    proof {
        vstd::arithmetic::div_mod::lemma_div_is_ordered(
            (d * 80) as int,
            (t * 80) as int,
            t as int,
        );
        vstd::arithmetic::div_mod::lemma_div_multiples_vanish(80, t as int);
        assert(t * 80 == 80 * t);
    }
    p as u8
}

/// Extraction progress never goes back: more entries done give at least the
/// same percentage.
pub proof fn lemma_extract_percent_monotonic(d1: int, d2: int, total: int)
    requires
        0 <= d1 <= d2,
    ensures
        extract_percent_of(d1, total) <= extract_percent_of(d2, total),
{
    let t = if total < 1 {
        1
    } else {
        total
    };
    vstd::arithmetic::div_mod::lemma_div_is_ordered(d1 * 80, d2 * 80, t);
}

} // verus!
