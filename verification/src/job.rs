//! The protocol of a render job.
//!
//! A job is a state that the task which runs the render and the caller
//! who polls it share. The steps of the task are transitions of that
//! state: the kernel reported, the kernel returned, the export returned.
//! What the caller reads is the progress cell, which holds a percentage
//! as long as the job runs and nothing once it is complete. The
//! percentage never falls: a report that would make it fall, or that is
//! no percentage, is passed over.

use vstd::prelude::*;
use rand::Rng;
use crate::cuda::RenderError;
use crate::math::Real;
use crate::render::Render;

verus! {

/// What a complete job yields: the render and, where it was exported, the
/// path of the picture; or the message of the failure.
pub type JobResult = Result<(Render, Option<String>), String>;

/// The number of characters in the random part of a picture's file name.
pub const RANDOM_NAME_LEN: usize = 32;

/// The pattern of the scalar one hundred.
pub const HUNDRED_BITS: u64 = 0x4059_0000_0000_0000;

/// Where the task of a job stands.
pub enum JobStage {
    /// The kernel runs on a copy of `render`. An empty `colorfunc` asks
    /// for no export.
    Computing { render: Render, colorfunc: String },
    /// The render is being exported to `path`.
    Exporting { path: String },
    /// The task has ended with this result.
    Done(JobResult),
}

/// What the task does next.
pub enum JobAction {
    /// Export `render` to `path` with the colour function `colorfunc`,
    /// then call `export_returned`.
    Export { render: Render, colorfunc: String, path: String },
    /// End.
    Finish,
}

/// The state of a job.
pub struct RenderJob {
    /// The progress cell: a percentage while the job runs, nothing once it
    /// is complete.
    pub progress: Option<Real>,
    pub stage: JobStage,
}

/// A scalar from zero to one hundred.
pub open spec fn is_percentage(p: Real) -> bool {
    (Real { bits: 0 }).spec_le(p) && p.spec_le(Real { bits: HUNDRED_BITS })
}

pub open spec fn is_alphanumeric(c: char) -> bool {
    ('0' <= c <= '9') || ('a' <= c <= 'z') || ('A' <= c <= 'Z')
}

/// A random part of a file name: `RANDOM_NAME_LEN` letters and digits.
pub open spec fn is_random_name(s: Seq<char>) -> bool {
    &&& s.len() == RANDOM_NAME_LEN
    &&& forall|i: int| 0 <= i < s.len() ==> is_alphanumeric(#[trigger] s[i])
}

/// The path of a picture in directory `dir` with the random part `name`.
pub open spec fn spec_export_path(dir: Seq<char>, name: Seq<char>) -> Seq<char> {
    dir + "/mandelbrot"@ + name + ".png"@
}

/// The message of a job whose export failed.
pub open spec fn export_error_text() -> Seq<char> {
    "Could not export image"@
}

/// `String::push` appends the one character to the string.
pub assume_specification[ String::push ](s: &mut String, ch: char)
    ensures
        final(s)@ == old(s)@.push(ch),
;

/// One draw of `rand::thread_rng()` from `rand::distributions::Alphanumeric`,
/// which yields an ASCII letter or digit. Which one is left open. The
/// generator panics where the system gives it no seed.
#[verifier::external_body]
fn random_alphanumeric() -> (c: char)
    ensures
        is_alphanumeric(c),
{
    rand::thread_rng().sample(rand::distributions::Alphanumeric)
}

/// A fresh random part of a file name.
pub fn random_name() -> (name: String)
    ensures
        is_random_name(name@),
{
    let mut name = String::new();
    let mut i: usize = 0;
    while i < RANDOM_NAME_LEN
        invariant
            i <= RANDOM_NAME_LEN,
            name@.len() == i,
            forall|j: int| 0 <= j < i ==> is_alphanumeric(#[trigger] name@[j]),
        decreases RANDOM_NAME_LEN - i,
    {
        let c = random_alphanumeric();
        name.push(c);
        i += 1;
    }
    name
}

/// The path of a picture in directory `dir` with the random part `name`.
pub fn export_path(dir: &str, name: &str) -> (path: String)
    ensures
        path@ == spec_export_path(dir@, name@),
{
    let mut path = String::from_str(dir);
    path.append("/mandelbrot");
    path.append(name);
    path.append(".png");
    path
}

impl RenderJob {
    /// The invariant of a job: the progress cell is empty exactly when
    /// the job is complete, and what it holds is a percentage.
    pub open spec fn wf(&self) -> bool {
        &&& (self.progress is None) == (self.stage is Done)
        &&& self.progress matches Some(p) ==> is_percentage(p)
    }

    /// The job takes the report `p`: it computes, `p` is a percentage,
    /// and `p` is not below what the progress cell holds.
    pub open spec fn takes_report(&self, p: Real) -> bool {
        &&& self.stage is Computing
        &&& is_percentage(p)
        &&& self.progress matches Some(held) ==> held.spec_le(p)
    }

    /// The job as `Render::run` and `Render::run_and_export` start it.
    pub open spec fn starts(&self, render: Render, colorfunc: Seq<char>) -> bool {
        &&& self.progress == Some(Real { bits: 0 })
        &&& self.stage matches JobStage::Computing { render: r, colorfunc: c }
        &&& r == render
        &&& c@ == colorfunc
    }

    /// `next` is this job after the kernel reported `p`: a job that takes
    /// the report holds `p` in its progress cell, any other job is
    /// unchanged.
    pub open spec fn reports(&self, p: Real, next: RenderJob) -> bool {
        if self.takes_report(p) {
            next.progress == Some(p) && next.stage == self.stage
        } else {
            next == *self
        }
    }

    /// `next` and `action` are what follows this job once the kernel has
    /// returned `outcome`, with `path` the place of a picture.
    ///
    /// A job that computes: on an error, is complete with the error's
    /// message; on success, holds the pixels and the iteration count
    /// that came back merged into its render, and is complete with it if
    /// no export is asked for, else hands it out for export to `path`
    /// and stays running. Any other job is unchanged and ends its task.
    pub open spec fn kernel_returns(
        &self,
        outcome: Result<Render, RenderError>,
        path: Seq<char>,
        next: RenderJob,
        action: JobAction,
    ) -> bool {
        match self.stage {
            JobStage::Computing { render, colorfunc } => match outcome {
                Err(e) => {
                    &&& next.progress is None
                    &&& next.stage matches JobStage::Done(Err(message))
                    &&& message@ == e.0@
                    &&& action is Finish
                },
                Ok(result) => {
                    let merged = Render {
                        params: render.params,
                        iterations: result.iterations,
                        pixels: result.pixels,
                    };
                    if colorfunc@.len() == 0 {
                        &&& next.progress is None
                        &&& next.stage == JobStage::Done(Ok((merged, None)))
                        &&& action is Finish
                    } else {
                        &&& next.progress == self.progress
                        &&& next.stage matches JobStage::Exporting { path: held }
                        &&& held@ == path
                        &&& action matches JobAction::Export { render: r, colorfunc: c, path: p }
                        &&& r == merged
                        &&& c@ == colorfunc@
                        &&& p@ == path
                    }
                },
            },
            _ => next == *self && action is Finish,
        }
    }

    /// `next` is this job once the export of `render` has returned. A job
    /// that exports is complete: with the render and the path if the
    /// picture was written, with an error if not. Any other job is
    /// unchanged.
    pub open spec fn export_returns(&self, render: Render, exported: bool, next: RenderJob) -> bool {
        match self.stage {
            JobStage::Exporting { path } => {
                &&& next.progress is None
                &&& if exported {
                    &&& next.stage matches JobStage::Done(Ok((r, Some(p))))
                    &&& r == render
                    &&& p@ == path@
                } else {
                    &&& next.stage matches JobStage::Done(Err(message))
                    &&& message@ == export_error_text()
                }
            },
            _ => next == *self,
        }
    }

    /// Starts a job on `render`, the progress cell at zero.
    pub fn new(render: Render, colorfunc: String) -> (job: RenderJob)
        ensures
            job.starts(render, colorfunc@),
            job.wf(),
    {
        RenderJob { progress: Some(Real::zero()), stage: JobStage::Computing { render, colorfunc } }
    }

    /// What the progress cell holds: a percentage while the job runs,
    /// nothing once it is complete.
    pub fn progress(&self) -> (p: Option<Real>)
        ensures
            p == self.progress,
            self.wf() ==> (p is None <==> self.stage is Done),
    {
        self.progress
    }

    /// Whether the task has ended.
    pub fn is_complete(&self) -> (r: bool)
        ensures
            r == (self.stage is Done),
    {
        match &self.stage {
            JobStage::Done(_) => true,
            _ => false,
        }
    }

    /// Whether `p` is a percentage.
    pub fn percentage(p: Real) -> (r: bool)
        ensures
            r == is_percentage(p),
    {
        Real::zero().le(p) && p.le(Real::from_bits(HUNDRED_BITS))
    }

    /// The kernel reports the percentage `p`. The progress cell takes it
    /// while the job computes, unless it is no percentage or would make
    /// the progress fall.
    pub fn report(self, p: Real) -> (next: RenderJob)
        ensures
            self.reports(p, next),
            self.wf() ==> next.wf(),
    {
        let rises = match self.progress {
            Some(held) => held.le(p),
            None => true,
        };
        let valid = rises && RenderJob::percentage(p);
        match self.stage {
            JobStage::Computing { render, colorfunc } => RenderJob {
                progress: if valid {
                    Some(p)
                } else {
                    self.progress
                },
                stage: JobStage::Computing { render, colorfunc },
            },
            stage => RenderJob { progress: self.progress, stage },
        }
    }

    /// The kernel has returned `outcome`, with `path` the place of a
    /// picture.
    pub fn kernel_returned_to(self, outcome: Result<Render, RenderError>, path: String) -> (r: (
        RenderJob,
        JobAction,
    ))
        ensures
            self.kernel_returns(outcome, path@, r.0, r.1),
            self.wf() ==> r.0.wf(),
    {
        match self.stage {
            JobStage::Computing { render, colorfunc } => match outcome {
                Err(e) => (
                    RenderJob { progress: None, stage: JobStage::Done(Err(e.0)) },
                    JobAction::Finish,
                ),
                Ok(result) => {
                    let merged = Render {
                        params: render.params,
                        iterations: result.iterations,
                        pixels: result.pixels,
                    };
                    if colorfunc.as_str().unicode_len() == 0 {
                        (
                            RenderJob { progress: None, stage: JobStage::Done(Ok((merged, None))) },
                            JobAction::Finish,
                        )
                    } else {
                        let held = path.clone();
                        (
                            RenderJob {
                                progress: self.progress,
                                stage: JobStage::Exporting { path: held },
                            },
                            JobAction::Export { render: merged, colorfunc, path },
                        )
                    }
                },
            },
            stage => (RenderJob { progress: self.progress, stage }, JobAction::Finish),
        }
    }

    /// The job computes, `outcome` is a success and a colour function is
    /// named: a picture will be asked for.
    pub open spec fn asks_for_picture(&self, outcome: Result<Render, RenderError>) -> bool {
        match self.stage {
            JobStage::Computing { render, colorfunc } => outcome is Ok && colorfunc@.len() > 0,
            _ => false,
        }
    }

    /// Whether a picture will be asked for once the kernel returns
    /// `outcome`.
    pub fn will_export(&self, outcome: &Result<Render, RenderError>) -> (r: bool)
        ensures
            r == self.asks_for_picture(*outcome),
    {
        match &self.stage {
            JobStage::Computing { render, colorfunc } => outcome.is_ok()
                && colorfunc.as_str().unicode_len() > 0,
            _ => false,
        }
    }

    /// The kernel has returned `outcome`. A picture, if one is asked for,
    /// goes to directory `dir` under a fresh random name.
    pub fn kernel_returned(self, outcome: Result<Render, RenderError>, dir: &str) -> (r: (
        RenderJob,
        JobAction,
    ))
        ensures
            exists|name: Seq<char>|
                is_random_name(name) && self.kernel_returns(
                    outcome,
                    spec_export_path(dir@, name),
                    r.0,
                    r.1,
                ),
            self.wf() ==> r.0.wf(),
    {
        if self.will_export(&outcome) {
            let name = random_name();
            let path = export_path(dir, name.as_str());
            self.kernel_returned_to(outcome, path)
        } else {
            let r = self.kernel_returned_to(outcome, String::new());
            proof {
                let name = Seq::new(RANDOM_NAME_LEN as nat, |i: int| 'a');
                assert(is_random_name(name));
            }
            r
        }
    }

    /// The export of `render` has returned, with the picture written or
    /// not.
    pub fn export_returned(self, render: Render, exported: bool) -> (next: RenderJob)
        ensures
            self.export_returns(render, exported, next),
            self.wf() ==> next.wf(),
    {
        match self.stage {
            JobStage::Exporting { path } => {
                if exported {
                    RenderJob { progress: None, stage: JobStage::Done(Ok((render, Some(path)))) }
                } else {
                    RenderJob {
                        progress: None,
                        stage: JobStage::Done(Err(String::from_str("Could not export image"))),
                    }
                }
            },
            stage => RenderJob { progress: self.progress, stage },
        }
    }

    /// The result of a complete job. The job is consumed: no second call
    /// can be made on it.
    pub fn join(self) -> (result: JobResult)
        requires
            self.stage is Done,
        ensures
            self.stage == JobStage::Done(result),
    {
        match self.stage {
            JobStage::Done(result) => result,
            _ => vstd::pervasive::unreached(),
        }
    }
}

impl Render {
    /// Starts a job on this render that exports nothing.
    pub fn run(self) -> (job: RenderJob)
        ensures
            job.starts(self, Seq::empty()),
            job.wf(),
    {
        RenderJob::new(self, String::new())
    }

    /// Starts a job on this render that exports the picture with the
    /// colour function named `colorfunc`.
    pub fn run_and_export(self, colorfunc: String) -> (job: RenderJob)
        ensures
            job.starts(self, colorfunc@),
            job.wf(),
    {
        RenderJob::new(self, colorfunc)
    }
}

/// The progress cell of a job is empty exactly when the job is complete,
/// and stays so through every step.
pub proof fn law_progress_empty_iff_complete(
    job: RenderJob,
    p: Real,
    outcome: Result<Render, RenderError>,
    path: Seq<char>,
    render: Render,
    exported: bool,
    next: RenderJob,
    action: JobAction,
)
    requires
        job.wf(),
        job.reports(p, next) || job.kernel_returns(outcome, path, next, action)
            || job.export_returns(render, exported, next),
    ensures
        next.wf(),
        next.progress is None <==> next.stage is Done,
{
}

/// A complete job stays as it is: whatever is reported or returns
/// afterwards, its progress cell stays empty and its result stays the
/// same.
pub proof fn law_complete_job_stays(
    job: RenderJob,
    p: Real,
    outcome: Result<Render, RenderError>,
    path: Seq<char>,
    render: Render,
    exported: bool,
    next: RenderJob,
    action: JobAction,
)
    requires
        job.wf(),
        job.progress is None,
        job.reports(p, next) || job.kernel_returns(outcome, path, next, action)
            || job.export_returns(render, exported, next),
    ensures
        next == job,
        next.progress is None,
{
}

/// Reports never empty the progress cell of a running job and never make
/// its progress fall: what the cell holds afterwards is a percentage at
/// or above the one it held.
pub proof fn law_progress_never_falls(job: RenderJob, p: Real, next: RenderJob)
    requires
        job.wf(),
        job.progress is Some,
        job.reports(p, next),
    ensures
        next.progress is Some,
        is_percentage(next.progress->0),
        job.progress->0.spec_le(next.progress->0),
{
}

} // verus!
