//! Verdicts on building a shader program.
//!
//! Building goes through these states: uncompiled; vertex and fragment stages
//! compiled, each on its own; then linked, or failed. The graphics driver does
//! the compiling and linking and reports on each step; the functions here
//! decide from those reports what comes next and, on failure, which
//! diagnostic to give.

use vstd::prelude::*;

verus! {

/// The two kinds of step in building a program.
#[derive(Clone, Copy, PartialEq, Eq, Structural, Debug)]
pub enum StepKind {
    /// Compiling one stage (vertex or fragment) into a shader object.
    Compile,
    /// Linking two compiled stages into a program object.
    Link,
}

/// What the graphics driver reported about one compile or link step. `H` is
/// the handle of the shader or program object.
pub enum StepReport<H> {
    /// The driver gave no object to work on.
    NotCreated,
    /// The step ran on `handle`: `succeeded` is the driver's status flag and
    /// `log` its info log, if it gave one.
    Finished { handle: H, succeeded: bool, log: Option<String> },
}

/// The diagnostic when the driver gives no object for a step of `kind`.
pub open spec fn creation_failure(kind: StepKind) -> Seq<char> {
    match kind {
        StepKind::Compile => "Unable to create shader object"@,
        StepKind::Link => "Unable to create program object"@,
    }
}

/// The diagnostic when a step of `kind` fails and the driver's log is absent
/// or empty.
pub open spec fn unknown_failure(kind: StepKind) -> Seq<char> {
    match kind {
        StepKind::Compile => "Unknown error creating shader"@,
        StepKind::Link => "Unknown error creating program object"@,
    }
}

/// Whether a report is that of a step that succeeded.
pub open spec fn step_succeeded<H>(report: StepReport<H>) -> bool {
    match report {
        StepReport::NotCreated => false,
        StepReport::Finished { succeeded, .. } => succeeded,
    }
}

/// The diagnostic for a failed step: the driver's log where it said
/// something, else a fixed message.
pub open spec fn step_diagnostic<H>(kind: StepKind, report: StepReport<H>) -> Seq<char> {
    match report {
        StepReport::NotCreated => creation_failure(kind),
        StepReport::Finished { log, .. } => match log {
            Some(l) => if l@.len() > 0 {
                l@
            } else {
                unknown_failure(kind)
            },
            None => unknown_failure(kind),
        },
    }
}

/// No fixed diagnostic is empty.
pub proof fn lemma_fixed_diagnostics_nonempty(kind: StepKind)
    ensures
        creation_failure(kind).len() > 0,
        unknown_failure(kind).len() > 0,
{
    reveal_strlit("Unable to create shader object");
    reveal_strlit("Unable to create program object");
    reveal_strlit("Unknown error creating shader");
    reveal_strlit("Unknown error creating program object");
}

/// The outcome of one step: the object where the driver reports success,
/// else a diagnostic that is never empty.
pub fn step_verdict<H>(kind: StepKind, report: StepReport<H>) -> (r: Result<H, String>)
    ensures
        r is Ok <==> step_succeeded(report),
        r matches Ok(h) ==> report matches StepReport::Finished { handle, .. } && h == handle,
        r matches Err(d) ==> d@ == step_diagnostic(kind, report) && d@.len() > 0,
{
    proof {
        lemma_fixed_diagnostics_nonempty(kind);
    }
    match report {
        StepReport::NotCreated => Err(creation_message(kind)),
        StepReport::Finished { handle, succeeded, log } => {
            if succeeded {
                Ok(handle)
            } else {
                match log {
                    Some(l) => {
                        if l.as_str().is_empty() {
                            Err(unknown_message(kind))
                        } else {
                            Err(l)
                        }
                    },
                    None => Err(unknown_message(kind)),
                }
            }
        },
    }
}

/// The two stages of a program that are compiled separately.
#[derive(Clone, Copy, PartialEq, Eq, Structural, Debug)]
pub enum Stage {
    Vertex,
    Fragment,
}

/// The diagnostic when a program has no source for `stage`.
pub open spec fn missing_source(stage: Stage) -> Seq<char> {
    match stage {
        Stage::Vertex => "No vertex shader source"@,
        Stage::Fragment => "No fragment shader source"@,
    }
}

/// Whether a stage compiled; `None` stands for a stage without source.
pub open spec fn stage_ready<S>(report: Option<StepReport<S>>) -> bool {
    match report {
        Some(r) => step_succeeded(r),
        None => false,
    }
}

/// Why a stage is not ready to link.
pub open spec fn stage_diagnostic<S>(stage: Stage, report: Option<StepReport<S>>) -> Seq<char> {
    match report {
        Some(r) => step_diagnostic(StepKind::Compile, r),
        None => missing_source(stage),
    }
}

/// Linking goes ahead only when both stages compiled, and then with the two
/// compiled objects. Otherwise the diagnostic is that of the vertex stage if
/// it failed, else that of the fragment stage, and is never empty. `None`
/// stands for a stage without source.
pub fn link_inputs<S>(vertex: Option<StepReport<S>>, fragment: Option<StepReport<S>>) -> (r: Result<(S, S), String>)
    ensures
        r is Ok <==> stage_ready(vertex) && stage_ready(fragment),
        r matches Ok((v, f)) ==> {
            &&& vertex matches Some(StepReport::Finished { handle: hv, .. })
            &&& v == hv
            &&& fragment matches Some(StepReport::Finished { handle: hf, .. })
            &&& f == hf
        },
        r matches Err(d) ==> d@.len() > 0 && d@ == (if !stage_ready(vertex) {
            stage_diagnostic(Stage::Vertex, vertex)
        } else {
            stage_diagnostic(Stage::Fragment, fragment)
        }),
{
    let v = stage_verdict(Stage::Vertex, vertex);
    let f = stage_verdict(Stage::Fragment, fragment);
    match (v, f) {
        (Ok(v), Ok(f)) => Ok((v, f)),
        (Err(d), _) => Err(d),
        (Ok(_), Err(d)) => Err(d),
    }
}

fn stage_verdict<S>(stage: Stage, report: Option<StepReport<S>>) -> (r: Result<S, String>)
    ensures
        r is Ok <==> stage_ready(report),
        r matches Ok(h) ==> report matches Some(StepReport::Finished { handle, .. }) && h == handle,
        r matches Err(d) ==> d@ == stage_diagnostic(stage, report) && d@.len() > 0,
{
    match report {
        Some(rep) => step_verdict(StepKind::Compile, rep),
        None => {
            proof {
                reveal_strlit("No vertex shader source");
                reveal_strlit("No fragment shader source");
            }
            match stage {
                Stage::Vertex => Err(String::from_str("No vertex shader source")),
                Stage::Fragment => Err(String::from_str("No fragment shader source")),
            }
        },
    }
}

fn creation_message(kind: StepKind) -> (r: String)
    ensures
        r@ == creation_failure(kind),
{
    match kind {
        StepKind::Compile => String::from_str("Unable to create shader object"),
        StepKind::Link => String::from_str("Unable to create program object"),
    }
}

fn unknown_message(kind: StepKind) -> (r: String)
    ensures
        r@ == unknown_failure(kind),
{
    match kind {
        StepKind::Compile => String::from_str("Unknown error creating shader"),
        StepKind::Link => String::from_str("Unknown error creating program object"),
    }
}

} // verus!
