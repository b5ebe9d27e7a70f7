//! Tracer dispatch: from the selector of a request to the inspector that
//! observes the execution, or to the error the request ends with.
use vstd::prelude::*;
use crate::error::DebugError;

verus! {

/// The built-in tracers.
#[derive(Clone, Copy, Debug, PartialEq, Eq, Structural)]
pub enum BuiltInTracer {
    FourByte,
    Call,
    PreState,
    Noop,
    Mux,
    FlatCall,
}

/// What a request asks to trace with; no selector means the opcode-level
/// struct logger.
#[derive(Clone, Copy, Debug, PartialEq, Eq, Structural)]
pub enum TracerSelector {
    BuiltIn(BuiltInTracer),
    /// A caller-supplied tracing program; this build runs none.
    Scripted,
}

/// Where a trace runs. A transaction of a block has the in-block context
/// (block hash, index, transaction hash) that the flat call tracer needs; a
/// synthetic call has none.
#[derive(Clone, Copy, Debug, PartialEq, Eq, Structural)]
pub enum TracePath {
    /// A transaction of a block: a block trace or a transaction trace.
    Transaction,
    /// A synthetic call built from a request: a single call or a transaction
    /// of a bundle.
    Call,
}

/// The tracer-specific view that the opaque configuration bag must parse into.
#[derive(Clone, Copy, Debug, PartialEq, Eq, Structural)]
pub enum ConfigView {
    CallConfig,
    PreStateConfig,
    MuxConfig,
    FlatCallConfig,
}

/// The inspector that runs over one execution, with the shaping of its frame.
#[derive(Clone, Copy, Debug, PartialEq, Eq, Structural)]
pub enum InspectorPlan {
    FourByte,
    Call,
    PreState,
    Mux,
    Noop,
    FlatCall,
    Structlog,
}

pub open spec fn scripted_disabled_msg() -> Seq<char> {
    "JS Tracer is not enabled"@
}

pub open spec fn flat_call_unsupported_msg() -> Seq<char> {
    "Flatcall tracer is not supported yet"@
}

/// The configuration view a selector needs on a path, if any. The flat call
/// tracer needs one only where it can run.
pub open spec fn config_view_of(sel: Option<TracerSelector>, path: TracePath) -> Option<ConfigView> {
    match sel {
        Some(TracerSelector::BuiltIn(BuiltInTracer::Call)) => Some(ConfigView::CallConfig),
        Some(TracerSelector::BuiltIn(BuiltInTracer::PreState)) => Some(ConfigView::PreStateConfig),
        Some(TracerSelector::BuiltIn(BuiltInTracer::Mux)) => Some(ConfigView::MuxConfig),
        Some(TracerSelector::BuiltIn(BuiltInTracer::FlatCall)) => match path {
            TracePath::Transaction => Some(ConfigView::FlatCallConfig),
            TracePath::Call => None,
        },
        _ => None,
    }
}

/// Which configuration view must be parsed before the trace can start.
pub fn required_config(sel: Option<TracerSelector>, path: TracePath) -> (r: Option<ConfigView>)
    ensures
        r == config_view_of(sel, path),
{
    match sel {
        Some(TracerSelector::BuiltIn(BuiltInTracer::Call)) => Some(ConfigView::CallConfig),
        Some(TracerSelector::BuiltIn(BuiltInTracer::PreState)) => Some(ConfigView::PreStateConfig),
        Some(TracerSelector::BuiltIn(BuiltInTracer::Mux)) => Some(ConfigView::MuxConfig),
        Some(TracerSelector::BuiltIn(BuiltInTracer::FlatCall)) => match path {
            TracePath::Transaction => Some(ConfigView::FlatCallConfig),
            TracePath::Call => None,
        },
        _ => None,
    }
}

/// Chooses the inspector for a request on a path. `config_parsed` is whether
/// the configuration bag parsed into the view that `required_config` named; it
/// is not read where no view is needed. The flat call tracer runs on the
/// transaction path only; a synthetic call reports it unsupported.
pub fn select_inspector(sel: Option<TracerSelector>, path: TracePath, config_parsed: bool) -> (r:
    Result<InspectorPlan, DebugError>)
    ensures
        match sel {
            None => r == Ok::<InspectorPlan, DebugError>(InspectorPlan::Structlog),
            Some(TracerSelector::Scripted) => r matches Err(DebugError::Unsupported(m)) && m@
                == scripted_disabled_msg(),
            Some(TracerSelector::BuiltIn(b)) => match b {
                BuiltInTracer::FourByte => r == Ok::<InspectorPlan, DebugError>(
                    InspectorPlan::FourByte,
                ),
                BuiltInTracer::Noop => r == Ok::<InspectorPlan, DebugError>(InspectorPlan::Noop),
                BuiltInTracer::FlatCall => match path {
                    TracePath::Transaction => r == if config_parsed {
                        Ok::<InspectorPlan, DebugError>(InspectorPlan::FlatCall)
                    } else {
                        Err(DebugError::InvalidTracerConfig)
                    },
                    TracePath::Call => r matches Err(DebugError::Unsupported(m)) && m@
                        == flat_call_unsupported_msg(),
                },
                BuiltInTracer::Call => r == if config_parsed {
                    Ok::<InspectorPlan, DebugError>(InspectorPlan::Call)
                } else {
                    Err(DebugError::InvalidTracerConfig)
                },
                BuiltInTracer::PreState => r == if config_parsed {
                    Ok::<InspectorPlan, DebugError>(InspectorPlan::PreState)
                } else {
                    Err(DebugError::InvalidTracerConfig)
                },
                BuiltInTracer::Mux => r == if config_parsed {
                    Ok::<InspectorPlan, DebugError>(InspectorPlan::Mux)
                } else {
                    Err(DebugError::InvalidTracerConfig)
                },
            },
        },
{
    match sel {
        None => Ok(InspectorPlan::Structlog),
        Some(TracerSelector::Scripted) => {
            proof {
                reveal_strlit("JS Tracer is not enabled");
            }
            Err(DebugError::Unsupported("JS Tracer is not enabled".to_owned()))
        },
        Some(TracerSelector::BuiltIn(b)) => match b {
            BuiltInTracer::FourByte => Ok(InspectorPlan::FourByte),
            BuiltInTracer::Noop => Ok(InspectorPlan::Noop),
            BuiltInTracer::FlatCall => match path {
                TracePath::Transaction => if config_parsed {
                    Ok(InspectorPlan::FlatCall)
                } else {
                    Err(DebugError::InvalidTracerConfig)
                },
                TracePath::Call => {
                    proof {
                        reveal_strlit("Flatcall tracer is not supported yet");
                    }
                    Err(DebugError::Unsupported("Flatcall tracer is not supported yet".to_owned()))
                },
            },
            BuiltInTracer::Call => if config_parsed {
                Ok(InspectorPlan::Call)
            } else {
                Err(DebugError::InvalidTracerConfig)
            },
            BuiltInTracer::PreState => if config_parsed {
                Ok(InspectorPlan::PreState)
            } else {
                Err(DebugError::InvalidTracerConfig)
            },
            BuiltInTracer::Mux => if config_parsed {
                Ok(InspectorPlan::Mux)
            } else {
                Err(DebugError::InvalidTracerConfig)
            },
        },
    }
}

/// Whether the plan drives the EVM at all. The no-op tracer answers with an
/// empty frame and an empty state delta without executing anything.
pub fn executes_evm(plan: InspectorPlan) -> (r: bool)
    ensures
        r == !(plan is Noop),
{
    match plan {
        InspectorPlan::Noop => false,
        _ => true,
    }
}

/// Whether shaping the frame reads the cache overlay after execution.
pub fn needs_post_state(plan: InspectorPlan) -> (r: bool)
    ensures
        r == (plan is PreState || plan is Mux),
{
    match plan {
        InspectorPlan::PreState => true,
        InspectorPlan::Mux => true,
        _ => false,
    }
}

} // verus!
