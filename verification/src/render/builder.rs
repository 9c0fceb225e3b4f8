//! What the host is told when a program cannot be built.

use vstd::prelude::*;
use vstd::view::View as _;
use vstd::string::StringExecFns;
use super::api::FailureView;
use super::render::RenderInitialisationError;

verus! {

/// Why a program, or the render on top of it, could not be built.
#[derive(Clone, Debug, PartialEq, Eq)]
pub enum BuildError {
    ExpectedContext,
    ExpectedVertShaded,
    ExpectedFragShaded,
    /// The shader did not compile; the reason is the log of the compiler,
    /// where the context had one.
    FailedToCompileShader(Option<String>),
    FailedToLinkProgram,
    CannotCreateShader,
    CannotCreateProgram,
    InitialisationError(RenderInitialisationError),
}

/// A `BuildError` as a mathematical value.
pub enum BuildErrorView {
    ExpectedContext,
    ExpectedVertShaded,
    ExpectedFragShaded,
    FailedToCompileShader(Option<Seq<char>>),
    FailedToLinkProgram,
    CannotCreateShader,
    CannotCreateProgram,
    InitialisationError(FailureView),
}

impl vstd::view::View for BuildError {
    type V = BuildErrorView;

    open spec fn view(&self) -> BuildErrorView {
        match self {
            BuildError::ExpectedContext => BuildErrorView::ExpectedContext,
            BuildError::ExpectedVertShaded => BuildErrorView::ExpectedVertShaded,
            BuildError::ExpectedFragShaded => BuildErrorView::ExpectedFragShaded,
            BuildError::FailedToCompileShader(None) => BuildErrorView::FailedToCompileShader(None),
            BuildError::FailedToCompileShader(Some(reason)) => {
                BuildErrorView::FailedToCompileShader(Some(reason@))
            },
            BuildError::FailedToLinkProgram => BuildErrorView::FailedToLinkProgram,
            BuildError::CannotCreateShader => BuildErrorView::CannotCreateShader,
            BuildError::CannotCreateProgram => BuildErrorView::CannotCreateProgram,
            BuildError::InitialisationError(error) => BuildErrorView::InitialisationError(error@),
        }
    }
}

impl BuildErrorView {
    /// The text of the message for this error.
    pub open spec fn message(self) -> Seq<char> {
        match self {
            BuildErrorView::ExpectedContext => "expected webgl context to be defined"@,
            BuildErrorView::ExpectedFragShaded => "expected frag shader to be defined"@,
            BuildErrorView::ExpectedVertShaded => "expected vert shader to be defined"@,
            BuildErrorView::FailedToCompileShader(None) => {
                "failed to compile shader, for an unknown reason"@
            },
            BuildErrorView::FailedToCompileShader(Some(reason)) => "failed to compile shader: "@
                + reason,
            BuildErrorView::FailedToLinkProgram => "failed to link program"@,
            BuildErrorView::CannotCreateShader => "could not create a shader from the context"@,
            BuildErrorView::CannotCreateProgram => "could not create a program from the context"@,
            BuildErrorView::InitialisationError(error) => "failed to initialize render: "@
                + RenderInitialisationError::message(error),
        }
    }
}

impl From<RenderInitialisationError> for BuildError {
    fn from(error: RenderInitialisationError) -> (wrapped: Self) {
        BuildError::InitialisationError(error)
    }
}

impl vstd::std_specs::convert::FromSpecImpl<RenderInitialisationError> for BuildError {
    open spec fn obeys_from_spec() -> bool {
        true
    }

    open spec fn from_spec(error: RenderInitialisationError) -> Self {
        BuildError::InitialisationError(error)
    }
}

impl BuildError {
    pub fn to_string(self) -> (text: String)
        ensures
            text@ == self@.message(),
    {
        match self {
            BuildError::ExpectedContext => String::from_str("expected webgl context to be defined"),
            BuildError::ExpectedFragShaded => String::from_str(
                "expected frag shader to be defined",
            ),
            BuildError::ExpectedVertShaded => String::from_str(
                "expected vert shader to be defined",
            ),
            BuildError::FailedToCompileShader(reason) => match reason {
                None => String::from_str("failed to compile shader, for an unknown reason"),
                Some(reason) => String::from_str("failed to compile shader: ").concat(
                    reason.as_str(),
                ),
            },
            BuildError::FailedToLinkProgram => String::from_str("failed to link program"),
            BuildError::CannotCreateShader => String::from_str(
                "could not create a shader from the context",
            ),
            BuildError::CannotCreateProgram => String::from_str(
                "could not create a program from the context",
            ),
            BuildError::InitialisationError(error) => {
                let inner = error.to_string();
                String::from_str("failed to initialize render: ").concat(inner.as_str())
            },
        }
    }
}

/// Collects what a program is built from, and names the first part that
/// is missing: the context, then the vertex shader, then the fragment
/// shader.
pub fn required_parts<C, S>(
    context: Option<C>,
    vert_shader: Option<S>,
    frag_shader: Option<S>,
) -> (result: Result<(C, S, S), BuildError>)
    ensures
        match result {
            Ok(parts) => {
                &&& context == Some(parts.0)
                &&& vert_shader == Some(parts.1)
                &&& frag_shader == Some(parts.2)
            },
            Err(error) => {
                if context is None {
                    error@ == BuildErrorView::ExpectedContext
                } else if vert_shader is None {
                    error@ == BuildErrorView::ExpectedVertShaded
                } else {
                    frag_shader is None && error@ == BuildErrorView::ExpectedFragShaded
                }
            },
        },
{
    let context = match context {
        Some(context) => context,
        None => {
            return Err(BuildError::ExpectedContext);
        },
    };
    let vert_shader = match vert_shader {
        Some(shader) => shader,
        None => {
            return Err(BuildError::ExpectedVertShaded);
        },
    };
    let frag_shader = match frag_shader {
        Some(shader) => shader,
        None => {
            return Err(BuildError::ExpectedFragShaded);
        },
    };
    Ok((context, vert_shader, frag_shader))
}

/// Reads the compile status of a shader: without a status the shader
/// has failed for an unknown reason, and with a status of `false` it has
/// failed for the reason in `info_log`.
pub fn shader_compiled(status: Option<bool>, info_log: Option<String>) -> (result: Result<
    (),
    BuildError,
>)
    ensures
        match result {
            Ok(()) => status == Some(true),
            Err(error) => match status {
                None => error@ == BuildErrorView::FailedToCompileShader(None),
                Some(compiled) => !compiled && error == BuildError::FailedToCompileShader(
                    info_log,
                ),
            },
        },
{
    match status {
        None => Err(BuildError::FailedToCompileShader(None)),
        Some(true) => Ok(()),
        Some(false) => Err(BuildError::FailedToCompileShader(info_log)),
    }
}

/// Reads the link status of a program: only a status of `true` says that
/// the program can be used.
pub fn program_linked(status: Option<bool>) -> (result: Result<(), BuildError>)
    ensures
        match result {
            Ok(()) => status == Some(true),
            Err(error) => status != Some(true) && error@ == BuildErrorView::FailedToLinkProgram,
        },
{
    match status {
        Some(true) => Ok(()),
        _ => Err(BuildError::FailedToLinkProgram),
    }
}

} // verus!
