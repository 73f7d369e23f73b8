//! The steps that have to succeed before the first frame. The caller makes
//! each request; this module says which stage follows a success and which
//! error a failure at each stage is.

use vstd::prelude::*;
use crate::surface::InitError;

verus! {

/// Why the pipeline could not be built.
#[derive(Clone, Copy, Debug, PartialEq, Eq, Structural)]
pub enum PipelineError {
    /// The shader source did not compile.
    ShaderCompile,
    /// The device refused the pipeline.
    PipelineBuild,
}

/// Why the frame loop was never entered.
#[derive(Clone, Copy, Debug, PartialEq, Eq, Structural)]
pub enum StartupError {
    Init(InitError),
    Pipeline(PipelineError),
}

/// What is to be done next on the way to the first frame.
#[derive(Clone, Copy, Debug, PartialEq, Eq, Structural)]
pub enum StartupStage {
    /// An adapter that can present to the surface is asked for.
    RequestAdapter,
    /// The adapter is asked for a device and its queue.
    RequestDevice,
    /// The shader is compiled.
    CompileShader,
    /// The pipeline is built.
    BuildPipeline,
    /// Everything is in place; frames can be rendered.
    Running,
}

/// The stage after `stage` where its request succeeded, the error where it
/// failed. Nothing is requested while running, so nothing can fail there.
pub open spec fn next_stage(
    stage: StartupStage,
    succeeded: bool,
) -> Result<StartupStage, StartupError> {
    match stage {
        StartupStage::RequestAdapter => if succeeded {
            Ok(StartupStage::RequestDevice)
        } else {
            Err(StartupError::Init(InitError::NoAdapter))
        },
        StartupStage::RequestDevice => if succeeded {
            Ok(StartupStage::CompileShader)
        } else {
            Err(StartupError::Init(InitError::NoDevice))
        },
        StartupStage::CompileShader => if succeeded {
            Ok(StartupStage::BuildPipeline)
        } else {
            Err(StartupError::Pipeline(PipelineError::ShaderCompile))
        },
        StartupStage::BuildPipeline => if succeeded {
            Ok(StartupStage::Running)
        } else {
            Err(StartupError::Pipeline(PipelineError::PipelineBuild))
        },
        StartupStage::Running => Ok(StartupStage::Running),
    }
}

/// Takes the outcome of the request that `stage` stands for.
pub fn advance(stage: StartupStage, succeeded: bool) -> (r: Result<StartupStage, StartupError>)
    ensures
        r == next_stage(stage, succeeded),
{
    match stage {
        StartupStage::RequestAdapter => if succeeded {
            Ok(StartupStage::RequestDevice)
        } else {
            Err(StartupError::Init(InitError::NoAdapter))
        },
        StartupStage::RequestDevice => if succeeded {
            Ok(StartupStage::CompileShader)
        } else {
            Err(StartupError::Init(InitError::NoDevice))
        },
        StartupStage::CompileShader => if succeeded {
            Ok(StartupStage::BuildPipeline)
        } else {
            Err(StartupError::Pipeline(PipelineError::ShaderCompile))
        },
        StartupStage::BuildPipeline => if succeeded {
            Ok(StartupStage::Running)
        } else {
            Err(StartupError::Pipeline(PipelineError::PipelineBuild))
        },
        StartupStage::Running => Ok(StartupStage::Running),
    }
}

/// How many requests still have to succeed before frames can be rendered.
pub open spec fn requests_left(stage: StartupStage) -> nat {
    match stage {
        StartupStage::RequestAdapter => 4,
        StartupStage::RequestDevice => 3,
        StartupStage::CompileShader => 2,
        StartupStage::BuildPipeline => 1,
        StartupStage::Running => 0,
    }
}

/// A failed request is always an error, and a successful one brings the
/// start exactly one request closer to running: no stage is skipped, and the
/// loop is entered only after all four requests have succeeded.
pub proof fn lemma_startup_progress(stage: StartupStage, succeeded: bool)
    requires
        stage != StartupStage::Running,
    ensures
        !succeeded ==> next_stage(stage, succeeded) is Err,
        succeeded ==> (next_stage(stage, succeeded) matches Ok(next) && requests_left(next) + 1
            == requests_left(stage)),
{
}

} // verus!
