//! Shader stages and how their source is compiled.

use vstd::prelude::*;

verus! {

/// A programmable stage of the pipeline.
#[derive(Clone, Copy, Debug, PartialEq, Eq, Structural)]
pub enum ShaderKind {
    Pixel,
    Vertex,
}

/// What the shader compiler is asked for one stage.
#[derive(Clone, Copy, Debug, PartialEq, Eq)]
pub struct CompileRequest {
    /// Name of the function that the stage starts in.
    pub entry_point: &'static str,
    /// Shader model that the stage is compiled for.
    pub target: &'static str,
    /// Whether debug information is embedded.
    pub debug: bool,
    /// Whether the optimizer is skipped.
    pub skip_optimization: bool,
}

impl ShaderKind {
    /// Name of the function that the stage starts in.
    pub open spec fn entry_point(self) -> Seq<char> {
        match self {
            ShaderKind::Pixel => "ps_main"@,
            ShaderKind::Vertex => "vs_main"@,
        }
    }

    /// Shader model that the stage is compiled for.
    pub open spec fn target(self) -> Seq<char> {
        match self {
            ShaderKind::Pixel => "ps_5_0"@,
            ShaderKind::Vertex => "vs_5_0"@,
        }
    }
}

/// The compile request for one stage. Entry point and shader model are fixed
/// per stage; a debug build embeds debug information and skips the
/// optimizer, a release build does neither.
pub fn compile(kind: &ShaderKind, debug: bool) -> (request: CompileRequest)
    ensures
        request.entry_point@ == kind.entry_point(),
        request.target@ == kind.target(),
        request.debug == debug,
        request.skip_optimization == debug,
{
    match kind {
        ShaderKind::Pixel => CompileRequest {
            entry_point: "ps_main",
            target: "ps_5_0",
            debug,
            skip_optimization: debug,
        },
        ShaderKind::Vertex => CompileRequest {
            entry_point: "vs_main",
            target: "vs_5_0",
            debug,
            skip_optimization: debug,
        },
    }
}

} // verus!
