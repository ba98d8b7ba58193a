//! What can go wrong, and how it is reported.

use vstd::prelude::*;
use vstd::string::StringExecFns;
use crate::enums::ShaderStage;

verus! {

/// The failures the engine reports.
#[derive(Debug, PartialEq, Eq)]
pub enum EngineError {
    /// A shader stage did not compile; `diagnostic` is the driver's log.
    ShaderCompile { stage: ShaderStage, diagnostic: String },
    /// The program did not link; `diagnostic` is the driver's log.
    ShaderLink { diagnostic: String },
    /// The linked program has no active uniform of this name.
    UniformNotFound { name: String },
    /// The device has no object names left.
    DeviceAllocationFailure,
    /// The mesh data breaks the mesh invariant.
    InvalidMeshData,
}

/// The mathematical value of an [`EngineError`].
pub ghost enum Failure {
    ShaderCompile { stage: ShaderStage, diagnostic: Seq<char> },
    ShaderLink { diagnostic: Seq<char> },
    UniformNotFound { name: Seq<char> },
    DeviceAllocationFailure,
    InvalidMeshData,
}

impl View for EngineError {
    type V = Failure;

    open spec fn view(&self) -> Failure {
        match *self {
            EngineError::ShaderCompile { stage, diagnostic } => Failure::ShaderCompile {
                stage,
                diagnostic: diagnostic@,
            },
            EngineError::ShaderLink { diagnostic } => Failure::ShaderLink {
                diagnostic: diagnostic@,
            },
            EngineError::UniformNotFound { name } => Failure::UniformNotFound { name: name@ },
            EngineError::DeviceAllocationFailure => Failure::DeviceAllocationFailure,
            EngineError::InvalidMeshData => Failure::InvalidMeshData,
        }
    }
}

impl Failure {
    /// The text shown to the user for this failure. A compile failure names
    /// its stage, and driver diagnostics appear verbatim at the end.
    pub open spec fn message(self) -> Seq<char> {
        match self {
            Failure::ShaderCompile { stage, diagnostic } => match stage {
                ShaderStage::Vertex => "vertex shader failed to compile: "@ + diagnostic,
                ShaderStage::Fragment => "fragment shader failed to compile: "@ + diagnostic,
            },
            Failure::ShaderLink { diagnostic } => "shader program failed to link: "@ + diagnostic,
            Failure::UniformNotFound { name } => "cannot locate uniform: "@ + name,
            Failure::DeviceAllocationFailure => "the device has no object names left"@,
            Failure::InvalidMeshData => "mesh index out of range of its vertices"@,
        }
    }
}

impl EngineError {
    /// The text shown to the user for this failure.
    pub fn message(&self) -> (text: String)
        ensures
            text@ == self@.message(),
    {
        match self {
            EngineError::ShaderCompile { stage, diagnostic } => {
                let mut text = match stage {
                    ShaderStage::Vertex => String::from_str("vertex shader failed to compile: "),
                    ShaderStage::Fragment => String::from_str(
                        "fragment shader failed to compile: ",
                    ),
                };
                text.append(diagnostic.as_str());
                text
            },
            EngineError::ShaderLink { diagnostic } => {
                let mut text = String::from_str("shader program failed to link: ");
                text.append(diagnostic.as_str());
                text
            },
            EngineError::UniformNotFound { name } => {
                let mut text = String::from_str("cannot locate uniform: ");
                text.append(name.as_str());
                text
            },
            EngineError::DeviceAllocationFailure => String::from_str(
                "the device has no object names left",
            ),
            EngineError::InvalidMeshData => String::from_str(
                "mesh index out of range of its vertices",
            ),
        }
    }
}

} // verus!
