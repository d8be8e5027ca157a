//! Shaders: compiled bytecode plus a stage tag.
//!
//! Pipeline construction maps a textual stage tag to the fixed stage
//! enumeration; a tag outside the recognized set is a fatal configuration
//! error, never a guess.

use vstd::prelude::*;

use crate::util::str_eq;
use crate::ConfigurationError;

verus! {

/// The programmable pipeline stages.
#[derive(Clone, Copy, PartialEq, Eq, Structural, Debug)]
pub enum ShaderStage {
    Vertex,
    Fragment,
    TessellationControl,
    TessellationEvaluation,
    Geometry,
    Compute,
}

/// The stage a tag names, if any.  Both file extensions ("vert"), long
/// names ("Vertex") and short names ("vs") are recognized.
pub open spec fn spec_stage_for_tag(tag: Seq<char>) -> Option<ShaderStage> {
    if tag == "vert"@ || tag == "Vertex"@ || tag == "vs"@ {
        Some(ShaderStage::Vertex)
    } else if tag == "frag"@ || tag == "Fragment"@ || tag == "fs"@ {
        Some(ShaderStage::Fragment)
    } else if tag == "tesc"@ || tag == "Tessellation_Control"@ || tag == "tcs"@ {
        Some(ShaderStage::TessellationControl)
    } else if tag == "tese"@ || tag == "Tessellation_Evaluation"@ || tag == "tes"@ {
        Some(ShaderStage::TessellationEvaluation)
    } else if tag == "geom"@ || tag == "Geometry"@ || tag == "gs"@ {
        Some(ShaderStage::Geometry)
    } else if tag == "comp"@ || tag == "Compute"@ || tag == "cs"@ {
        Some(ShaderStage::Compute)
    } else {
        None
    }
}

/// Map a stage tag to its stage; an unrecognized tag is a fatal
/// configuration error.
pub fn shader_stage_from_tag(tag: &str) -> (r: Result<ShaderStage, ConfigurationError>)
    ensures
        r == match spec_stage_for_tag(tag@) {
            Some(s) => Result::<ShaderStage, ConfigurationError>::Ok(s),
            None => Result::<ShaderStage, ConfigurationError>::Err(
                ConfigurationError::UnknownShaderStage,
            ),
        },
{
    if str_eq(tag, "vert") || str_eq(tag, "Vertex") || str_eq(tag, "vs") {
        Ok(ShaderStage::Vertex)
    } else if str_eq(tag, "frag") || str_eq(tag, "Fragment") || str_eq(tag, "fs") {
        Ok(ShaderStage::Fragment)
    } else if str_eq(tag, "tesc") || str_eq(tag, "Tessellation_Control") || str_eq(tag, "tcs") {
        Ok(ShaderStage::TessellationControl)
    } else if str_eq(tag, "tese") || str_eq(tag, "Tessellation_Evaluation") || str_eq(tag, "tes") {
        Ok(ShaderStage::TessellationEvaluation)
    } else if str_eq(tag, "geom") || str_eq(tag, "Geometry") || str_eq(tag, "gs") {
        Ok(ShaderStage::Geometry)
    } else if str_eq(tag, "comp") || str_eq(tag, "Compute") || str_eq(tag, "cs") {
        Ok(ShaderStage::Compute)
    } else {
        Err(ConfigurationError::UnknownShaderStage)
    }
}

/// A shader asset: its stage tag, its source text and its compiled
/// bytecode.
#[derive(Clone, Debug)]
pub struct Shader {
    pub variant: String,
    pub raw_code: String,
    pub byte_code: Vec<u8>,
}

/// Builds [`Shader`] values from source text and the bytecode an external
/// compiler produced for it.
#[derive(Clone, Copy, Debug)]
pub struct ShaderLoader;

impl ShaderLoader {
    /// Accept a compiled shader: a `vert` source becomes a vertex shader,
    /// a `frag` source a fragment shader; any other extension is
    /// rejected.
    pub fn load(raw_code: String, extension: &str, byte_code: Vec<u8>) -> (r: Result<
        Shader,
        ConfigurationError,
    >)
        ensures
            extension@ == "vert"@ ==> (r matches Ok(s) && s.variant@ == "Vertex"@ && s.raw_code@
                == raw_code@ && s.byte_code@ == byte_code@),
            extension@ == "frag"@ ==> (r matches Ok(s) && s.variant@ == "Fragment"@ && s.raw_code@
                == raw_code@ && s.byte_code@ == byte_code@),
            extension@ != "vert"@ && extension@ != "frag"@ ==> r == Err::<
                Shader,
                ConfigurationError,
            >(ConfigurationError::UnknownShaderStage),
    {
        proof {
            reveal_strlit("vert");
            reveal_strlit("frag");
            assert("vert"@[0] != "frag"@[0]);
            assert("vert"@ != "frag"@);
        }
        if str_eq(extension, "vert") {
            Ok(Shader { variant: String::from_str("Vertex"), raw_code, byte_code })
        } else if str_eq(extension, "frag") {
            Ok(Shader { variant: String::from_str("Fragment"), raw_code, byte_code })
        } else {
            Err(ConfigurationError::UnknownShaderStage)
        }
    }
}

/// A shader module bound into a pipeline: the stage resolved from the
/// tag, and the size of its bytecode.
#[derive(Clone, Copy, PartialEq, Eq, Structural, Debug)]
pub struct ShaderModule {
    pub stage: ShaderStage,
    pub code_size: usize,
}

impl ShaderModule {
    /// Resolve the stage tag and record the bytecode size; an
    /// unrecognized tag is a fatal configuration error.
    pub fn new(shader_code: &Vec<u8>, variant: &str) -> (r: Result<
        ShaderModule,
        ConfigurationError,
    >)
        ensures
            r == match spec_stage_for_tag(variant@) {
                Some(s) => Result::<ShaderModule, ConfigurationError>::Ok(
                    ShaderModule { stage: s, code_size: shader_code@.len() as usize },
                ),
                None => Result::<ShaderModule, ConfigurationError>::Err(
                    ConfigurationError::UnknownShaderStage,
                ),
            },
    {
        let stage = match shader_stage_from_tag(variant) {
            Ok(s) => s,
            Err(e) => {
                return Err(e);
            },
        };
        Ok(ShaderModule { stage, code_size: shader_code.len() })
    }

    pub fn get_stage_flags(&self) -> (r: ShaderStage)
        ensures
            r == self.stage,
    {
        self.stage
    }
}

} // verus!
