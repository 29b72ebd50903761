//! The enumerations of the compiler's interface: shader stages, shader
//! models and validator versions.

use vstd::prelude::*;

verus! {

/// The shader stage of the input.
#[derive(Debug, Copy, Clone, Hash, PartialEq, Eq, Structural)]
pub enum ShaderStage {
    /// No stage.
    NoStage,
    Vertex,
    TesselationControl,
    TesselationEvaluation,
    Geometry,
    Fragment,
    Compute,
    Kernel,
}

impl ShaderStage {
    /// The number that stands for the stage in the compiler's interface.
    pub open spec fn spec_code(self) -> int {
        match self {
            ShaderStage::NoStage => -1,
            ShaderStage::Vertex => 0,
            ShaderStage::TesselationControl => 1,
            ShaderStage::TesselationEvaluation => 2,
            ShaderStage::Geometry => 3,
            ShaderStage::Fragment => 4,
            ShaderStage::Compute => 5,
            ShaderStage::Kernel => 6,
        }
    }

    /// The number that stands for the stage in the compiler's interface.
    pub fn code(self) -> (code: i32)
        ensures
            code == self.spec_code(),
    {
        match self {
            ShaderStage::NoStage => -1,
            ShaderStage::Vertex => 0,
            ShaderStage::TesselationControl => 1,
            ShaderStage::TesselationEvaluation => 2,
            ShaderStage::Geometry => 3,
            ShaderStage::Fragment => 4,
            ShaderStage::Compute => 5,
            ShaderStage::Kernel => 6,
        }
    }
}

/// The shader model to target.
#[non_exhaustive]
#[derive(Debug, Copy, Clone, Hash, PartialEq, Eq, Structural)]
pub enum ShaderModel {
    ShaderModel4_0,
    ShaderModel4_1,
    ShaderModel5_0,
    ShaderModel5_1,
    ShaderModel6_0,
    ShaderModel6_1,
    ShaderModel6_2,
    ShaderModel6_3,
    ShaderModel6_4,
    ShaderModel6_5,
    ShaderModel6_6,
    ShaderModel6_7,
    ShaderModel6_8,
}

impl ShaderModel {
    /// The model's major and minor version.
    pub open spec fn spec_version(self) -> (int, int) {
        match self {
            ShaderModel::ShaderModel4_0 => (4, 0),
            ShaderModel::ShaderModel4_1 => (4, 1),
            ShaderModel::ShaderModel5_0 => (5, 0),
            ShaderModel::ShaderModel5_1 => (5, 1),
            ShaderModel::ShaderModel6_0 => (6, 0),
            ShaderModel::ShaderModel6_1 => (6, 1),
            ShaderModel::ShaderModel6_2 => (6, 2),
            ShaderModel::ShaderModel6_3 => (6, 3),
            ShaderModel::ShaderModel6_4 => (6, 4),
            ShaderModel::ShaderModel6_5 => (6, 5),
            ShaderModel::ShaderModel6_6 => (6, 6),
            ShaderModel::ShaderModel6_7 => (6, 7),
            ShaderModel::ShaderModel6_8 => (6, 8),
        }
    }

    /// The model's version as text: major, a dot, minor.
    pub open spec fn spec_text(self) -> Seq<char> {
        match self {
            ShaderModel::ShaderModel4_0 => "4.0"@,
            ShaderModel::ShaderModel4_1 => "4.1"@,
            ShaderModel::ShaderModel5_0 => "5.0"@,
            ShaderModel::ShaderModel5_1 => "5.1"@,
            ShaderModel::ShaderModel6_0 => "6.0"@,
            ShaderModel::ShaderModel6_1 => "6.1"@,
            ShaderModel::ShaderModel6_2 => "6.2"@,
            ShaderModel::ShaderModel6_3 => "6.3"@,
            ShaderModel::ShaderModel6_4 => "6.4"@,
            ShaderModel::ShaderModel6_5 => "6.5"@,
            ShaderModel::ShaderModel6_6 => "6.6"@,
            ShaderModel::ShaderModel6_7 => "6.7"@,
            ShaderModel::ShaderModel6_8 => "6.8"@,
        }
    }

    /// Whether the model is later than 5.1.
    pub open spec fn spec_is_after_5_1(self) -> bool {
        self.spec_version().0 >= 6
    }

    /// The model's version as text: major, a dot, minor.
    pub fn to_string(&self) -> (text: String)
        ensures
            text@ == self.spec_text(),
    {
        match self {
            ShaderModel::ShaderModel4_0 => "4.0".to_owned(),
            ShaderModel::ShaderModel4_1 => "4.1".to_owned(),
            ShaderModel::ShaderModel5_0 => "5.0".to_owned(),
            ShaderModel::ShaderModel5_1 => "5.1".to_owned(),
            ShaderModel::ShaderModel6_0 => "6.0".to_owned(),
            ShaderModel::ShaderModel6_1 => "6.1".to_owned(),
            ShaderModel::ShaderModel6_2 => "6.2".to_owned(),
            ShaderModel::ShaderModel6_3 => "6.3".to_owned(),
            ShaderModel::ShaderModel6_4 => "6.4".to_owned(),
            ShaderModel::ShaderModel6_5 => "6.5".to_owned(),
            ShaderModel::ShaderModel6_6 => "6.6".to_owned(),
            ShaderModel::ShaderModel6_7 => "6.7".to_owned(),
            ShaderModel::ShaderModel6_8 => "6.8".to_owned(),
        }
    }

    /// Whether the model is later than 5.1.
    pub fn is_after_5_1(&self) -> (later: bool)
        ensures
            later == self.spec_is_after_5_1(),
    {
        match self {
            ShaderModel::ShaderModel4_0 => false,
            ShaderModel::ShaderModel4_1 => false,
            ShaderModel::ShaderModel5_0 => false,
            ShaderModel::ShaderModel5_1 => false,
            _ => true,
        }
    }
}

/// The validator version to target.
#[non_exhaustive]
#[derive(Debug, Copy, Clone, Hash, PartialEq, Eq, Structural)]
pub enum ValidatorVersion {
    /// No validation: the compiled container is signed instead.
    NoValidation,
    Validator1_0,
    Validator1_1,
    Validator1_2,
    Validator1_3,
    Validator1_4,
    Validator1_5,
    Validator1_6,
    Validator1_7,
}

} // verus!
