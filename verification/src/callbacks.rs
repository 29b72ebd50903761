//! The names that generated bindings get: how the variants of the C enums
//! and the anonymous C structs are renamed.

use crate::text::{
    replace_all, replaced, same_text, skip_bytes, text_of, without_leading_bytes,
};
use vstd::prelude::*;
use vstd::utf8::{encode_utf8, is_char_boundary};

verus! {

/// The renaming rules.
#[derive(Debug)]
pub struct SpirvToDxilCallbacks;

/// The value of an enum variant as the generator reports it.
#[derive(Debug, Clone, Copy)]
pub enum VariantValue {
    Boolean(bool),
    Signed(i64),
    Unsigned(u64),
}

/// The name of a shader stage, by what follows the first four bytes of its
/// C name; `None` for any other text.
pub open spec fn shader_stage_name(suffix: Seq<char>) -> Option<Seq<char>> {
    if suffix == "_SPIRV_SHADER_NONE"@ {
        Some("None"@)
    } else if suffix == "_SPIRV_SHADER_VERTEX"@ {
        Some("Vertex"@)
    } else if suffix == "_SPIRV_SHADER_TESS_CTRL"@ {
        Some("TesselationControl"@)
    } else if suffix == "_SPIRV_SHADER_TESS_EVAL"@ {
        Some("TesselationEvaluation"@)
    } else if suffix == "_SPIRV_SHADER_GEOMETRY"@ {
        Some("Geometry"@)
    } else if suffix == "_SPIRV_SHADER_FRAGMENT"@ {
        Some("Fragment"@)
    } else if suffix == "_SPIRV_SHADER_COMPUTE"@ {
        Some("Compute"@)
    } else if suffix == "_SPIRV_SHADER_KERNEL"@ {
        Some("Kernel"@)
    } else {
        None
    }
}

/// Whether a variant's value is zero, signed or unsigned.
pub open spec fn is_zero(value: VariantValue) -> bool {
    match value {
        VariantValue::Unsigned(v) => v == 0,
        VariantValue::Signed(v) => v == 0,
        VariantValue::Boolean(_) => false,
    }
}

/// The name of a validator version: `None` for the variant of value zero,
/// else the C name with `DXIL_VALIDATOR_` replaced by `Validator`.
pub open spec fn validator_version_name(variant: Seq<char>, value: VariantValue) -> Seq<char> {
    if is_zero(value) {
        "None"@
    } else {
        replaced(variant, "DXIL_VALIDATOR_"@, "Validator"@)
    }
}

/// Whether `enum_name` is one of the two shader stage enums.
pub open spec fn is_shader_stage_enum(enum_name: Seq<char>) -> bool {
    enum_name == "dxil_spirv_shader_stage"@ || enum_name == "dxbc_spirv_shader_stage"@
}

/// The new name of a variant of the enum `enum_name`; `None` where the enum
/// is not one of those that are renamed, or has no name.
pub open spec fn variant_name(
    enum_name: Option<Seq<char>>,
    variant: Seq<char>,
    value: VariantValue,
) -> Option<Seq<char>> {
    match enum_name {
        Some(name) => {
            if is_shader_stage_enum(name) {
                shader_stage_name(without_leading_bytes(variant, 4))
            } else if name == "enum dxil_shader_model"@ {
                Some(replaced(variant, "SHADER_MODEL_"@, "ShaderModel"@))
            } else if name == "enum dxil_validator_version"@ {
                Some(validator_version_name(variant, value))
            } else if name == "enum dxil_spirv_yz_flip_mode"@ {
                Some(replaced(variant, "DXIL_SPIRV_"@, ""@))
            } else {
                None
            }
        },
        None => None,
    }
}

/// The new name of an item; `None` for an item that keeps its name.
pub open spec fn renamed_item(item: Seq<char>) -> Option<Seq<char>> {
    if item == "dxil_spirv_runtime_conf__bindgen_ty_1"@ {
        Some("BufferBinding"@)
    } else if item == "dxil_spirv_runtime_conf__bindgen_ty_2"@ {
        Some("BufferBinding"@)
    } else if item == "dxil_spirv_runtime_conf__bindgen_ty_3"@ {
        Some("dxil_spirv_runtime_conf_flip_conf"@)
    } else if item == "dxbc_spirv_runtime_conf__bindgen_ty_1"@ {
        Some("BufferBinding"@)
    } else if item == "dxbc_spirv_runtime_conf__bindgen_ty_2"@ {
        Some("BufferBinding"@)
    } else if item == "dxil_shader_model"@ {
        Some("ShaderModel"@)
    } else if item == "dxil_validator_version"@ {
        Some("ValidatorVersion"@)
    } else if item == "dxbc_spirv_shader_stage"@ {
        Some("ShaderStage"@)
    } else if item == "dxil_spirv_shader_stage"@ {
        Some("ShaderStage"@)
    } else {
        None
    }
}

impl SpirvToDxilCallbacks {
    /// Names a shader stage by what follows the four-byte prefix of its C
    /// name.
    pub fn rename_shader_stage(variant: &str) -> (name: Option<String>)
        requires
            is_char_boundary(encode_utf8(variant@), 4),
        ensures
            text_of(name) == shader_stage_name(without_leading_bytes(variant@, 4)),
    {
        let suffix = skip_bytes(variant, 4);
        if same_text(suffix, "_SPIRV_SHADER_NONE") {
            Some("None".to_owned())
        } else if same_text(suffix, "_SPIRV_SHADER_VERTEX") {
            Some("Vertex".to_owned())
        } else if same_text(suffix, "_SPIRV_SHADER_TESS_CTRL") {
            Some("TesselationControl".to_owned())
        } else if same_text(suffix, "_SPIRV_SHADER_TESS_EVAL") {
            Some("TesselationEvaluation".to_owned())
        } else if same_text(suffix, "_SPIRV_SHADER_GEOMETRY") {
            Some("Geometry".to_owned())
        } else if same_text(suffix, "_SPIRV_SHADER_FRAGMENT") {
            Some("Fragment".to_owned())
        } else if same_text(suffix, "_SPIRV_SHADER_COMPUTE") {
            Some("Compute".to_owned())
        } else if same_text(suffix, "_SPIRV_SHADER_KERNEL") {
            Some("Kernel".to_owned())
        } else {
            None
        }
    }

    /// Names a shader model: `SHADER_MODEL_` becomes `ShaderModel`.
    pub fn rename_shader_model(variant: &str) -> (name: Option<String>)
        ensures
            text_of(name) == Some(replaced(variant@, "SHADER_MODEL_"@, "ShaderModel"@)),
    {
        Some(replace_all(variant, "SHADER_MODEL_", "ShaderModel"))
    }

    /// Names a flip mode: `DXIL_SPIRV_` is dropped.
    pub fn rename_flip_mode(variant: &str) -> (name: Option<String>)
        ensures
            text_of(name) == Some(replaced(variant@, "DXIL_SPIRV_"@, ""@)),
    {
        Some(replace_all(variant, "DXIL_SPIRV_", ""))
    }

    /// Names a validator version: the variant of value zero is `None`, and
    /// in any other `DXIL_VALIDATOR_` becomes `Validator`.
    pub fn rename_validator_version(variant: &str, value: VariantValue) -> (name: Option<String>)
        ensures
            text_of(name) == Some(validator_version_name(variant@, value)),
    {
        let zero = match value {
            VariantValue::Unsigned(v) => v == 0,
            VariantValue::Signed(v) => v == 0,
            VariantValue::Boolean(_) => false,
        };
        if zero {
            Some("None".to_owned())
        } else {
            Some(replace_all(variant, "DXIL_VALIDATOR_", "Validator"))
        }
    }

    /// The new name of a variant of the enum `enum_name`, by the rule of
    /// that enum.
    pub fn enum_variant_name(
        &self,
        enum_name: Option<&str>,
        original_variant_name: &str,
        variant_value: VariantValue,
    ) -> (name: Option<String>)
        requires
            enum_name matches Some(n) && is_shader_stage_enum(n@) ==> is_char_boundary(
                encode_utf8(original_variant_name@),
                4,
            ),
        ensures
            text_of(name) == variant_name(
                match enum_name {
                    Some(n) => Some(n@),
                    None => None,
                },
                original_variant_name@,
                variant_value,
            ),
    {
        match enum_name {
            Some(name) => {
                if same_text(name, "dxil_spirv_shader_stage") {
                    SpirvToDxilCallbacks::rename_shader_stage(original_variant_name)
                } else if same_text(name, "dxbc_spirv_shader_stage") {
                    SpirvToDxilCallbacks::rename_shader_stage(original_variant_name)
                } else if same_text(name, "enum dxil_shader_model") {
                    SpirvToDxilCallbacks::rename_shader_model(original_variant_name)
                } else if same_text(name, "enum dxil_validator_version") {
                    SpirvToDxilCallbacks::rename_validator_version(
                        original_variant_name,
                        variant_value,
                    )
                } else if same_text(name, "enum dxil_spirv_yz_flip_mode") {
                    SpirvToDxilCallbacks::rename_flip_mode(original_variant_name)
                } else {
                    None
                }
            },
            None => None,
        }
    }

    /// The new name of an item: the anonymous structs of the runtime
    /// configuration and the enums get their Rust names.
    pub fn item_name(&self, original_item_name: &str) -> (name: Option<String>)
        ensures
            text_of(name) == renamed_item(original_item_name@),
    {
        if same_text(original_item_name, "dxil_spirv_runtime_conf__bindgen_ty_1") {
            Some("BufferBinding".to_owned())
        } else if same_text(original_item_name, "dxil_spirv_runtime_conf__bindgen_ty_2") {
            Some("BufferBinding".to_owned())
        } else if same_text(original_item_name, "dxil_spirv_runtime_conf__bindgen_ty_3") {
            Some("dxil_spirv_runtime_conf_flip_conf".to_owned())
        } else if same_text(original_item_name, "dxbc_spirv_runtime_conf__bindgen_ty_1") {
            Some("BufferBinding".to_owned())
        } else if same_text(original_item_name, "dxbc_spirv_runtime_conf__bindgen_ty_2") {
            Some("BufferBinding".to_owned())
        } else if same_text(original_item_name, "dxil_shader_model") {
            Some("ShaderModel".to_owned())
        } else if same_text(original_item_name, "dxil_validator_version") {
            Some("ValidatorVersion".to_owned())
        } else if same_text(original_item_name, "dxbc_spirv_shader_stage") {
            Some("ShaderStage".to_owned())
        } else if same_text(original_item_name, "dxil_spirv_shader_stage") {
            Some("ShaderStage".to_owned())
        } else {
            None
        }
    }
}

} // verus!
