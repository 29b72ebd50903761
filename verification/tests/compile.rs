use spirv_to_dxil::config::{
    check_register_spaces, BufferBinding, ConstantBufferConfig, FlipConfig, FlipMode,
    RuntimeConfig,
};
use spirv_to_dxil::dxbc::DxbcRuntimeConfig;
use spirv_to_dxil::dxil::DxilRuntimeConfig;
use spirv_to_dxil::enums::{ShaderModel, ShaderStage, ValidatorVersion};
use spirv_to_dxil::error::SpirvToDxilError;
use spirv_to_dxil::logger::Logger;
use spirv_to_dxil::object::DxilObject;
use spirv_to_dxil::runtime::{RuntimeDataBuilder, Vec3};
use spirv_to_dxil::{dxbc, dxil};

fn container(payload_len: usize) -> Vec<u8> {
    let mut blob = vec![b'D', b'X', b'B', b'C'];
    blob.extend_from_slice(&[0u8; 16]);
    blob.extend((0..payload_len).map(|i| ((7 * i + 3) & 0xff) as u8));
    blob
}

const SIGNATURE_OF_1000: [u8; 16] = [
    0xee, 0x26, 0x55, 0x1c, 0xff, 0x5f, 0xe1, 0x58, 0x4a, 0x35, 0x2e, 0x8d, 0x6b, 0xba, 0x6a, 0x77,
];

#[test]
fn shader_stage_codes() {
    assert_eq!(ShaderStage::NoStage.code(), -1);
    assert_eq!(ShaderStage::Vertex.code(), 0);
    assert_eq!(ShaderStage::TesselationControl.code(), 1);
    assert_eq!(ShaderStage::TesselationEvaluation.code(), 2);
    assert_eq!(ShaderStage::Geometry.code(), 3);
    assert_eq!(ShaderStage::Fragment.code(), 4);
    assert_eq!(ShaderStage::Compute.code(), 5);
    assert_eq!(ShaderStage::Kernel.code(), 6);
}

#[test]
fn shader_model_text() {
    assert_eq!(ShaderModel::ShaderModel4_0.to_string(), "4.0");
    assert_eq!(ShaderModel::ShaderModel4_1.to_string(), "4.1");
    assert_eq!(ShaderModel::ShaderModel5_0.to_string(), "5.0");
    assert_eq!(ShaderModel::ShaderModel5_1.to_string(), "5.1");
    assert_eq!(ShaderModel::ShaderModel6_0.to_string(), "6.0");
    assert_eq!(ShaderModel::ShaderModel6_1.to_string(), "6.1");
    assert_eq!(ShaderModel::ShaderModel6_2.to_string(), "6.2");
    assert_eq!(ShaderModel::ShaderModel6_3.to_string(), "6.3");
    assert_eq!(ShaderModel::ShaderModel6_4.to_string(), "6.4");
    assert_eq!(ShaderModel::ShaderModel6_5.to_string(), "6.5");
    assert_eq!(ShaderModel::ShaderModel6_6.to_string(), "6.6");
    assert_eq!(ShaderModel::ShaderModel6_7.to_string(), "6.7");
    assert_eq!(ShaderModel::ShaderModel6_8.to_string(), "6.8");
}

#[test]
fn shader_models_after_5_1() {
    assert!(!ShaderModel::ShaderModel4_0.is_after_5_1());
    assert!(!ShaderModel::ShaderModel4_1.is_after_5_1());
    assert!(!ShaderModel::ShaderModel5_0.is_after_5_1());
    assert!(!ShaderModel::ShaderModel5_1.is_after_5_1());
    assert!(ShaderModel::ShaderModel6_0.is_after_5_1());
    assert!(ShaderModel::ShaderModel6_8.is_after_5_1());
}

#[test]
fn default_bindings_are_zero() {
    let binding = BufferBinding::default();
    assert_eq!((binding.register_space, binding.base_shader_register), (0, 0));
    let config = ConstantBufferConfig::default();
    assert_eq!((config.register_space, config.base_shader_register), (0, 0));
    let flip = FlipConfig::default();
    assert_eq!((flip.mode.bits(), flip.y_mask, flip.z_mask), (0, 0, 0));
    assert_eq!(FlipMode::default().bits(), 0);
    assert_eq!(FlipMode { bits: 5 }.bits(), 5);
}

#[test]
fn default_runtime_config() {
    let config = RuntimeConfig::default();
    assert_eq!(config.runtime_data_cbv.register_space, 31);
    assert_eq!(config.runtime_data_cbv.base_shader_register, 0);
    assert_eq!(config.push_constant_cbv.register_space, 0);
    assert_eq!(config.push_constant_cbv.base_shader_register, 0);
    assert!(config.zero_based_vertex_instance_id);
    assert!(!config.zero_based_compute_workgroup_id);
    assert_eq!(config.yz_flip.mode.bits(), 0);
    assert_eq!(config.yz_flip.y_mask, 0);
    assert_eq!(config.yz_flip.z_mask, 0);
    assert!(!config.read_only_images_as_srvs);
    assert!(!config.force_sample_rate_shading);
    assert!(!config.lower_view_index);
    assert!(!config.lower_view_index_to_rt_layer);
}

#[test]
fn default_dxil_runtime_config() {
    let config = DxilRuntimeConfig::default();
    assert_eq!(config.runtime_data_cbv.register_space, 0);
    assert_eq!(config.push_constant_cbv.register_space, 0);
    assert!(config.zero_based_vertex_instance_id);
    assert!(!config.zero_based_compute_workgroup_id);
    assert_eq!(config.yz_flip.mode.bits(), 0);
    assert!(!config.declared_read_only_images_as_srvs);
    assert!(!config.inferred_read_only_images_as_srvs);
    assert!(!config.force_sample_rate_shading);
    assert!(!config.lower_view_index);
    assert!(!config.lower_view_index_to_rt_layer);
    assert_eq!(config.shader_model_max, ShaderModel::ShaderModel6_0);
}

#[test]
fn default_dxbc_runtime_config() {
    let config = DxbcRuntimeConfig::default();
    assert_eq!(config.runtime_data_cbv.register_space, 0);
    assert_eq!(config.push_constant_cbv.register_space, 0);
    assert!(config.zero_based_vertex_instance_id);
    assert_eq!(config.shader_model_max, ShaderModel::ShaderModel5_0);
}

#[test]
fn register_spaces_up_to_31_pass() {
    assert!(check_register_spaces(0, 0).is_ok());
    assert!(check_register_spaces(31, 31).is_ok());
    assert!(check_register_spaces(30, 31).is_ok());
}

#[test]
fn register_space_overflow_carries_the_larger_space() {
    assert!(matches!(
        check_register_spaces(32, 0),
        Err(SpirvToDxilError::RegisterSpaceOverflow(32))
    ));
    assert!(matches!(
        check_register_spaces(0, 32),
        Err(SpirvToDxilError::RegisterSpaceOverflow(32))
    ));
    assert!(matches!(
        check_register_spaces(40, 100),
        Err(SpirvToDxilError::RegisterSpaceOverflow(100))
    ));
    assert!(matches!(
        check_register_spaces(u32::MAX, 33),
        Err(SpirvToDxilError::RegisterSpaceOverflow(u32::MAX))
    ));
}

#[test]
fn dxil_config_is_held_to_the_register_limit() {
    let mut config = DxilRuntimeConfig::default();
    config.runtime_data_cbv = BufferBinding { register_space: 0, base_shader_register: 0 };
    config.push_constant_cbv = BufferBinding { register_space: 31, base_shader_register: 1 };
    config.shader_model_max = ShaderModel::ShaderModel6_1;
    assert!(dxil::check_config(&config).is_ok());

    config.runtime_data_cbv.register_space = 32;
    assert!(matches!(
        dxil::check_config(&config),
        Err(SpirvToDxilError::RegisterSpaceOverflow(32))
    ));
}

#[test]
fn dxbc_config_is_held_to_the_register_limit_and_the_model() {
    let mut config = DxbcRuntimeConfig::default();
    config.runtime_data_cbv = BufferBinding { register_space: 31, base_shader_register: 0 };
    config.push_constant_cbv = BufferBinding { register_space: 30, base_shader_register: 0 };
    config.shader_model_max = ShaderModel::ShaderModel5_1;
    assert!(dxbc::check_config(&config).is_ok());

    config.shader_model_max = ShaderModel::ShaderModel6_0;
    assert!(matches!(
        dxbc::check_config(&config),
        Err(SpirvToDxilError::InvalidShaderModel(ShaderModel::ShaderModel6_0))
    ));

    config.push_constant_cbv.register_space = 77;
    assert!(matches!(
        dxbc::check_config(&config),
        Err(SpirvToDxilError::RegisterSpaceOverflow(77))
    ));
}

#[test]
fn failed_dxil_compilation_gives_the_log() {
    let outcome = dxil::complete(
        false,
        Vec::new(),
        false,
        "bad shader".to_string(),
        ValidatorVersion::NoValidation,
    );
    match outcome {
        Err(SpirvToDxilError::CompilerError(log)) => assert_eq!(log, "bad shader"),
        _ => panic!("a failed compilation must give the compiler's log"),
    }
}

#[test]
fn unvalidated_dxil_is_signed() {
    let blob = container(1000);
    let outcome =
        dxil::complete(true, blob.clone(), true, String::new(), ValidatorVersion::NoValidation);
    let object = outcome.expect("a successful compilation gives an artifact");
    assert!(object.requires_runtime_data());
    assert_eq!(object.as_slice().len(), blob.len());
    assert_eq!(&object.as_slice()[0..4], &blob[0..4]);
    assert_eq!(&object.as_slice()[4..20], &SIGNATURE_OF_1000);
    assert_eq!(&object.as_slice()[20..], &blob[20..]);
}

#[test]
fn validated_dxil_is_left_as_compiled() {
    let blob = container(1000);
    let outcome =
        dxil::complete(true, blob.clone(), false, String::new(), ValidatorVersion::Validator1_4);
    let object = outcome.expect("a successful compilation gives an artifact");
    assert!(!object.requires_runtime_data());
    assert_eq!(object.as_slice(), &blob[..]);
}

#[test]
fn validated_dxil_may_be_shorter_than_a_header() {
    let outcome =
        dxil::complete(true, vec![1, 2, 3], false, String::new(), ValidatorVersion::Validator1_0);
    assert_eq!(outcome.expect("left as compiled").as_slice(), &[1, 2, 3]);
}

#[test]
fn compiled_dxbc_is_signed() {
    let blob = container(1000);
    let signed = dxbc::complete(true, blob.clone(), String::new()).expect("signed container");
    assert_eq!(signed.len(), blob.len());
    assert_eq!(&signed[0..4], &blob[0..4]);
    assert_eq!(&signed[4..20], &SIGNATURE_OF_1000);
    assert_eq!(&signed[20..], &blob[20..]);
}

#[test]
fn failed_dxbc_compilation_gives_the_log() {
    match dxbc::complete(false, vec![0u8; 3], "no entry point".to_string()) {
        Err(SpirvToDxilError::CompilerError(log)) => assert_eq!(log, "no entry point"),
        _ => panic!("a failed compilation must give the compiler's log"),
    }
}

#[test]
fn logger_collects_messages_in_order() {
    let mut logger = Logger::new();
    logger.log("first");
    logger.log("");
    logger.log(" second");
    assert_eq!(logger.finalize(), "first second");
    assert_eq!(Logger::new().finalize(), "");
}

#[test]
fn object_keeps_what_it_was_made_of() {
    let object = DxilObject::new(vec![1, 2, 3], true);
    assert!(object.requires_runtime_data());
    assert_eq!(object.as_slice(), &[1, 2, 3]);
    let object = DxilObject::new(Vec::new(), false);
    assert!(!object.requires_runtime_data());
    assert!(object.as_slice().is_empty());
}

#[test]
fn dxil_compute_runtime_data_is_laid_out_in_order() {
    let builder = dxil::runtime::ComputeRuntimeDataBuilder {
        group_count: Vec3 { x: 1, y: 2, z: 3 },
        base_group: Vec3 { x: 4, y: 5, z: 6 },
    };
    let data = builder.clone().build();
    assert_eq!(
        (
            data.group_count_x,
            data.group_count_y,
            data.group_count_z,
            data.padding0,
            data.base_group_x,
            data.base_group_y,
            data.base_group_z
        ),
        (1, 2, 3, 0, 4, 5, 6)
    );
    let converted = dxil::runtime::ComputeRuntimeData::from(builder);
    assert_eq!((converted.group_count_z, converted.base_group_x), (3, 4));
}

#[test]
fn dxbc_runtime_data_is_laid_out_in_order() {
    let compute =
        dxbc::runtime::ComputeRuntimeDataBuilder { group_count: Vec3 { x: 7, y: 8, z: 9 } };
    let data = compute.clone().build();
    assert_eq!((data.group_count_x, data.group_count_y, data.group_count_z), (7, 8, 9));
    let converted: dxbc::runtime::ComputeRuntimeData = compute.into();
    assert_eq!(converted.group_count_y, 8);

    let vertex = dxbc::runtime::VertexRuntimeDataBuilder {
        first_vertex: 10,
        base_instance: 20,
        is_indexed_draw: true,
    };
    let data = vertex.clone().build();
    assert_eq!((data.first_vertex, data.base_instance, data.is_indexed_draw), (10, 20, true));
    let converted = dxbc::runtime::VertexRuntimeData::from(vertex);
    assert_eq!(converted.base_instance, 20);
}
