use rspirv::binary::Assemble;
use rspirv::binary::Disassemble;
use rspirv::spirv::{AddressingModel, Capability, ExecutionModel, FunctionControl, MemoryModel};
use vulkan_training::spirv::{
    load_spirv, spirv_bytes_to_words, spirv_words_native, SpirvError, SPIRV_MAGIC_NUMBER,
};

fn sample_module_words() -> Vec<u32> {
    let mut b = rspirv::dr::Builder::new();
    b.set_version(1, 0);
    b.capability(Capability::Shader);
    b.memory_model(AddressingModel::Logical, MemoryModel::GLSL450);
    let void = b.type_void();
    let voidf = b.type_function(void, vec![]);
    let fun = b
        .begin_function(void, None, FunctionControl::DONT_INLINE | FunctionControl::CONST, voidf)
        .unwrap();
    b.begin_block(None).unwrap();
    b.ret().unwrap();
    b.end_function().unwrap();
    b.entry_point(ExecutionModel::Vertex, fun, "foo", vec![]);
    b.module().assemble()
}

fn le_bytes(words: &[u32]) -> Vec<u8> {
    words.iter().flat_map(|w| w.to_le_bytes()).collect()
}

fn be_bytes(words: &[u32]) -> Vec<u8> {
    words.iter().flat_map(|w| w.to_be_bytes()).collect()
}

#[test]
fn spirv_sample_build_assemble_parse_disassemble() {
    let code = sample_module_words();
    assert!(code.len() > 20); // Module header contains 5 words
    assert_eq!(rspirv::spirv::MAGIC_NUMBER, code[0]);
    assert_eq!(SPIRV_MAGIC_NUMBER, rspirv::spirv::MAGIC_NUMBER);

    let mut loader = rspirv::dr::Loader::new();
    rspirv::binary::parse_words(&code, &mut loader).unwrap();
    let module = loader.module();

    assert_eq!(
        module.disassemble(),
        "; SPIR-V\n\
         ; Version: 1.0\n\
         ; Generator: rspirv\n\
         ; Bound: 5\n\
         OpCapability Shader\n\
         OpMemoryModel Logical GLSL450\n\
         OpEntryPoint Vertex %3 \"foo\"\n\
         %1 = OpTypeVoid\n\
         %2 = OpTypeFunction %1\n\
         %3 = OpFunction  %1  DontInline|Const %2\n\
         %4 = OpLabel\n\
         OpReturn\n\
         OpFunctionEnd"
    );
}

#[test]
fn loads_assembled_module_in_either_byte_order() {
    let code = sample_module_words();
    assert_eq!(load_spirv(&le_bytes(&code)), Ok(code.clone()));
    assert_eq!(load_spirv(&be_bytes(&code)), Ok(code.clone()));
}

#[test]
fn loaders_agree_on_little_endian_module() {
    // Law: both loaders give the same words for a little-endian module.
    let code = sample_module_words();
    let bytes = le_bytes(&code);
    assert_eq!(load_spirv(&bytes).unwrap(), spirv_bytes_to_words(&bytes).unwrap());
}

#[test]
fn rejects_bad_lengths_and_missing_magic() {
    assert_eq!(load_spirv(&[]), Err(SpirvError::MissingMagicNumber));
    assert_eq!(load_spirv(&[0x03, 0x02, 0x23]), Err(SpirvError::LengthNotMultipleOf4));
    assert_eq!(load_spirv(&[1, 2, 3, 4, 5, 6, 7, 8]), Err(SpirvError::MissingMagicNumber));
    assert_eq!(load_spirv(&[0x03, 0x02, 0x23, 0x07]), Ok(vec![SPIRV_MAGIC_NUMBER]));
}

#[test]
fn bytes_to_words_is_little_endian_without_magic_check() {
    assert_eq!(spirv_bytes_to_words(&[1, 2, 3, 4, 0xff, 0, 0, 0]), Ok(vec![0x0403_0201, 0xff]));
    assert_eq!(spirv_bytes_to_words(&[]), Ok(vec![]));
    assert_eq!(spirv_bytes_to_words(&[1, 2, 3]), Err(SpirvError::LengthNotMultipleOf4));
}

#[test]
fn native_words_drop_trailing_bytes() {
    let words = spirv_words_native(&[1, 2, 3, 4, 5, 6, 7, 8, 9]);
    assert_eq!(words.len(), 2);
    assert_eq!(words[0], u32::from_ne_bytes([1, 2, 3, 4]));
    assert_eq!(words[1], u32::from_ne_bytes([5, 6, 7, 8]));
    assert!(words[0] == 0x0403_0201 || words[0] == 0x0102_0304);
}
