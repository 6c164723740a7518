use tickframe::shader::{ShaderError, SPIRV_MAGIC};
use tickframe::vulkan::Vulkan;

#[test]
fn magic_number_is_spirvs() {
    assert_eq!(SPIRV_MAGIC, 0x0723_0203);
}

#[test]
fn little_endian_code_is_read_low_byte_first() {
    let code = [0x03, 0x02, 0x23, 0x07, 0x00, 0x05, 0x01, 0x00, 0x78, 0x56, 0x34, 0x12];
    let module = Vulkan::create_shader_module(&code).unwrap();
    assert_eq!(module.words(), &[0x0723_0203, 0x0001_0500, 0x1234_5678][..]);
}

#[test]
fn big_endian_code_is_read_high_byte_first() {
    let code = [0x07, 0x23, 0x02, 0x03, 0x00, 0x01, 0x05, 0x00, 0x12, 0x34, 0x56, 0x78];
    let module = Vulkan::create_shader_module(&code).unwrap();
    assert_eq!(module.words(), &[0x0723_0203, 0x0001_0500, 0x1234_5678][..]);
}

#[test]
fn magic_number_alone_is_a_module() {
    let module = Vulkan::create_shader_module(&[0x03, 0x02, 0x23, 0x07]).unwrap();
    assert_eq!(module.words(), &[SPIRV_MAGIC][..]);
}

#[test]
fn length_must_be_a_multiple_of_four() {
    let code = [0x03, 0x02, 0x23, 0x07, 0x00];
    assert_eq!(Vulkan::create_shader_module(&code).err(), Some(ShaderError::Misaligned));
    assert_eq!(Vulkan::create_shader_module(&[0x03]).err(), Some(ShaderError::Misaligned));
    assert_eq!(
        Vulkan::create_shader_module(&[0x03, 0x02, 0x23]).err(),
        Some(ShaderError::Misaligned)
    );
}

#[test]
fn first_word_must_be_the_magic_number() {
    let code = [0x03, 0x02, 0x23, 0x08, 0x03, 0x02, 0x23, 0x07];
    assert_eq!(Vulkan::create_shader_module(&code).err(), Some(ShaderError::MissingMagic));
    let mixed = [0x03, 0x23, 0x02, 0x07];
    assert_eq!(Vulkan::create_shader_module(&mixed).err(), Some(ShaderError::MissingMagic));
}

#[test]
fn empty_code_is_missing_the_magic_number() {
    assert_eq!(Vulkan::create_shader_module(&[]).err(), Some(ShaderError::MissingMagic));
}
