use ash::vk;
use vk_triangle::device::SWAPCHAIN_EXTENSION_NAME;
use vk_triangle::flags::{
    MEMORY_PROPERTY_DEVICE_LOCAL_BIT, MEMORY_PROPERTY_HOST_COHERENT_BIT,
    MEMORY_PROPERTY_HOST_VISIBLE_BIT, QUEUE_GRAPHICS_BIT,
};
use vk_triangle::instance::DEBUG_UTILS_EXTENSION_NAME;
use vk_triangle::render::{
    ACCESS_COLOR_ATTACHMENT_WRITE_BIT, FORMAT_R32G32B32_SFLOAT, FORMAT_R32G32_SFLOAT,
    IMAGE_LAYOUT_COLOR_ATTACHMENT_OPTIMAL, IMAGE_LAYOUT_PRESENT_SRC,
    PIPELINE_STAGE_COLOR_ATTACHMENT_OUTPUT_BIT, SHADER_STAGE_FRAGMENT_BIT,
    SHADER_STAGE_VERTEX_BIT, SUBPASS_EXTERNAL,
};
use vk_triangle::resources::{COMMAND_POOL_RESET_COMMAND_BUFFER_BIT, IMAGE_ASPECT_COLOR_BIT};
use vk_triangle::surface::{
    COLOR_SPACE_SRGB_NONLINEAR, FORMAT_B8G8R8A8_SRGB, FORMAT_R8G8B8A8_SRGB,
    FORMAT_R8G8B8A8_UNORM, PRESENT_MODE_FIFO, PRESENT_MODE_FIFO_RELAXED, PRESENT_MODE_IMMEDIATE,
    PRESENT_MODE_MAILBOX, UNDEFINED_EXTENT,
};
use vk_triangle::swapchain::{COMPOSITE_ALPHA_OPAQUE_BIT, IMAGE_USAGE_COLOR_ATTACHMENT_BIT};
use vk_triangle::upload::{
    ACCESS_TRANSFER_WRITE_BIT, BUFFER_USAGE_INDEX_BUFFER_BIT, BUFFER_USAGE_TRANSFER_DST_BIT,
    BUFFER_USAGE_TRANSFER_SRC_BIT, BUFFER_USAGE_UNIFORM_BUFFER_BIT,
    BUFFER_USAGE_VERTEX_BUFFER_BIT, IMAGE_LAYOUT_SHADER_READ_ONLY_OPTIMAL,
    IMAGE_LAYOUT_TRANSFER_DST_OPTIMAL, IMAGE_LAYOUT_UNDEFINED, IMAGE_USAGE_SAMPLED_BIT,
    IMAGE_USAGE_TRANSFER_DST_BIT, MAX_MEMORY_TYPES, PIPELINE_STAGE_FRAGMENT_SHADER_BIT,
    PIPELINE_STAGE_TOP_OF_PIPE_BIT, PIPELINE_STAGE_TRANSFER_BIT, QUEUE_FAMILY_IGNORED,
};

#[test]
fn format_codes_are_those_of_the_bindings() {
    assert_eq!(FORMAT_B8G8R8A8_SRGB, vk::Format::B8G8R8A8_SRGB.as_raw());
    assert_eq!(FORMAT_R8G8B8A8_SRGB, vk::Format::R8G8B8A8_SRGB.as_raw());
    assert_eq!(FORMAT_R8G8B8A8_UNORM, vk::Format::R8G8B8A8_UNORM.as_raw());
    assert_eq!(FORMAT_R32G32_SFLOAT, vk::Format::R32G32_SFLOAT.as_raw());
    assert_eq!(FORMAT_R32G32B32_SFLOAT, vk::Format::R32G32B32_SFLOAT.as_raw());
    assert_eq!(COLOR_SPACE_SRGB_NONLINEAR, vk::ColorSpaceKHR::SRGB_NONLINEAR.as_raw());
}

#[test]
fn present_mode_codes_are_those_of_the_bindings() {
    assert_eq!(PRESENT_MODE_IMMEDIATE, vk::PresentModeKHR::IMMEDIATE.as_raw());
    assert_eq!(PRESENT_MODE_MAILBOX, vk::PresentModeKHR::MAILBOX.as_raw());
    assert_eq!(PRESENT_MODE_FIFO, vk::PresentModeKHR::FIFO.as_raw());
    assert_eq!(PRESENT_MODE_FIFO_RELAXED, vk::PresentModeKHR::FIFO_RELAXED.as_raw());
}

#[test]
fn layout_codes_are_those_of_the_bindings() {
    assert_eq!(IMAGE_LAYOUT_UNDEFINED, vk::ImageLayout::UNDEFINED.as_raw());
    assert_eq!(IMAGE_LAYOUT_TRANSFER_DST_OPTIMAL, vk::ImageLayout::TRANSFER_DST_OPTIMAL.as_raw());
    assert_eq!(
        IMAGE_LAYOUT_SHADER_READ_ONLY_OPTIMAL,
        vk::ImageLayout::SHADER_READ_ONLY_OPTIMAL.as_raw()
    );
    assert_eq!(
        IMAGE_LAYOUT_COLOR_ATTACHMENT_OPTIMAL,
        vk::ImageLayout::COLOR_ATTACHMENT_OPTIMAL.as_raw()
    );
    assert_eq!(IMAGE_LAYOUT_PRESENT_SRC, vk::ImageLayout::PRESENT_SRC_KHR.as_raw());
}

#[test]
fn flag_bits_are_those_of_the_bindings() {
    assert_eq!(QUEUE_GRAPHICS_BIT, vk::QueueFlags::GRAPHICS.as_raw());
    assert_eq!(MEMORY_PROPERTY_DEVICE_LOCAL_BIT, vk::MemoryPropertyFlags::DEVICE_LOCAL.as_raw());
    assert_eq!(MEMORY_PROPERTY_HOST_VISIBLE_BIT, vk::MemoryPropertyFlags::HOST_VISIBLE.as_raw());
    assert_eq!(MEMORY_PROPERTY_HOST_COHERENT_BIT, vk::MemoryPropertyFlags::HOST_COHERENT.as_raw());
    assert_eq!(ACCESS_TRANSFER_WRITE_BIT, vk::AccessFlags::TRANSFER_WRITE.as_raw());
    assert_eq!(
        ACCESS_COLOR_ATTACHMENT_WRITE_BIT,
        vk::AccessFlags::COLOR_ATTACHMENT_WRITE.as_raw()
    );
    assert_eq!(PIPELINE_STAGE_TOP_OF_PIPE_BIT, vk::PipelineStageFlags::TOP_OF_PIPE.as_raw());
    assert_eq!(PIPELINE_STAGE_TRANSFER_BIT, vk::PipelineStageFlags::TRANSFER.as_raw());
    assert_eq!(
        PIPELINE_STAGE_FRAGMENT_SHADER_BIT,
        vk::PipelineStageFlags::FRAGMENT_SHADER.as_raw()
    );
    assert_eq!(
        PIPELINE_STAGE_COLOR_ATTACHMENT_OUTPUT_BIT,
        vk::PipelineStageFlags::COLOR_ATTACHMENT_OUTPUT.as_raw()
    );
    assert_eq!(BUFFER_USAGE_TRANSFER_SRC_BIT, vk::BufferUsageFlags::TRANSFER_SRC.as_raw());
    assert_eq!(BUFFER_USAGE_TRANSFER_DST_BIT, vk::BufferUsageFlags::TRANSFER_DST.as_raw());
    assert_eq!(BUFFER_USAGE_UNIFORM_BUFFER_BIT, vk::BufferUsageFlags::UNIFORM_BUFFER.as_raw());
    assert_eq!(BUFFER_USAGE_INDEX_BUFFER_BIT, vk::BufferUsageFlags::INDEX_BUFFER.as_raw());
    assert_eq!(BUFFER_USAGE_VERTEX_BUFFER_BIT, vk::BufferUsageFlags::VERTEX_BUFFER.as_raw());
    assert_eq!(IMAGE_USAGE_TRANSFER_DST_BIT, vk::ImageUsageFlags::TRANSFER_DST.as_raw());
    assert_eq!(IMAGE_USAGE_SAMPLED_BIT, vk::ImageUsageFlags::SAMPLED.as_raw());
    assert_eq!(IMAGE_USAGE_COLOR_ATTACHMENT_BIT, vk::ImageUsageFlags::COLOR_ATTACHMENT.as_raw());
    assert_eq!(COMPOSITE_ALPHA_OPAQUE_BIT, vk::CompositeAlphaFlagsKHR::OPAQUE.as_raw());
    assert_eq!(SHADER_STAGE_VERTEX_BIT, vk::ShaderStageFlags::VERTEX.as_raw());
    assert_eq!(SHADER_STAGE_FRAGMENT_BIT, vk::ShaderStageFlags::FRAGMENT.as_raw());
    assert_eq!(
        COMMAND_POOL_RESET_COMMAND_BUFFER_BIT,
        vk::CommandPoolCreateFlags::RESET_COMMAND_BUFFER.as_raw()
    );
    assert_eq!(IMAGE_ASPECT_COLOR_BIT, vk::ImageAspectFlags::COLOR.as_raw());
}

#[test]
fn special_values_are_those_of_the_bindings() {
    assert_eq!(QUEUE_FAMILY_IGNORED, vk::QUEUE_FAMILY_IGNORED);
    assert_eq!(SUBPASS_EXTERNAL, vk::SUBPASS_EXTERNAL);
    assert_eq!(MAX_MEMORY_TYPES, vk::MAX_MEMORY_TYPES);
    assert_eq!(UNDEFINED_EXTENT, u32::MAX);
}

#[test]
fn extension_names_are_those_of_the_bindings() {
    assert_eq!(vk::KHR_SWAPCHAIN_NAME.to_str().ok(), Some(SWAPCHAIN_EXTENSION_NAME));
    assert_eq!(ash::ext::debug_utils::NAME.to_str().ok(), Some(DEBUG_UTILS_EXTENSION_NAME));
}
