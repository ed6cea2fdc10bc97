use vk_triangle::flags::{
    MEMORY_PROPERTY_DEVICE_LOCAL_BIT, MEMORY_PROPERTY_HOST_COHERENT_BIT,
    MEMORY_PROPERTY_HOST_VISIBLE_BIT,
};
use vk_triangle::surface::FORMAT_R8G8B8A8_SRGB;
use vk_triangle::upload::{
    find_memory_type, plan_buffer_upload, plan_layout_transition, plan_texture_upload,
    LayoutTransition, MemoryType, UploadStep, ACCESS_TRANSFER_WRITE_BIT,
    BUFFER_USAGE_INDEX_BUFFER_BIT, BUFFER_USAGE_TRANSFER_DST_BIT, BUFFER_USAGE_TRANSFER_SRC_BIT,
    BUFFER_USAGE_VERTEX_BUFFER_BIT, IMAGE_LAYOUT_SHADER_READ_ONLY_OPTIMAL,
    IMAGE_LAYOUT_TRANSFER_DST_OPTIMAL, IMAGE_LAYOUT_UNDEFINED, IMAGE_USAGE_SAMPLED_BIT,
    IMAGE_USAGE_TRANSFER_DST_BIT, MAX_MEMORY_TYPES, NO_MEMORY_TYPE,
    PIPELINE_STAGE_FRAGMENT_SHADER_BIT, PIPELINE_STAGE_TOP_OF_PIPE_BIT,
    PIPELINE_STAGE_TRANSFER_BIT, QUEUE_FAMILY_IGNORED, UNSUPPORTED_TRANSITION,
};

const STAGING: u32 = MEMORY_PROPERTY_HOST_VISIBLE_BIT | MEMORY_PROPERTY_HOST_COHERENT_BIT;

fn memory(property_flags: u32) -> MemoryType {
    MemoryType { property_flags, heap_index: 0 }
}

fn typical() -> Vec<MemoryType> {
    vec![
        memory(MEMORY_PROPERTY_DEVICE_LOCAL_BIT),
        memory(MEMORY_PROPERTY_HOST_VISIBLE_BIT),
        memory(STAGING),
        memory(MEMORY_PROPERTY_DEVICE_LOCAL_BIT | STAGING),
    ]
}

#[test]
fn first_fitting_memory_type_is_found() {
    assert_eq!(find_memory_type(&typical(), 0b1111, MEMORY_PROPERTY_DEVICE_LOCAL_BIT).ok(), Some(0));
    assert_eq!(find_memory_type(&typical(), 0b1111, STAGING).ok(), Some(2));
    assert_eq!(find_memory_type(&typical(), 0b1111, MEMORY_PROPERTY_HOST_VISIBLE_BIT).ok(), Some(1));
}

#[test]
fn memory_types_outside_the_filter_are_skipped() {
    assert_eq!(find_memory_type(&typical(), 0b1000, MEMORY_PROPERTY_DEVICE_LOCAL_BIT).ok(), Some(3));
    assert_eq!(find_memory_type(&typical(), 0b1010, MEMORY_PROPERTY_HOST_VISIBLE_BIT).ok(), Some(1));
    assert_eq!(find_memory_type(&typical(), 0b1000, STAGING).ok(), Some(3));
}

#[test]
fn all_requested_properties_are_needed() {
    let types = vec![memory(MEMORY_PROPERTY_HOST_VISIBLE_BIT), memory(MEMORY_PROPERTY_HOST_COHERENT_BIT)];
    assert!(find_memory_type(&types, 0b11, STAGING).is_err());
}

#[test]
fn no_properties_asked_takes_the_first_type_in_the_filter() {
    assert_eq!(find_memory_type(&typical(), 0b0100, 0).ok(), Some(2));
}

#[test]
fn no_fitting_memory_type_is_an_error() {
    let missing = find_memory_type(&typical(), 0b0011, STAGING);
    assert_eq!(missing.err().map(|e| e.message()), Some("Failed to find memory type".to_string()));
    assert_eq!(NO_MEMORY_TYPE, "Failed to find memory type");
    assert!(find_memory_type(&typical(), 0, 0).is_err());
    assert!(find_memory_type(&[], 0xFFFF_FFFF, 0).is_err());
    assert!(find_memory_type(&typical(), 0xFFFF_FFF0, 0).is_err());
}

#[test]
fn the_last_of_all_memory_types_can_be_found() {
    assert_eq!(MAX_MEMORY_TYPES, 32);
    let mut types = vec![memory(0); 32];
    types[31] = memory(MEMORY_PROPERTY_DEVICE_LOCAL_BIT);
    assert_eq!(
        find_memory_type(&types, 0xFFFF_FFFF, MEMORY_PROPERTY_DEVICE_LOCAL_BIT).ok(),
        Some(31)
    );
    assert_eq!(find_memory_type(&types, 0x8000_0000, 0).ok(), Some(31));
    assert!(find_memory_type(&types, 0x7FFF_FFFF, MEMORY_PROPERTY_DEVICE_LOCAL_BIT).is_err());
}

#[test]
fn a_fresh_image_is_prepared_for_the_copy() {
    let barrier = plan_layout_transition(IMAGE_LAYOUT_UNDEFINED, IMAGE_LAYOUT_TRANSFER_DST_OPTIMAL);
    assert_eq!(
        barrier.ok(),
        Some(LayoutTransition {
            old_layout: 0,
            new_layout: 7,
            src_queue_family_index: QUEUE_FAMILY_IGNORED,
            dst_queue_family_index: QUEUE_FAMILY_IGNORED,
            src_access_mask: 0,
            dst_access_mask: ACCESS_TRANSFER_WRITE_BIT,
            src_stage_mask: PIPELINE_STAGE_TOP_OF_PIPE_BIT,
            dst_stage_mask: PIPELINE_STAGE_TRANSFER_BIT,
        })
    );
}

#[test]
fn a_copied_image_is_handed_to_the_shaders() {
    let barrier = plan_layout_transition(
        IMAGE_LAYOUT_TRANSFER_DST_OPTIMAL,
        IMAGE_LAYOUT_SHADER_READ_ONLY_OPTIMAL,
    );
    assert_eq!(
        barrier.ok(),
        Some(LayoutTransition {
            old_layout: 7,
            new_layout: 5,
            src_queue_family_index: QUEUE_FAMILY_IGNORED,
            dst_queue_family_index: QUEUE_FAMILY_IGNORED,
            src_access_mask: 0,
            dst_access_mask: 0,
            src_stage_mask: PIPELINE_STAGE_TRANSFER_BIT,
            dst_stage_mask: PIPELINE_STAGE_FRAGMENT_SHADER_BIT,
        })
    );
}

#[test]
fn other_layout_changes_are_refused() {
    let pairs = [
        (IMAGE_LAYOUT_UNDEFINED, IMAGE_LAYOUT_SHADER_READ_ONLY_OPTIMAL),
        (IMAGE_LAYOUT_TRANSFER_DST_OPTIMAL, IMAGE_LAYOUT_UNDEFINED),
        (IMAGE_LAYOUT_SHADER_READ_ONLY_OPTIMAL, IMAGE_LAYOUT_TRANSFER_DST_OPTIMAL),
        (IMAGE_LAYOUT_UNDEFINED, IMAGE_LAYOUT_UNDEFINED),
        (1, 2),
    ];
    for (old, new) in pairs {
        let refused = plan_layout_transition(old, new);
        assert_eq!(
            refused.err().map(|e| e.message()),
            Some("Unsupported layout transition".to_string())
        );
    }
    assert_eq!(UNSUPPORTED_TRANSITION, "Unsupported layout transition");
}

fn one_shot(command: UploadStep) -> Vec<UploadStep> {
    vec![
        UploadStep::BeginCommands,
        command,
        UploadStep::SubmitCommands,
        UploadStep::WaitQueueIdle,
        UploadStep::FreeCommands,
    ]
}

#[test]
fn a_vertex_buffer_goes_through_staging() {
    let mut expected = vec![
        UploadStep::CreateStagingBuffer {
            size: 112,
            usage: BUFFER_USAGE_TRANSFER_SRC_BIT,
            memory_properties: STAGING,
        },
        UploadStep::FillStagingBuffer { size: 112 },
        UploadStep::CreateBuffer {
            size: 112,
            usage: BUFFER_USAGE_TRANSFER_DST_BIT | BUFFER_USAGE_VERTEX_BUFFER_BIT,
            memory_properties: MEMORY_PROPERTY_DEVICE_LOCAL_BIT,
        },
    ];
    expected.extend(one_shot(UploadStep::CopyBuffer { size: 112 }));
    expected.push(UploadStep::DestroyStagingBuffer);
    expected.push(UploadStep::FreeStagingMemory);
    assert_eq!(plan_buffer_upload(112, BUFFER_USAGE_VERTEX_BUFFER_BIT), expected);
}

#[test]
fn an_index_buffer_differs_in_usage_and_size_only() {
    let plan = plan_buffer_upload(12, BUFFER_USAGE_INDEX_BUFFER_BIT);
    assert_eq!(plan.len(), 10);
    assert_eq!(
        plan[2],
        UploadStep::CreateBuffer {
            size: 12,
            usage: 0x42,
            memory_properties: MEMORY_PROPERTY_DEVICE_LOCAL_BIT,
        }
    );
    assert_eq!(plan[4], UploadStep::CopyBuffer { size: 12 });
}

#[test]
fn a_texture_changes_layout_around_the_copy() {
    let prepare =
        plan_layout_transition(IMAGE_LAYOUT_UNDEFINED, IMAGE_LAYOUT_TRANSFER_DST_OPTIMAL).unwrap();
    let complete = plan_layout_transition(
        IMAGE_LAYOUT_TRANSFER_DST_OPTIMAL,
        IMAGE_LAYOUT_SHADER_READ_ONLY_OPTIMAL,
    )
    .unwrap();
    let mut expected = vec![
        UploadStep::CreateStagingBuffer {
            size: 64 * 32 * 4,
            usage: BUFFER_USAGE_TRANSFER_SRC_BIT,
            memory_properties: STAGING,
        },
        UploadStep::FillStagingBuffer { size: 64 * 32 * 4 },
        UploadStep::CreateImage {
            width: 64,
            height: 32,
            format: FORMAT_R8G8B8A8_SRGB,
            usage: IMAGE_USAGE_TRANSFER_DST_BIT | IMAGE_USAGE_SAMPLED_BIT,
            memory_properties: MEMORY_PROPERTY_DEVICE_LOCAL_BIT,
        },
    ];
    expected.extend(one_shot(UploadStep::ChangeLayout { barrier: prepare }));
    expected.extend(one_shot(UploadStep::CopyBufferToImage { width: 64, height: 32 }));
    expected.extend(one_shot(UploadStep::ChangeLayout { barrier: complete }));
    expected.push(UploadStep::DestroyStagingBuffer);
    expected.push(UploadStep::FreeStagingMemory);
    assert_eq!(plan_texture_upload(64, 32, 64 * 32 * 4), expected);
}

#[test]
fn every_submission_is_waited_for_before_staging_is_released() {
    for plan in [plan_buffer_upload(1, 0), plan_texture_upload(1, 1, 4)] {
        let release = plan.iter().position(|s| *s == UploadStep::DestroyStagingBuffer).unwrap();
        assert_eq!(release, plan.len() - 2);
        assert_eq!(plan[plan.len() - 1], UploadStep::FreeStagingMemory);
        for (i, step) in plan.iter().enumerate() {
            if *step == UploadStep::SubmitCommands {
                assert_eq!(plan[i + 1], UploadStep::WaitQueueIdle);
                assert!(i + 1 < release);
            }
        }
    }
}
