use vk_triangle::instance::{
    check_validation_layer_support, ensure_validation_layers, get_required_extensions,
    plan_instance, APPLICATION_NAME, DEBUG_UTILS_EXTENSION_NAME, ENABLE_VALIDATION, ENGINE_NAME,
    NO_VALIDATION_LAYERS, VALIDATION_LAYER_NAME,
};

fn names(list: &[&str]) -> Vec<String> {
    list.iter().map(|s| s.to_string()).collect()
}

#[test]
fn names_are_the_usual_ones() {
    assert_eq!(VALIDATION_LAYER_NAME, "VK_LAYER_KHRONOS_validation");
    assert_eq!(DEBUG_UTILS_EXTENSION_NAME, "VK_EXT_debug_utils");
    assert_eq!(APPLICATION_NAME, "Hello Triangle");
    assert_eq!(ENGINE_NAME, "No engine");
    assert!(ENABLE_VALIDATION);
}

#[test]
fn debug_utils_follows_the_window_extensions_under_validation() {
    let wanted = get_required_extensions(names(&["VK_KHR_surface", "VK_KHR_xcb_surface"]), true);
    assert_eq!(wanted, names(&["VK_KHR_surface", "VK_KHR_xcb_surface", "VK_EXT_debug_utils"]));
    assert_eq!(get_required_extensions(Vec::new(), true), names(&["VK_EXT_debug_utils"]));
}

#[test]
fn window_extensions_stand_alone_without_validation() {
    let wanted = get_required_extensions(names(&["VK_KHR_surface", "VK_KHR_xcb_surface"]), false);
    assert_eq!(wanted, names(&["VK_KHR_surface", "VK_KHR_xcb_surface"]));
    assert_eq!(get_required_extensions(Vec::new(), false), Vec::<String>::new());
}

#[test]
fn the_validation_layer_must_be_on_offer() {
    assert!(check_validation_layer_support(&names(&[
        "VK_LAYER_MESA_overlay",
        "VK_LAYER_KHRONOS_validation"
    ])));
    assert!(!check_validation_layer_support(&names(&["VK_LAYER_MESA_overlay"])));
    assert!(!check_validation_layer_support(&[]));
}

#[test]
fn versions_are_packed_as_vulkan_packs_them() {
    let plan = plan_instance(Vec::new(), false);
    assert_eq!(plan.application_version, 1 << 22);
    assert_eq!(plan.engine_version, 1 << 22);
    assert_eq!(plan.api_version, (1 << 22) | (2 << 12));
    assert_eq!(plan.api_version, ash::vk::API_VERSION_1_2);
    assert_eq!(plan.application_version, ash::vk::API_VERSION_1_0);
}

#[test]
fn instance_with_validation_has_the_layer_and_the_messenger_extension() {
    let plan = plan_instance(names(&["VK_KHR_surface"]), true);
    assert_eq!(plan.extensions, names(&["VK_KHR_surface", "VK_EXT_debug_utils"]));
    assert_eq!(plan.layers, names(&["VK_LAYER_KHRONOS_validation"]));
    assert!(plan.debug_instance_creation);
}

#[test]
fn instance_without_validation_has_neither() {
    let plan = plan_instance(names(&["VK_KHR_surface"]), false);
    assert_eq!(plan.extensions, names(&["VK_KHR_surface"]));
    assert!(plan.layers.is_empty());
    assert!(!plan.debug_instance_creation);
}

#[test]
fn missing_validation_layer_is_an_error_only_under_validation() {
    let without = names(&["VK_LAYER_MESA_overlay"]);
    let with = names(&["VK_LAYER_MESA_overlay", "VK_LAYER_KHRONOS_validation"]);
    let missing = ensure_validation_layers(true, &without);
    assert_eq!(
        missing.err().map(|e| e.message()),
        Some("Validation layers requested, but not available.".to_string())
    );
    assert_eq!(NO_VALIDATION_LAYERS, "Validation layers requested, but not available.");
    assert!(ensure_validation_layers(true, &with).is_ok());
    assert!(ensure_validation_layers(false, &without).is_ok());
    assert!(ensure_validation_layers(false, &with).is_ok());
    assert!(ensure_validation_layers(true, &[]).is_err());
}
