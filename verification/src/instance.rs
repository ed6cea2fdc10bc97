//! What the Vulkan instance is created with.

use vstd::prelude::*;
use crate::device::{is_name_listed, name_listed};
use crate::result::{error, Error};

verus! {

/// Name of the layer that validates the use of the API.
pub const VALIDATION_LAYER_NAME: &'static str = "VK_LAYER_KHRONOS_validation";

/// Name of the instance extension that delivers diagnostic messages.
pub const DEBUG_UTILS_EXTENSION_NAME: &'static str = "VK_EXT_debug_utils";

/// Name the application gives itself.
pub const APPLICATION_NAME: &'static str = "Hello Triangle";

/// Name the application gives its engine.
pub const ENGINE_NAME: &'static str = "No engine";

/// Whether the validation layer and the debug messenger are asked for.
pub const ENABLE_VALIDATION: bool = true;

/// A version number packed into one word the way Vulkan does it: the variant
/// in the top three bits, then seven bits of major, ten of minor and twelve
/// of patch number.
pub open spec fn packed_api_version(variant: u32, major: u32, minor: u32, patch: u32) -> u32 {
    (variant << 29) | (major << 22) | (minor << 12) | patch
}

/// Calls `ash::vk::make_api_version`.
///
/// Trusted: the result is taken to be the four numbers shifted to their
/// places and combined, with nothing masked, which is the function's body in
/// `ash`.
#[verifier::external_body]
pub(crate) fn make_api_version(variant: u32, major: u32, minor: u32, patch: u32) -> (version: u32)
    ensures
        version == packed_api_version(variant, major, minor, patch),
{
    ash::vk::make_api_version(variant, major, minor, patch)
}

/// What an instance is created with.
#[derive(Debug)]
pub struct InstancePlan {
    pub application_version: u32,
    pub engine_version: u32,
    /// The version of the API the application is written against.
    pub api_version: u32,
    /// Names of the instance extensions to enable.
    pub extensions: Vec<String>,
    /// Names of the layers to enable.
    pub layers: Vec<String>,
    /// Whether creating and destroying the instance is itself reported on.
    pub debug_instance_creation: bool,
}

/// The instance extensions to enable: those the window system asks for and,
/// with validation, the one for diagnostic messages after them.
pub fn get_required_extensions(window_extensions: Vec<String>, validation: bool) -> (extensions:
    Vec<String>)
    ensures
        extensions@.len() == window_extensions@.len() + if validation {
            1nat
        } else {
            0nat
        },
        forall|i: int|
            0 <= i < window_extensions@.len() ==> extensions@[i] == window_extensions@[i],
        validation ==> extensions@[window_extensions@.len() as int]@
            == DEBUG_UTILS_EXTENSION_NAME@,
{
    let mut extensions = window_extensions;
    if validation {
        extensions.push(DEBUG_UTILS_EXTENSION_NAME.to_owned());
    }
    extensions
}

/// Whether the validation layer is among the layers on offer.
pub fn check_validation_layer_support(available_layers: &[String]) -> (supported: bool)
    ensures
        supported == name_listed(VALIDATION_LAYER_NAME@, available_layers@),
{
    let wanted = VALIDATION_LAYER_NAME.to_owned();
    is_name_listed(&wanted, available_layers)
}

/// Message of the error for a machine without the validation layer.
pub const NO_VALIDATION_LAYERS: &'static str = "Validation layers requested, but not available.";

/// Makes sure that validation can be had where it is asked for: fails if
/// `validation` is on and the validation layer is not among those on offer,
/// and in no other case.
pub fn ensure_validation_layers(validation: bool, available_layers: &[String]) -> (checked:
    Result<(), Error>)
    ensures
        match checked {
            Ok(_) => !validation || name_listed(VALIDATION_LAYER_NAME@, available_layers@),
            Err(e) => e@ == NO_VALIDATION_LAYERS@ && validation && !name_listed(
                VALIDATION_LAYER_NAME@,
                available_layers@,
            ),
        },
{
    if validation && !check_validation_layer_support(available_layers) {
        error(NO_VALIDATION_LAYERS)
    } else {
        Ok(())
    }
}

/// Plans the instance. Application and engine are at version 1.0.0 and the
/// API is used at version 1.2.0.
pub fn plan_instance(window_extensions: Vec<String>, validation: bool) -> (plan: InstancePlan)
    ensures
        plan.application_version == 0x0040_0000,
        plan.engine_version == 0x0040_0000,
        plan.api_version == 0x0040_2000,
        plan.debug_instance_creation == validation,
        plan.extensions@.len() == window_extensions@.len() + if validation {
            1nat
        } else {
            0nat
        },
        forall|i: int|
            0 <= i < window_extensions@.len() ==> plan.extensions@[i] == window_extensions@[i],
        validation ==> plan.extensions@[window_extensions@.len() as int]@
            == DEBUG_UTILS_EXTENSION_NAME@,
        validation ==> plan.layers@.len() == 1 && plan.layers@[0]@ == VALIDATION_LAYER_NAME@,
        !validation ==> plan.layers@.len() == 0,
{
    let mut layers: Vec<String> = Vec::new();
    if validation {
        layers.push(VALIDATION_LAYER_NAME.to_owned());
    }
    assert(packed_api_version(0, 1, 0, 0) == 0x0040_0000) by (bit_vector);
    assert(packed_api_version(0, 1, 2, 0) == 0x0040_2000) by (bit_vector);
    InstancePlan {
        application_version: make_api_version(0, 1, 0, 0),
        engine_version: make_api_version(0, 1, 0, 0),
        api_version: make_api_version(0, 1, 2, 0),
        extensions: get_required_extensions(window_extensions, validation),
        layers,
        debug_instance_creation: validation,
    }
}

} // verus!
