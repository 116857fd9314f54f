//! Choices made when setting up the device and swapchain, and the classification of
//! validation layer messages.
use crate::renderer::present_target::{
    choose_present_mode, choose_surface_format, SurfaceFormat, IMAGE_USAGE_COLOR_ATTACHMENT, PRESENT_MODE_FIFO,
    PRESENT_MODE_MAILBOX,
};
use vstd::prelude::*;
use vstd::string::StringExecFns;

verus! {

/// Ways of compositing the swapchain images with the window system.
#[derive(Debug, Clone, Copy, PartialEq, Eq, Structural)]
pub enum CompositeAlpha {
    Opaque,
    PreMultiplied,
    PostMultiplied,
    Inherit,
}

/// Preference of composite alpha: post-multiplied, inherit, opaque, pre-multiplied.
pub open spec fn composite_alpha_preference(c: CompositeAlpha) -> int {
    match c {
        CompositeAlpha::PostMultiplied => 4,
        CompositeAlpha::Inherit => 3,
        CompositeAlpha::Opaque => 2,
        CompositeAlpha::PreMultiplied => 1,
    }
}

fn composite_alpha_rank(c: CompositeAlpha) -> (res: u32)
    ensures
        res == composite_alpha_preference(c),
{
    match c {
        CompositeAlpha::PostMultiplied => 4,
        CompositeAlpha::Inherit => 3,
        CompositeAlpha::Opaque => 2,
        CompositeAlpha::PreMultiplied => 1,
    }
}

/// Composite alpha modes are preferred in the order post-multiplied, inherit, opaque,
/// pre-multiplied.
pub proof fn lemma_composite_alpha_order()
    ensures
        composite_alpha_preference(CompositeAlpha::PostMultiplied) > composite_alpha_preference(CompositeAlpha::Inherit),
        composite_alpha_preference(CompositeAlpha::Inherit) > composite_alpha_preference(CompositeAlpha::Opaque),
        composite_alpha_preference(CompositeAlpha::Opaque) > composite_alpha_preference(CompositeAlpha::PreMultiplied),
{
}

/// The most preferred of the composite alpha modes the surface supports.
pub fn choose_composite_alpha(supported_composite_alpha: &Vec<CompositeAlpha>) -> (res: CompositeAlpha)
    requires
        supported_composite_alpha@.len() > 0,
    ensures
        supported_composite_alpha@.contains(res),
        forall|k: int| 0 <= k < supported_composite_alpha@.len() ==> composite_alpha_preference(
            #[trigger] supported_composite_alpha@[k],
        ) <= composite_alpha_preference(res),
{
    let n = supported_composite_alpha.len();
    let mut best = supported_composite_alpha[0];
    let mut i: usize = 1;
    while i < n
        invariant
            n == supported_composite_alpha@.len(),
            1 <= i <= n,
            supported_composite_alpha@.contains(best),
            forall|k: int| 0 <= k < i ==> composite_alpha_preference(#[trigger] supported_composite_alpha@[k])
                <= composite_alpha_preference(best),
        decreases n - i,
    {
        let c = supported_composite_alpha[i];
        if composite_alpha_rank(c) >= composite_alpha_rank(best) {
            best = c;
        }
        i += 1;
    }
    best
}

/// The parameters of a swapchain created for a window.
#[derive(Debug, Clone, Copy)]
pub struct SwapchainCreateInfo {
    /// The surface's minimum image count.
    pub min_image_count: u32,
    /// The window's inner size.
    pub image_extent: [u32; 2],
    /// The images are used as color attachments only.
    pub image_usage: u32,
    pub image_format: i32,
    pub composite_alpha: CompositeAlpha,
    pub present_mode: i32,
}

/// The swapchain of `create_swapchain` for a surface offering `surface_formats`,
/// `supported_composite_alpha` and `present_modes`: the first format, the preferred
/// composite alpha mode, mailbox presentation if offered, the surface's minimum image count
/// and the window's size.
pub fn swapchain_create_info(
    surface_formats: &Vec<SurfaceFormat>,
    min_image_count: u32,
    supported_composite_alpha: &Vec<CompositeAlpha>,
    present_modes: &Vec<i32>,
    window_size: [u32; 2],
) -> (res: SwapchainCreateInfo)
    requires
        surface_formats@.len() > 0,
        supported_composite_alpha@.len() > 0,
    ensures
        res.min_image_count == min_image_count,
        res.image_extent == window_size,
        res.image_usage == IMAGE_USAGE_COLOR_ATTACHMENT,
        res.image_format == surface_formats@[0].format,
        supported_composite_alpha@.contains(res.composite_alpha),
        forall|k: int| 0 <= k < supported_composite_alpha@.len() ==> composite_alpha_preference(
            #[trigger] supported_composite_alpha@[k],
        ) <= composite_alpha_preference(res.composite_alpha),
        res.present_mode == if present_modes@.contains(PRESENT_MODE_MAILBOX) {
            PRESENT_MODE_MAILBOX
        } else {
            PRESENT_MODE_FIFO
        },
{
    SwapchainCreateInfo {
        min_image_count,
        image_extent: window_size,
        image_usage: IMAGE_USAGE_COLOR_ATTACHMENT,
        image_format: choose_surface_format(surface_formats).format,
        composite_alpha: choose_composite_alpha(supported_composite_alpha),
        present_mode: choose_present_mode(present_modes),
    }
}

/// Numeric types of a format's color components.
#[derive(Debug, Clone, Copy, PartialEq, Eq, Structural)]
pub enum NumericType {
    SFLOAT,
    SINT,
    SNORM,
    SSCALED,
    UFLOAT,
    UINT,
    UNORM,
    USCALED,
    SRGB,
}

/// The swapchain images take srgb values: their color type is srgb (a format without a
/// color type counts as unorm).
pub fn is_srgb_framebuffer(color_type: Option<NumericType>) -> (res: bool)
    ensures
        res == (color_type == Some(NumericType::SRGB)),
{
    let numeric_type = match color_type {
        Some(t) => t,
        None => NumericType::UNORM,
    };
    numeric_type == NumericType::SRGB
}

/// The level at which a validation layer message is logged.
#[derive(Debug, Clone, Copy, PartialEq, Eq, Structural)]
pub enum DebugMessageLevel {
    Error,
    Warning,
    Information,
    Verbose,
    /// No known severity bit was set.
    Unknown,
}

/// The label of a message's type: the first of general, validation and performance that
/// the message has.
pub fn debug_message_type_label(general: bool, validation: bool, performance: bool) -> (res: &'static str)
    ensures
        res@ == if general {
            "GENERAL"@
        } else if validation {
            "VALIDATION"@
        } else if performance {
            "PERFORMANCE"@
        } else {
            "TYPE-UNKNOWN"@
        },
{
    if general {
        "GENERAL"
    } else if validation {
        "VALIDATION"
    } else if performance {
        "PERFORMANCE"
    } else {
        "TYPE-UNKNOWN"
    }
}

/// The level of a message: its most severe severity bit.
pub fn debug_message_level(error: bool, warning: bool, information: bool, verbose: bool) -> (res: DebugMessageLevel)
    ensures
        res == if error {
            DebugMessageLevel::Error
        } else if warning {
            DebugMessageLevel::Warning
        } else if information {
            DebugMessageLevel::Information
        } else if verbose {
            DebugMessageLevel::Verbose
        } else {
            DebugMessageLevel::Unknown
        },
{
    if error {
        DebugMessageLevel::Error
    } else if warning {
        DebugMessageLevel::Warning
    } else if information {
        DebugMessageLevel::Information
    } else if verbose {
        DebugMessageLevel::Verbose
    } else {
        DebugMessageLevel::Unknown
    }
}

/// Why debug validation cannot be enabled.
#[derive(Debug, Clone, Copy, PartialEq, Eq, Structural)]
pub enum DebugValidationError {
    /// `VK_EXT_debug_utils` was requested but is unsupported.
    DebugUtilsUnsupported,
    /// `VK_LAYER_KHRONOS_validation` was requested but was not found (may not be installed).
    ValidationLayerNotFound,
    /// The instance layers could not be listed: the query failed with this `VkResult`.
    LayerPropertiesUnavailable(i32),
}

/// The instance name of the khronos validation layer.
pub const VALIDATION_LAYER_NAME: &'static str = "VK_LAYER_KHRONOS_validation";

/// The instance extensions that debug validation requests.
#[derive(Debug, Clone, Copy, PartialEq, Eq, Structural)]
pub struct InstanceExtensions {
    pub ext_debug_utils: bool,
}

/// Some name in `names` is `name`.
pub open spec fn lists_name(names: Seq<String>, name: Seq<char>) -> bool {
    exists|i: int| 0 <= i < names.len() && (#[trigger] names[i])@ == name
}

pub(crate) fn contains_name(names: &Vec<String>, name: &str) -> (res: bool)
    ensures
        res == lists_name(names@, name@),
{
    let wanted = String::from_str(name);
    let n = names.len();
    let mut i: usize = 0;
    while i < n
        invariant
            n == names@.len(),
            i <= n,
            wanted@ == name@,
            forall|k: int| 0 <= k < i ==> (#[trigger] names@[k])@ != name@,
        decreases n - i,
    {
        if names[i] == wanted {
            return true;
        }
        i += 1;
    }
    false
}

/// Checks for `VK_EXT_debug_utils` support (`debug_utils_supported`) and for the khronos
/// validation layer among the instance layers (`layer_properties`, or the `VkResult` of the
/// failed query). If both can be enabled, adds them to the extension and layer lists, and
/// leaves both lists unchanged otherwise.
pub fn add_debug_validation(
    debug_utils_supported: bool,
    layer_properties: Result<Vec<String>, i32>,
    instance_extensions: &mut InstanceExtensions,
    instance_layers: &mut Vec<String>,
) -> (res: Result<(), DebugValidationError>)
    ensures
        res == if !debug_utils_supported {
            Err::<(), DebugValidationError>(DebugValidationError::DebugUtilsUnsupported)
        } else {
            match layer_properties {
                Err(code) => Err(DebugValidationError::LayerPropertiesUnavailable(code)),
                Ok(names) => if lists_name(names@, VALIDATION_LAYER_NAME@) {
                    Ok(())
                } else {
                    Err(DebugValidationError::ValidationLayerNotFound)
                },
            }
        },
        res is Ok ==> {
            &&& final(instance_extensions).ext_debug_utils
            &&& final(instance_layers)@.len() == old(instance_layers)@.len() + 1
            &&& final(instance_layers)@.take(old(instance_layers)@.len() as int) == old(instance_layers)@
            &&& final(instance_layers)@.last()@ == VALIDATION_LAYER_NAME@
        },
        res is Err ==> *final(instance_extensions) == *old(instance_extensions) && final(instance_layers)@ == old(
            instance_layers,
        )@,
{
    // check debug utils extension support
    if !debug_utils_supported {
        return Err(DebugValidationError::DebugUtilsUnsupported);
    }
    // check validation layers are present
    let validation_layer_found = match layer_properties {
        Err(code) => {
            return Err(DebugValidationError::LayerPropertiesUnavailable(code));
        },
        Ok(names) => contains_name(&names, VALIDATION_LAYER_NAME),
    };
    let checked = check_debug_validation_support(debug_utils_supported, validation_layer_found);
    match checked {
        Err(e) => Err(e),
        Ok(()) => {
            // add VK_EXT_debug_utils and VK_LAYER_KHRONOS_validation
            instance_extensions.ext_debug_utils = true;
            let ghost before = instance_layers@;
            instance_layers.push(String::from_str(VALIDATION_LAYER_NAME));
            assert(instance_layers@.take(before.len() as int) =~= before);
            Ok(())
        },
    }
}

/// Debug validation can be enabled when the library supports `VK_EXT_debug_utils` and the
/// validation layer is present; the extension is checked first.
pub fn check_debug_validation_support(debug_utils_supported: bool, validation_layer_found: bool) -> (res: Result<(), DebugValidationError>)
    ensures
        res == if !debug_utils_supported {
            Err::<(), DebugValidationError>(DebugValidationError::DebugUtilsUnsupported)
        } else if !validation_layer_found {
            Err(DebugValidationError::ValidationLayerNotFound)
        } else {
            Ok(())
        },
{
    if !debug_utils_supported {
        return Err(DebugValidationError::DebugUtilsUnsupported);
    }
    if !validation_layer_found {
        return Err(DebugValidationError::ValidationLayerNotFound);
    }
    Ok(())
}

/// Errors encountered when creating a descriptor set
#[derive(Debug, Clone, Copy)]
pub enum CreateDescriptorSetError {
    /// Descriptor set index not found in the pipeline layout
    InvalidDescriptorSetIndex {
        /// Descriptor set index
        index: usize,
        /// A shader where this descriptor set is expected to be found, to assist with debugging
        shader_path: &'static str,
    },
}

} // verus!
