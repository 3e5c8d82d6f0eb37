//! Vulkan initialization types.

use crate::error::{memory_exhausted, DriverError};
use crate::text::{
    copy_names, decimal, decimal_text, decimals_read_back, has_name, join_names, joined, number_of,
    str_texts, texts,
};
use crate::vk;
use vstd::prelude::*;
use vstd::string::*;

verus! {

/// The number that stands for a version with the given components.
pub open spec fn packed_version(variant: u32, major: u32, minor: u32, patch: u32) -> u32 {
    (variant << 29u32) | (major << 22u32) | (minor << 12u32) | patch
}

/// `ash::vk::make_api_version` puts the components of a version side by side into one number.
#[verifier::external_body]
fn make_api_version(variant: u32, major: u32, minor: u32, patch: u32) -> (version: u32)
    ensures
        version == packed_version(variant, major, minor, patch),
{
    ash::vk::make_api_version(variant, major, minor, patch)
}

/// `ash::vk::api_version_variant` returns the upper three bits of a version.
#[verifier::external_body]
fn api_version_variant(version: u32) -> (variant: u32)
    ensures
        variant == version >> 29u32,
{
    ash::vk::api_version_variant(version)
}

/// `ash::vk::api_version_major` returns the seven bits of a version from the twenty-third on.
#[verifier::external_body]
fn api_version_major(version: u32) -> (major: u32)
    ensures
        major == (version >> 22u32) & 0x7f,
{
    ash::vk::api_version_major(version)
}

/// `ash::vk::api_version_minor` returns the ten bits of a version from the thirteenth on.
#[verifier::external_body]
fn api_version_minor(version: u32) -> (minor: u32)
    ensures
        minor == (version >> 12u32) & 0x3ff,
{
    ash::vk::api_version_minor(version)
}

/// `ash::vk::api_version_patch` returns the lower twelve bits of a version.
#[verifier::external_body]
fn api_version_patch(version: u32) -> (patch: u32)
    ensures
        patch == version & 0xfff,
{
    ash::vk::api_version_patch(version)
}

/// Vulkan API version.
#[derive(Clone, Copy, Debug, PartialEq, Eq, Hash, PartialOrd, Ord, Structural)]
pub enum ApiVersion {
    /// Version `1.2`.
    Vulkan12,
    /// Version `1.3`.
    ///
    /// This is the default value.
    Vulkan13,
}

impl Default for ApiVersion {
    fn default() -> (version: Self)
        ensures
            version == ApiVersion::Vulkan13,
    {
        ApiVersion::Vulkan13
    }
}

/// Data returned when attempting to parse a Vulkan API version number.
#[derive(Clone, Copy, Debug, PartialEq, Eq, Structural)]
pub struct ParseApiVersionError {
    /// The _major_ version indicates a significant change in the API, which will encompass a
    /// wholly new version of the specification.
    pub major: u32,
    /// The _minor_ version indicates the incorporation of new functionality into the core
    /// specification.
    pub minor: u32,
    /// The _patch_ version indicates bug fixes, clarifications, and language improvements have
    /// been incorporated into the specification.
    pub patch: u32,
    /// The _variant_ indicates the variant of the Vulkan API supported by the implementation. This
    /// is always 0 for the Vulkan API.
    pub variant: u32,
}

impl ParseApiVersionError {
    /// The components of a number that stands for a version.
    pub open spec fn of_version(version: u32) -> Self {
        ParseApiVersionError {
            major: (version >> 22u32) & 0x7f,
            minor: (version >> 12u32) & 0x3ff,
            patch: version & 0xfff,
            variant: version >> 29u32,
        }
    }

    /// The text of a version, such as `v1.1.0-0`.
    pub open spec fn text(self) -> Seq<char> {
        seq!['v'] + decimal(self.major as nat) + seq!['.'] + decimal(self.minor as nat) + seq!['.']
            + decimal(self.patch as nat) + seq!['-'] + decimal(self.variant as nat)
    }

    /// Returns the text of the version, such as `v1.1.0-0`.
    pub fn to_text(&self) -> (text: String)
        ensures
            text@ == self.text(),
    {
        proof {
            reveal_strlit("v");
            reveal_strlit(".");
            reveal_strlit("-");
        }
        let mut text = String::from_str("v");
        text.append(decimal_text(self.major).as_str());
        text.append(".");
        text.append(decimal_text(self.minor).as_str());
        text.append(".");
        text.append(decimal_text(self.patch).as_str());
        text.append("-");
        text.append(decimal_text(self.variant).as_str());
        assert(text@ =~= self.text());
        text
    }
}

impl ApiVersion {
    /// The minor version.
    pub open spec fn spec_minor(self) -> u32 {
        match self {
            ApiVersion::Vulkan12 => 2,
            ApiVersion::Vulkan13 => 3,
        }
    }

    /// The number that stands for the version.
    pub open spec fn number(self) -> u32 {
        packed_version(0, 1, self.spec_minor(), 0)
    }

    /// The version that a number stands for.
    pub open spec fn parsed(version: u32) -> Result<Self, ParseApiVersionError> {
        let parts = ParseApiVersionError::of_version(version);
        if parts.variant != 0 || parts.major != 1 || parts.minor < 2 {
            Err(parts)
        } else if parts.minor == 2 {
            Ok(ApiVersion::Vulkan12)
        } else {
            Ok(ApiVersion::Vulkan13)
        }
    }

    /// Returns a version parsed from a native Vulkan value.
    pub fn try_parse_vk_api_version(version: u32) -> (parsed: Result<Self, ParseApiVersionError>)
        ensures
            parsed == Self::parsed(version),
    {
        Self::try_from(version)
    }

    /// Vulkan API major version number component. Ex: `vX.0.0-0`.
    ///
    /// Always one.
    pub fn major(self) -> (major: u32)
        ensures
            major == 1,
    {
        1
    }

    /// Vulkan API minor version number component. Ex: `v0.X.0-0`.
    #[verifier::when_used_as_spec(spec_minor)]
    pub fn minor(self) -> (minor: u32)
        ensures
            minor == self.spec_minor(),
    {
        match self {
            ApiVersion::Vulkan12 => 2,
            ApiVersion::Vulkan13 => 3,
        }
    }

    /// Vulkan API patch version number component. Ex: `v0.0.X-0`.
    ///
    /// Always zero.
    pub fn patch(self) -> (patch: u32)
        ensures
            patch == 0,
    {
        0
    }

    /// Returns a native Vulkan value.
    pub fn to_vk_api_version(self) -> (version: u32)
        ensures
            version == self.number(),
    {
        u32::from(self)
    }

    /// Vulkan API variant version number component. Ex: `v0.0.0-X`.
    ///
    /// Always zero.
    pub fn variant(self) -> (variant: u32)
        ensures
            variant == 0,
    {
        0
    }

    /// Whether a version is at least as new as another.
    pub fn at_least(self, other: Self) -> (newer: bool)
        ensures
            newer == (self.spec_minor() >= other.spec_minor()),
    {
        self.minor() >= other.minor()
    }
}

impl From<ApiVersion> for u32 {
    fn from(val: ApiVersion) -> (version: Self) {
        make_api_version(val.variant(), val.major(), val.minor(), val.patch())
    }
}

impl vstd::std_specs::convert::FromSpecImpl<ApiVersion> for u32 {
    open spec fn obeys_from_spec() -> bool {
        true
    }

    open spec fn from_spec(val: ApiVersion) -> Self {
        val.number()
    }
}

impl TryFrom<u32> for ApiVersion {
    type Error = ParseApiVersionError;

    fn try_from(val: u32) -> (parsed: Result<Self, Self::Error>) {
        let major: u32 = api_version_major(val);
        let minor: u32 = api_version_minor(val);
        let patch: u32 = api_version_patch(val);
        let variant: u32 = api_version_variant(val);
        if variant != 0 || major != 1 || minor < 2 {
            return Err(ParseApiVersionError { major, minor, patch, variant });
        }
        match minor {
            2 => Ok(ApiVersion::Vulkan12),
            _ => Ok(ApiVersion::Vulkan13),
        }
    }
}

impl vstd::std_specs::convert::TryFromSpecImpl<u32> for ApiVersion {
    open spec fn obeys_try_from_spec() -> bool {
        true
    }

    open spec fn try_from_spec(val: u32) -> Result<Self, Self::Error> {
        Self::parsed(val)
    }
}

/// A version is parsed back from the number that stands for it.
pub proof fn version_round_trip(version: ApiVersion)
    ensures
        ApiVersion::parsed(version.number()) == Ok::<ApiVersion, ParseApiVersionError>(version),
{
    let twelve = (0u32 << 29u32) | (1u32 << 22u32) | (2u32 << 12u32) | 0u32;
    let thirteen = (0u32 << 29u32) | (1u32 << 22u32) | (3u32 << 12u32) | 0u32;
    assert(twelve == 0x402000u32 && thirteen == 0x403000u32) by (bit_vector)
        requires
            twelve == (0u32 << 29u32) | (1u32 << 22u32) | (2u32 << 12u32) | 0u32,
            thirteen == (0u32 << 29u32) | (1u32 << 22u32) | (3u32 << 12u32) | 0u32,
    ;
    assert(0x402000u32 >> 29u32 == 0 && (0x402000u32 >> 22u32) & 0x7f == 1 && (0x402000u32
        >> 12u32) & 0x3ff == 2 && 0x403000u32 >> 29u32 == 0 && (0x403000u32 >> 22u32) & 0x7f == 1
        && (0x403000u32 >> 12u32) & 0x3ff == 3) by (bit_vector);
}

/// The patch component of a version does not change what is parsed.
pub proof fn patch_is_ignored(version: u32, patch: u32)
    requires
        patch <= 0xfff,
    ensures
        ApiVersion::parsed((version & 0xffff_f000) | patch) is Ok == ApiVersion::parsed(version) is Ok,
        ApiVersion::parsed(version) matches Ok(parsed) ==> ApiVersion::parsed(
            (version & 0xffff_f000) | patch,
        ) == Ok::<ApiVersion, ParseApiVersionError>(parsed),
{
    let other = (version & 0xffff_f000) | patch;
    assert(other >> 29u32 == version >> 29u32 && (other >> 22u32) & 0x7f == (version >> 22u32) & 0x7f
        && (other >> 12u32) & 0x3ff == (version >> 12u32) & 0x3ff) by (bit_vector)
        requires
            other == (version & 0xffff_f000) | patch,
            patch <= 0xfff,
    ;
}


/// Information used to create an instance.
#[derive(Clone, Copy, Debug, PartialEq, Eq, Hash)]
pub struct InstanceInfo {
    /// The Vulkan API version to target.
    ///
    /// Defaults to [`Instance::DEFAULT_API_VERSION`].
    pub api_version: ApiVersion,
    /// Enables Vulkan validation layers.
    ///
    /// This requires a Vulkan SDK installation. Additionally, the device must support
    /// VK_EXT_private_data. Errors are recorded in [`ValidationReport`] independently of logging.
    ///
    /// When `stderr` is attached to an interactive terminal, validation errors will park the
    /// callback thread for debugger attach.
    ///
    /// Set `VK_GRAPH_SKIP_VALIDATION_PARK=1` to keep logging validation errors without parking.
    pub debug: bool,
    /// Required Vulkan instance extension names to load.
    pub extension_names: &'static [&'static str],
}

/// Builds an [`InstanceInfo`]; what is not set takes its default.
#[derive(Clone, Copy, Debug)]
pub struct InstanceInfoBuilder {
    /// See [`InstanceInfo::api_version`].
    pub api_version: Option<ApiVersion>,
    /// See [`InstanceInfo::debug`].
    pub debug: Option<bool>,
    /// See [`InstanceInfo::extension_names`].
    pub extension_names: Option<&'static [&'static str]>,
}

impl InstanceInfo {
    /// The builder in which every field is set to this value's.
    pub open spec fn as_builder(self) -> InstanceInfoBuilder {
        InstanceInfoBuilder {
            api_version: Some(self.api_version),
            debug: Some(self.debug),
            extension_names: Some(self.extension_names),
        }
    }

    /// Creates a default `InstanceInfoBuilder`.
    pub fn builder() -> (builder: InstanceInfoBuilder)
        ensures
            builder == InstanceInfoBuilder::unset(),
    {
        InstanceInfoBuilder::default()
    }

    /// Converts a `InstanceInfo` into a `InstanceInfoBuilder`.
    pub fn into_builder(self) -> (builder: InstanceInfoBuilder)
        ensures
            builder == self.as_builder(),
    {
        InstanceInfoBuilder {
            api_version: Some(self.api_version),
            debug: Some(self.debug),
            extension_names: Some(self.extension_names),
        }
    }
}

impl Default for InstanceInfo {
    fn default() -> (info: Self)
        ensures
            InstanceInfoBuilder::unset().builds(info),
    {
        InstanceInfoBuilder::default().build()
    }
}

impl InstanceInfoBuilder {
    /// The builder in which nothing is set.
    pub open spec fn unset() -> Self {
        InstanceInfoBuilder { api_version: None, debug: None, extension_names: None }
    }

    /// Whether the builder describes a value.
    pub open spec fn builds(self, info: InstanceInfo) -> bool {
        &&& info.api_version == self.api_version.unwrap_or(ApiVersion::Vulkan13)
        &&& info.debug == self.debug.unwrap_or(false)
        &&& match self.extension_names {
            Some(extension_names) => info.extension_names == extension_names,
            None => info.extension_names@.len() == 0,
        }
    }

    /// Sets [`InstanceInfo::api_version`].
    pub fn api_version(self, api_version: ApiVersion) -> (builder: Self)
        ensures
            builder == (InstanceInfoBuilder { api_version: Some(api_version), ..self }),
    {
        InstanceInfoBuilder { api_version: Some(api_version), ..self }
    }

    /// Sets [`InstanceInfo::debug`].
    pub fn debug(self, debug: bool) -> (builder: Self)
        ensures
            builder == (InstanceInfoBuilder { debug: Some(debug), ..self }),
    {
        InstanceInfoBuilder { debug: Some(debug), ..self }
    }

    /// Sets [`InstanceInfo::extension_names`].
    pub fn extension_names(self, extension_names: &'static [&'static str]) -> (builder: Self)
        ensures
            builder == (InstanceInfoBuilder { extension_names: Some(extension_names), ..self }),
    {
        InstanceInfoBuilder { extension_names: Some(extension_names), ..self }
    }

    /// Builds a new `InstanceInfo`.
    pub fn build(self) -> (info: InstanceInfo)
        ensures
            self.builds(info),
    {
        let extension_names: &'static [&'static str] = match self.extension_names {
            Some(extension_names) => extension_names,
            None => &[],
        };
        InstanceInfo {
            api_version: self.api_version.unwrap_or(Instance::DEFAULT_API_VERSION),
            debug: self.debug.unwrap_or(false),
            extension_names,
        }
    }
}

impl Default for InstanceInfoBuilder {
    fn default() -> (builder: Self)
        ensures
            builder == InstanceInfoBuilder::unset(),
    {
        InstanceInfoBuilder { api_version: None, debug: None, extension_names: None }
    }
}

/// Building what a value was converted into gives the value back.
pub proof fn instance_info_round_trip(info: InstanceInfo, built: InstanceInfo)
    requires
        info.as_builder().builds(built),
    ensures
        built == info,
{
}

/// What an instance is created with.
#[derive(Debug)]
pub struct InstancePlan {
    /// The native version to ask for.
    pub api_version: u32,
    /// The extensions to enable, each once.
    pub extension_names: Vec<String>,
    /// Whether surfaces can be made.
    pub khr_surface: bool,
    /// The layers to enable.
    pub layer_names: Vec<String>,
    /// Whether validation errors are recorded.
    pub validates: bool,
}

/// The platforms of displays.
#[derive(Clone, Copy, Debug, PartialEq, Eq, Structural)]
pub enum DisplayPlatform {
    /// Android.
    Android,
    /// AppKit.
    AppKit,
    /// UiKit.
    UiKit,
    /// Wayland.
    Wayland,
    /// Windows.
    Windows,
    /// X11, through XCB.
    Xcb,
    /// X11, through Xlib.
    Xlib,
    /// Any other platform.
    Other,
}

/// The extension that a platform needs besides the one that all of them need.
pub open spec fn platform_extension(platform: DisplayPlatform) -> Option<&'static str> {
    match platform {
        DisplayPlatform::Windows => Some("VK_KHR_win32_surface"),
        DisplayPlatform::Wayland => Some("VK_KHR_wayland_surface"),
        DisplayPlatform::Xlib => Some("VK_KHR_xlib_surface"),
        DisplayPlatform::Xcb => Some("VK_KHR_xcb_surface"),
        DisplayPlatform::Android => Some("VK_KHR_android_surface"),
        DisplayPlatform::AppKit | DisplayPlatform::UiKit => Some("VK_EXT_metal_surface"),
        DisplayPlatform::Other => None,
    }
}

/// Whether a variable with a value counts as set.
pub open spec fn counts_as_set(value: Seq<char>) -> bool {
    !(value == ""@ || value == "0"@ || value == "false"@ || value == "False"@ || value == "FALSE"@)
}

/// The rules of creating and using an instance.
#[derive(Debug)]
pub struct Instance;

impl Instance {
    /// Default Vulkan API version requested when creating an instance.
    pub const DEFAULT_API_VERSION: ApiVersion = ApiVersion::Vulkan13;

    /// The extensions that an instance is created with.
    pub open spec fn planned_extensions(
        info: InstanceInfo,
        extra: Seq<&'static str>,
        debug_extensions: Seq<&'static str>,
        platform_extensions: Seq<&'static str>,
    ) -> Seq<Seq<char>> {
        let asked = joined(joined(seq![], str_texts(info.extension_names@)), str_texts(extra));
        let debugged = if info.debug {
            joined(asked, str_texts(debug_extensions))
        } else {
            asked
        };
        joined(debugged, str_texts(platform_extensions))
    }

    /// Decides what an instance is created with, given what debugging needs and what the platform
    /// needs.
    pub fn plan(
        info: InstanceInfo,
        extra_extension_names: &[&'static str],
        debug_extension_names: &[&'static str],
        debug_layer_names: &[&'static str],
        platform_extension_names: &[&'static str],
    ) -> (plan: Result<InstancePlan, DriverError>)
        ensures
            match plan {
                Ok(plan) => {
                    let extensions = Self::planned_extensions(
                        info,
                        extra_extension_names@,
                        debug_extension_names@,
                        platform_extension_names@,
                    );
                    &&& info.debug ==> debug_extension_names@.len() > 0
                    &&& plan.api_version == info.api_version.number()
                    &&& texts(plan.extension_names@) == extensions
                    &&& plan.khr_surface == extensions.contains("VK_KHR_surface"@)
                    &&& texts(plan.layer_names@) == (if info.debug {
                        str_texts(debug_layer_names@)
                    } else {
                        seq![]
                    })
                    &&& plan.validates == info.debug
                },
                Err(err) => {
                    &&& info.debug && debug_extension_names@.len() == 0
                    &&& err == DriverError::Unsupported
                },
            },
    {
        if info.debug && debug_extension_names.len() == 0 {
            return Err(DriverError::Unsupported);
        }
        let mut extension_names: Vec<String> = Vec::new();
        assert(texts(extension_names@) =~= seq![]);
        join_names(&mut extension_names, info.extension_names);
        join_names(&mut extension_names, extra_extension_names);
        if info.debug {
            join_names(&mut extension_names, debug_extension_names);
        }
        join_names(&mut extension_names, platform_extension_names);
        let surface = "VK_KHR_surface".to_owned();
        let khr_surface: bool = has_name(&extension_names, &surface);
        let mut layer_names: Vec<String> = Vec::new();
        assert(texts(layer_names@) =~= seq![]);
        if info.debug {
            layer_names = copy_names(debug_layer_names);
        }
        Ok(
            InstancePlan {
                api_version: info.api_version.to_vk_api_version(),
                extension_names,
                khr_surface,
                layer_names,
                validates: info.debug,
            },
        )
    }

    /// The extensions that surfaces on a platform need.
    pub fn display_extension_names(platform: DisplayPlatform) -> (names: Result<
        Vec<&'static str>,
        DriverError,
    >)
        ensures
            match platform_extension(platform) {
                Some(name) => names matches Ok(names) && names@.len() == 2 && names@[0]@
                    == "VK_KHR_surface"@ && names@[1]@ == name@,
                None => names == Err::<Vec<&'static str>, DriverError>(DriverError::Unsupported),
            },
    {
        let name: &'static str = match platform {
            DisplayPlatform::Windows => "VK_KHR_win32_surface",
            DisplayPlatform::Wayland => "VK_KHR_wayland_surface",
            DisplayPlatform::Xlib => "VK_KHR_xlib_surface",
            DisplayPlatform::Xcb => "VK_KHR_xcb_surface",
            DisplayPlatform::Android => "VK_KHR_android_surface",
            DisplayPlatform::AppKit | DisplayPlatform::UiKit => "VK_EXT_metal_surface",
            DisplayPlatform::Other => {
                return Err(DriverError::Unsupported);
            },
        };
        let mut names: Vec<&'static str> = Vec::new();
        names.push("VK_KHR_surface");
        names.push(name);
        Ok(names)
    }

    /// The information of an instance that was created by other means, given its handle, and the
    /// version that the loader reports, where it reports one, or its error.
    pub fn imported(handle: u64, version: Result<Option<u32>, i32>) -> (info: Result<
        InstanceInfo,
        DriverError,
    >)
        ensures
            handle == 0 ==> info == Err::<InstanceInfo, DriverError>(DriverError::InvalidData),
            handle != 0 ==> match version {
                Err(result) => info == Err::<InstanceInfo, DriverError>(
                    if result == vk::ERROR_OUT_OF_HOST_MEMORY {
                        DriverError::OutOfMemory
                    } else if result == vk::ERROR_VALIDATION_FAILED_EXT {
                        DriverError::InvalidData
                    } else {
                        DriverError::Unsupported
                    },
                ),
                Ok(number) => match ApiVersion::parsed(
                    number.unwrap_or(ApiVersion::Vulkan13.number()),
                ) {
                    Ok(api_version) => info matches Ok(info) && info.api_version == api_version
                        && !info.debug && info.extension_names@.len() == 0,
                    Err(_) => info == Err::<InstanceInfo, DriverError>(DriverError::Unsupported),
                },
            },
    {
        if handle == 0 {
            return Err(DriverError::InvalidData);
        }
        let number: u32 = match version {
            Err(result) => {
                return Err(
                    match result {
                        vk::ERROR_OUT_OF_HOST_MEMORY => DriverError::OutOfMemory,
                        vk::ERROR_VALIDATION_FAILED_EXT => DriverError::InvalidData,
                        _ => DriverError::Unsupported,
                    },
                );
            },
            Ok(Some(number)) => number,
            Ok(None) => Self::DEFAULT_API_VERSION.to_vk_api_version(),
        };
        match ApiVersion::try_parse_vk_api_version(number) {
            Ok(api_version) => Ok(InstanceInfo::builder().api_version(api_version).build()),
            Err(_) => Err(DriverError::Unsupported),
        }
    }

    /// Whether surfaces can be made with an instance that was created by other means, given which
    /// of the entry points that they need were found.
    pub fn has_vk_khr_surface(found: &Vec<bool>) -> (has: bool)
        ensures
            has == forall|i: int| 0 <= i < found@.len() ==> #[trigger] found@[i],
    {
        let mut index: usize = 0;
        while index < found.len()
            invariant
                index <= found@.len(),
                forall|i: int| 0 <= i < index ==> #[trigger] found@[i],
            decreases found@.len() - index,
        {
            if !found[index] {
                assert(!found@[index as int]);
                return false;
            }
            index += 1;
        }
        true
    }

    /// The entry points that surfaces need.
    pub fn surface_entry_points() -> (names: Vec<&'static str>)
        ensures
            str_texts(names@) == seq![
                "vkGetPhysicalDeviceSurfaceCapabilitiesKHR"@,
                "vkGetPhysicalDeviceSurfaceFormatsKHR"@,
                "vkGetPhysicalDeviceSurfacePresentModesKHR"@,
                "vkGetPhysicalDeviceSurfaceSupportKHR"@,
                "vkDestroySurfaceKHR"@,
            ],
    {
        let mut names: Vec<&'static str> = Vec::new();
        names.push("vkGetPhysicalDeviceSurfaceCapabilitiesKHR");
        names.push("vkGetPhysicalDeviceSurfaceFormatsKHR");
        names.push("vkGetPhysicalDeviceSurfacePresentModesKHR");
        names.push("vkGetPhysicalDeviceSurfaceSupportKHR");
        names.push("vkDestroySurfaceKHR");
        assert(str_texts(names@) =~= seq![
            "vkGetPhysicalDeviceSurfaceCapabilitiesKHR"@,
            "vkGetPhysicalDeviceSurfaceFormatsKHR"@,
            "vkGetPhysicalDeviceSurfacePresentModesKHR"@,
            "vkGetPhysicalDeviceSurfaceSupportKHR"@,
            "vkDestroySurfaceKHR"@,
        ]);
        names
    }

    /// The error for physical devices that could not be enumerated.
    pub fn physical_devices_error(result: i32) -> (err: DriverError)
        ensures
            err == (if memory_exhausted(result) {
                DriverError::OutOfMemory
            } else if result == vk::ERROR_VALIDATION_FAILED_EXT {
                DriverError::InvalidData
            } else {
                DriverError::Unsupported
            }),
    {
        match result {
            vk::ERROR_INITIALIZATION_FAILED => DriverError::Unsupported,
            vk::ERROR_OUT_OF_DEVICE_MEMORY | vk::ERROR_OUT_OF_HOST_MEMORY => {
                DriverError::OutOfMemory
            },
            vk::ERROR_VALIDATION_FAILED_EXT => DriverError::InvalidData,
            _ => DriverError::Unsupported,
        }
    }

    /// Whether a physical device can be used with an instance, given the native version that it
    /// reports, and whether it supports private data.
    pub fn accepts_physical_device(
        info: InstanceInfo,
        api_version: u32,
        vk_ext_private_data: bool,
    ) -> (accepts: bool)
        ensures
            accepts == match ApiVersion::parsed(api_version) {
                Ok(version) => version.spec_minor() >= info.api_version.spec_minor() && (info.debug
                    ==> vk_ext_private_data),
                Err(_) => false,
            },
    {
        match ApiVersion::try_parse_vk_api_version(api_version) {
            Ok(version) => version.at_least(info.api_version) && !(info.debug
                && !vk_ext_private_data),
            Err(_) => false,
        }
    }

    /// Whether a variable with a value counts as set.
    pub fn var_value_is_set(val: String) -> (set: bool)
        ensures
            set == counts_as_set(val@),
    {
        let empty = "".to_owned();
        let zero = "0".to_owned();
        let lower = "false".to_owned();
        let title = "False".to_owned();
        let upper = "FALSE".to_owned();
        !(val == empty || val == zero || val == lower || val == title || val == upper)
    }
}

/// The names that an instance enables are those that were asked for and those that debugging and
/// the platform need, each once.
pub proof fn extensions_are_enabled_once(
    info: InstanceInfo,
    extra: Seq<&'static str>,
    debug_extensions: Seq<&'static str>,
    platform_extensions: Seq<&'static str>,
)
    ensures
        ({
            let planned = Instance::planned_extensions(
                info,
                extra,
                debug_extensions,
                platform_extensions,
            );
            &&& planned.no_duplicates()
            &&& forall|name: Seq<char>| #[trigger]
                planned.contains(name) <==> (str_texts(info.extension_names@).contains(name)
                    || str_texts(extra).contains(name) || info.debug && str_texts(
                    debug_extensions,
                ).contains(name) || str_texts(platform_extensions).contains(name))
        }),
{
    let none: Seq<Seq<char>> = seq![];
    let first = joined(none, str_texts(info.extension_names@));
    let asked = joined(first, str_texts(extra));
    crate::text::lemma_joined(none, str_texts(info.extension_names@));
    crate::text::lemma_joined(first, str_texts(extra));
    crate::text::lemma_joined(asked, str_texts(debug_extensions));
    let debugged = if info.debug {
        joined(asked, str_texts(debug_extensions))
    } else {
        asked
    };
    crate::text::lemma_joined(debugged, str_texts(platform_extensions));
    let planned = joined(debugged, str_texts(platform_extensions));
    assert forall|name: Seq<char>| #[trigger] planned.contains(name) <==> (str_texts(
        info.extension_names@,
    ).contains(name) || str_texts(extra).contains(name) || info.debug && str_texts(
        debug_extensions,
    ).contains(name) || str_texts(platform_extensions).contains(name)) by {
        assert(!none.contains(name));
        assert(first.contains(name) <==> str_texts(info.extension_names@).contains(name));
        assert(asked.contains(name) <==> first.contains(name) || str_texts(extra).contains(name));
        assert(debugged.contains(name) == debugged.contains(name));
        if info.debug {
            assert(joined(asked, str_texts(debug_extensions)).contains(name) <==> asked.contains(
                name,
            ) || str_texts(debug_extensions).contains(name));
        }
    }
}

/// What has to be destroyed when an instance is dropped.
#[derive(Clone, Copy, Debug, PartialEq, Eq, Structural)]
pub enum Teardown {
    /// The debug messenger.
    Messenger,
    /// The instance.
    Instance,
}

/// What of an instance exists.
#[derive(Clone, Copy, Debug, PartialEq, Eq, Structural)]
pub struct InstanceState {
    /// Whether there is a debug messenger.
    pub debug_utils: bool,
    /// Whether the instance is owned, rather than imported or destroyed.
    pub instance_created: bool,
}

impl InstanceState {
    /// The state of an instance that was just created.
    pub fn created() -> (state: Self)
        ensures
            state == (InstanceState { debug_utils: false, instance_created: true }),
    {
        InstanceState { debug_utils: false, instance_created: true }
    }

    /// The state of an instance that was created by other means.
    pub fn imported() -> (state: Self)
        ensures
            state == (InstanceState { debug_utils: false, instance_created: false }),
    {
        InstanceState { debug_utils: false, instance_created: false }
    }

    /// Takes the result of creating a debug messenger. Where that failed, the instance must be
    /// destroyed, and is then gone.
    pub fn messenger_created(&mut self, result: i32) -> (created: Result<(), DriverError>)
        ensures
            created is Ok == (result == vk::SUCCESS),
            created matches Err(err) ==> err == DriverError::Unsupported,
            *final(self) == (if result == vk::SUCCESS {
                InstanceState { debug_utils: true, ..*old(self) }
            } else {
                InstanceState { instance_created: false, ..*old(self) }
            }),
    {
        if result == vk::SUCCESS {
            self.debug_utils = true;
            Ok(())
        } else {
            self.instance_created = false;
            Err(DriverError::Unsupported)
        }
    }

    /// What has to be destroyed, in order; nothing is destroyed while a panic unwinds.
    pub fn teardown(&mut self, panicking: bool) -> (steps: Vec<Teardown>)
        ensures
            panicking ==> steps@ == Seq::<Teardown>::empty() && *final(self) == *old(self),
            !panicking ==> *final(self) == (InstanceState {
                debug_utils: false,
                instance_created: false,
            }),
            !panicking ==> steps@ == (if old(self).debug_utils {
                seq![Teardown::Messenger]
            } else {
                seq![]
            }) + (if old(self).instance_created {
                seq![Teardown::Instance]
            } else {
                seq![]
            }),
    {
        let mut steps: Vec<Teardown> = Vec::new();
        if panicking {
            return steps;
        }
        if self.debug_utils {
            self.debug_utils = false;
            steps.push(Teardown::Messenger);
        }
        if self.instance_created {
            self.instance_created = false;
            steps.push(Teardown::Instance);
        }
        assert(steps@ =~= (if old(self).debug_utils {
            seq![Teardown::Messenger]
        } else {
            seq![]
        }) + (if old(self).instance_created {
            seq![Teardown::Instance]
        } else {
            seq![]
        }));
        steps
    }
}

/// An error reported by an instance's Vulkan debug callback.
#[derive(Clone, Debug, PartialEq, Eq)]
pub struct ValidationError {
    /// The validation message ID, usually a VUID, when supplied by Vulkan.
    pub message_id_name: Option<String>,
    /// The complete diagnostic message.
    pub message: String,
}

impl ValidationError {
    /// The texts of an error.
    pub open spec fn texts(self) -> (Option<Seq<char>>, Seq<char>) {
        (
            match self.message_id_name {
                Some(name) => Some(name@),
                None => None,
            },
            self.message@,
        )
    }

    /// Copies an error.
    fn copied(&self) -> (copy: Self)
        ensures
            copy.texts() == self.texts(),
    {
        let message_id_name: Option<String> = match &self.message_id_name {
            Some(name) => Some(name.clone()),
            None => None,
        };
        ValidationError { message_id_name, message: self.message.clone() }
    }
}

/// The texts of some errors.
pub open spec fn error_texts(errors: Seq<ValidationError>) -> Seq<(Option<Seq<char>>, Seq<char>)> {
    errors.map_values(|error: ValidationError| error.texts())
}

/// Instance-scoped validation errors.
#[derive(Debug)]
pub struct ValidationReport(Vec<ValidationError>);

impl ValidationReport {
    /// The errors recorded so far.
    pub closed spec fn view(&self) -> Seq<(Option<Seq<char>>, Seq<char>)> {
        error_texts(self.0@)
    }

    /// Returns all errors recorded so far, including instance creation and teardown errors.
    ///
    /// Taking a snapshot does not clear the report.
    pub fn errors(&self) -> (errors: Vec<ValidationError>)
        ensures
            error_texts(errors@) == self@,
    {
        let mut errors: Vec<ValidationError> = Vec::new();
        let mut index: usize = 0;
        assert(error_texts(errors@) =~= error_texts(self.0@.take(0)));
        while index < self.0.len()
            invariant
                index <= self.0@.len(),
                error_texts(errors@) == error_texts(self.0@.take(index as int)),
            decreases self.0@.len() - index,
        {
            let copy = self.0[index].copied();
            let ghost before = errors@;
            errors.push(copy);
            proof {
                assert(error_texts(errors@) =~= error_texts(before).push(copy.texts()));
                assert(error_texts(self.0@.take(index + 1)) =~= error_texts(
                    self.0@.take(index as int),
                ).push(self.0@[index as int].texts()));
            }
            index += 1;
        }
        assert(self.0@.take(index as int) =~= self.0@);
        errors
    }

    /// Records an error.
    pub fn record(&mut self, error: ValidationError)
        ensures
            final(self)@ == old(self)@.push(error.texts()),
    {
        let ghost before = self.0@;
        self.0.push(error);
        assert(error_texts(self.0@) =~= error_texts(before).push(error.texts()));
    }
}

impl Default for ValidationReport {
    fn default() -> (report: Self)
        ensures
            report@ == Seq::<(Option<Seq<char>>, Seq<char>)>::empty(),
    {
        let report = ValidationReport(Vec::new());
        assert(report@ =~= Seq::<(Option<Seq<char>>, Seq<char>)>::empty());
        report
    }
}

/// What a report holds after some errors were recorded in it, one after the other.
pub open spec fn recorded(
    report: Seq<(Option<Seq<char>>, Seq<char>)>,
    errors: Seq<ValidationError>,
) -> Seq<(Option<Seq<char>>, Seq<char>)>
    decreases errors.len(),
{
    if errors.len() == 0 {
        report
    } else {
        recorded(report, errors.drop_last()).push(errors.last().texts())
    }
}

/// A report holds all errors that were recorded in it, in that order, behind those that it held
/// before.
pub proof fn reports_hold_what_was_recorded(
    report: Seq<(Option<Seq<char>>, Seq<char>)>,
    errors: Seq<ValidationError>,
)
    ensures
        recorded(report, errors) == report + error_texts(errors),
        recorded(Seq::empty(), errors) == error_texts(errors),
    decreases errors.len(),
{
    let nothing = Seq::<(Option<Seq<char>>, Seq<char>)>::empty();
    if errors.len() > 0 {
        reports_hold_what_was_recorded(report, errors.drop_last());
        assert(error_texts(errors) =~= error_texts(errors.drop_last()).push(
            errors.last().texts(),
        ));
    }
    assert(recorded(report, errors) =~= report + error_texts(errors));
    assert(recorded(nothing, errors) =~= error_texts(errors));
}

/// A text that a driver handed out: with what is not text replaced, and as it is where all of it is
/// text.
#[derive(Debug)]
pub struct CallbackText {
    /// The text with what is not text replaced.
    pub lossy: String,
    /// The text as it is, where all of it is text.
    pub exact: Option<String>,
}

/// What a debug callback was called with.
#[derive(Debug)]
pub struct CallbackData {
    /// The message, where there is one.
    pub message: Option<CallbackText>,
    /// The name of the message, where it has one.
    pub message_id_name: Option<CallbackText>,
}

/// What a debug callback finds where it runs.
#[derive(Clone, Copy, Debug, PartialEq, Eq, Structural)]
pub struct CallbackEnvironment {
    /// Whether information is not logged.
    pub ignore_info: bool,
    /// Whether verbose messages are not logged.
    pub ignore_verbose: bool,
    /// Whether warnings are not logged.
    pub ignore_warning: bool,
    /// Whether the thread is the main thread.
    pub main_thread: bool,
    /// Whether the thread unwinds from a panic.
    pub panicking: bool,
    /// Whether errors do not park the thread.
    pub skip_park: bool,
    /// Whether errors are written to an interactive terminal.
    pub terminal: bool,
}

/// How important a line of a log is.
#[derive(Clone, Copy, Debug, PartialEq, Eq, Structural)]
pub enum LogLevel {
    /// An error.
    Error,
    /// A warning.
    Warn,
    /// Information.
    Info,
    /// Details.
    Debug,
}

/// What a callback does after an error.
#[derive(Clone, Copy, Debug, PartialEq, Eq, Structural)]
pub enum CallbackEnd {
    /// There was no error, or nothing more is done about it.
    Return,
    /// The thread goes on because it was asked to.
    SkippedByVariable,
    /// The thread goes on because nobody would see it parked.
    SkippedWithoutTerminal,
    /// The thread is parked.
    Park,
}

/// What a debug callback does.
#[derive(Debug)]
pub struct CallbackPlan {
    /// The error to record.
    pub record: Option<ValidationError>,
    /// The name of the message to log.
    pub log_id: Option<String>,
    /// The message to log.
    pub log: Option<(LogLevel, String)>,
    /// Whether to warn that the thread is not the main thread.
    pub warn_thread: bool,
    /// What follows.
    pub end: CallbackEnd,
}

/// Whether a severity mask has a bit.
pub open spec fn severe(severity: u32, bit: u32) -> bool {
    severity & bit == bit
}

/// How a message is logged.
pub open spec fn log_level(severity: u32, env: CallbackEnvironment) -> Option<LogLevel> {
    if severe(severity, vk::DEBUG_UTILS_MESSAGE_SEVERITY_ERROR) {
        Some(LogLevel::Error)
    } else if severe(severity, vk::DEBUG_UTILS_MESSAGE_SEVERITY_WARNING) && !env.ignore_warning {
        Some(LogLevel::Warn)
    } else if severe(severity, vk::DEBUG_UTILS_MESSAGE_SEVERITY_INFO) && !env.ignore_info {
        Some(LogLevel::Info)
    } else if severe(severity, vk::DEBUG_UTILS_MESSAGE_SEVERITY_VERBOSE) && !env.ignore_verbose {
        Some(LogLevel::Debug)
    } else {
        None
    }
}

/// What is recorded where a message is missing.
pub open spec fn missing_message() -> Seq<char> {
    "<missing Vulkan validation message>"@
}

/// The error that is recorded of a message.
pub open spec fn recorded_texts(data: CallbackData) -> (Option<Seq<char>>, Seq<char>) {
    (
        match data.message_id_name {
            Some(name) => Some(name.lossy@),
            None => None,
        },
        match data.message {
            Some(message) => message.lossy@,
            None => missing_message(),
        },
    )
}

/// The text that is logged of a message.
pub open spec fn logged_text(message: Option<CallbackText>) -> Seq<char> {
    match message {
        None => missing_message(),
        Some(message) => match message.exact {
            Some(exact) => exact@,
            None => "<invalid Vulkan validation message>"@,
        },
    }
}

/// The text that is logged of the name of a message, which is left out where the loader speaks.
pub open spec fn logged_id(name: Option<CallbackText>) -> Option<Seq<char>> {
    match name {
        None => None,
        Some(name) => {
            let text = match name.exact {
                Some(exact) => exact@,
                None => "<invalid Vulkan validation message ID name>"@,
            };
            if text == "Loader Message"@ {
                None
            } else {
                Some(text)
            }
        },
    }
}

/// What follows an error.
pub open spec fn end_after_error(env: CallbackEnvironment) -> CallbackEnd {
    if env.skip_park {
        CallbackEnd::SkippedByVariable
    } else if !env.terminal {
        CallbackEnd::SkippedWithoutTerminal
    } else {
        CallbackEnd::Park
    }
}

impl Instance {
    /// Decides what a debug callback does.
    ///
    /// Errors are recorded where there is a report, even while the thread unwinds from a panic;
    /// logging and parking are then left out.
    pub fn debug_callback(
        severity: u32,
        data: Option<&CallbackData>,
        reports: bool,
        env: CallbackEnvironment,
    ) -> (plan: CallbackPlan)
        ensures
            ({
                let is_error = severe(severity, vk::DEBUG_UTILS_MESSAGE_SEVERITY_ERROR);
                match data {
                    None => plan.record is None && plan.log_id is None && plan.log is None
                        && !plan.warn_thread && plan.end == CallbackEnd::Return,
                    Some(data) => {
                        &&& plan.record is Some == (is_error && reports)
                        &&& plan.record matches Some(error) ==> error.texts() == recorded_texts(
                            *data,
                        )
                        &&& if env.panicking {
                            plan.log_id is None && plan.log is None && !plan.warn_thread && plan.end
                                == CallbackEnd::Return
                        } else {
                            &&& plan.log_id is Some == logged_id(data.message_id_name) is Some
                            &&& plan.log_id matches Some(id) ==> logged_id(data.message_id_name)
                                == Some(id@)
                            &&& plan.log is Some == log_level(severity, env) is Some
                            &&& plan.log matches Some(line) ==> log_level(severity, env) == Some(
                                line.0,
                            ) && line.1@ == logged_text(data.message)
                            &&& plan.warn_thread == (is_error && !env.main_thread)
                            &&& plan.end == (if is_error {
                                end_after_error(env)
                            } else {
                                CallbackEnd::Return
                            })
                        }
                    },
                }
            }),
    {
        let mut plan = CallbackPlan {
            record: None,
            log_id: None,
            log: None,
            warn_thread: false,
            end: CallbackEnd::Return,
        };
        let data = match data {
            None => {
                return plan;
            },
            Some(data) => data,
        };
        let is_error: bool = severity & vk::DEBUG_UTILS_MESSAGE_SEVERITY_ERROR
            == vk::DEBUG_UTILS_MESSAGE_SEVERITY_ERROR;
        if is_error && reports {
            let message_id_name: Option<String> = match &data.message_id_name {
                Some(name) => Some(name.lossy.clone()),
                None => None,
            };
            let message: String = match &data.message {
                Some(message) => message.lossy.clone(),
                None => "<missing Vulkan validation message>".to_owned(),
            };
            plan.record = Some(ValidationError { message_id_name, message });
        }
        if env.panicking {
            return plan;
        }
        if let Some(name) = &data.message_id_name {
            let vuid: String = match &name.exact {
                Some(exact) => exact.clone(),
                None => "<invalid Vulkan validation message ID name>".to_owned(),
            };
            let loader = "Loader Message".to_owned();
            if !(vuid == loader) {
                plan.log_id = Some(vuid);
            }
        }
        let message: String = match &data.message {
            None => "<missing Vulkan validation message>".to_owned(),
            Some(message) => match &message.exact {
                Some(exact) => exact.clone(),
                None => "<invalid Vulkan validation message>".to_owned(),
            },
        };
        if is_error {
            plan.log = Some((LogLevel::Error, message));
        } else if severity & vk::DEBUG_UTILS_MESSAGE_SEVERITY_WARNING
            == vk::DEBUG_UTILS_MESSAGE_SEVERITY_WARNING && !env.ignore_warning {
            plan.log = Some((LogLevel::Warn, message));
        } else if severity & vk::DEBUG_UTILS_MESSAGE_SEVERITY_INFO
            == vk::DEBUG_UTILS_MESSAGE_SEVERITY_INFO && !env.ignore_info {
            plan.log = Some((LogLevel::Info, message));
        } else if severity & vk::DEBUG_UTILS_MESSAGE_SEVERITY_VERBOSE
            == vk::DEBUG_UTILS_MESSAGE_SEVERITY_VERBOSE && !env.ignore_verbose {
            plan.log = Some((LogLevel::Debug, message));
        }
        if !is_error {
            return plan;
        }
        plan.warn_thread = !env.main_thread;
        plan.end = if env.skip_park {
            CallbackEnd::SkippedByVariable
        } else if !env.terminal {
            CallbackEnd::SkippedWithoutTerminal
        } else {
            CallbackEnd::Park
        };
        plan
    }
}

/// The components of a version are read back from the number that was made of them.
pub proof fn components_read_back(variant: u32, major: u32, minor: u32, patch: u32)
    requires
        variant < 8,
        major < 128,
        minor < 1024,
        patch < 4096,
    ensures
        ParseApiVersionError::of_version(packed_version(variant, major, minor, patch)) == (
        ParseApiVersionError { major, minor, patch, variant }),
{
    let version = (variant << 29u32) | (major << 22u32) | (minor << 12u32) | patch;
    assert(version >> 29u32 == variant && (version >> 22u32) & 0x7f == major && (version >> 12u32)
        & 0x3ff == minor && version & 0xfff == patch) by (bit_vector)
        requires
            version == (variant << 29u32) | (major << 22u32) | (minor << 12u32) | patch,
            variant < 8,
            major < 128,
            minor < 1024,
            patch < 4096,
    ;
}

/// Versions of the first major number are parsed from the second minor number on, and those later
/// than the last one known are taken for it. All others are handed back by their components.
pub proof fn versions_are_parsed_by_components(variant: u32, major: u32, minor: u32, patch: u32)
    requires
        variant < 8,
        major < 128,
        minor < 1024,
        patch < 4096,
    ensures
        match ApiVersion::parsed(packed_version(variant, major, minor, patch)) {
            Ok(version) => {
                &&& variant == 0
                &&& major == 1
                &&& 2 <= version.spec_minor() <= minor
                &&& version.spec_minor() < minor ==> version.spec_minor() == 3
            },
            Err(err) => {
                &&& variant != 0 || major != 1 || minor < 2
                &&& err == (ParseApiVersionError { major, minor, patch, variant })
            },
        },
{
    components_read_back(variant, major, minor, patch);
}

/// The number of a version tells its components: the major number is one, and neither patch nor
/// variant is given.
pub proof fn version_numbers_have_components(version: ApiVersion)
    ensures
        ParseApiVersionError::of_version(version.number()) == (ParseApiVersionError {
            major: 1,
            minor: version.spec_minor(),
            patch: 0,
            variant: 0,
        }),
{
    components_read_back(0, 1, version.spec_minor(), 0);
}

/// The text of a version starts with a `v`. The numbers in front of the two full stops and the dash,
/// and behind the dash, are its components.
pub proof fn version_texts_tell_components(version: ParseApiVersionError, i: int, j: int, k: int)
    requires
        0 < i < j < k < version.text().len(),
        version.text()[i] == '.',
        version.text()[j] == '.',
        version.text()[k] == '-',
    ensures
        version.text()[0] == 'v',
        number_of(version.text().subrange(1, i)) == version.major,
        number_of(version.text().subrange(i + 1, j)) == version.minor,
        number_of(version.text().subrange(j + 1, k)) == version.patch,
        number_of(version.text().skip(k + 1)) == version.variant,
{
    let text = version.text();
    let major = decimal(version.major as nat);
    let minor = decimal(version.minor as nat);
    let patch = decimal(version.patch as nat);
    let variant = decimal(version.variant as nat);
    decimals_read_back(version.major as nat);
    decimals_read_back(version.minor as nat);
    decimals_read_back(version.patch as nat);
    decimals_read_back(version.variant as nat);
    let first = 1 + major.len() as int;
    let second = first + 1 + minor.len();
    let third = second + 1 + patch.len();
    assert(text.subrange(1, first) =~= major);
    assert(text.subrange(first + 1, second) =~= minor);
    assert(text.subrange(second + 1, third) =~= patch);
    assert(text.skip(third + 1) =~= variant);
    assert(text[first] == '.' && text[second] == '.' && text[third] == '-');
    assert forall|place: int|
        0 < place < text.len() && place != first && place != second && place != third implies '0' as int
        <= (#[trigger] text[place]) as int <= '9' as int by {
        if place < first {
            assert(text[place] == major[place - 1]);
        } else if place < second {
            assert(text[place] == minor[place - first - 1]);
        } else if place < third {
            assert(text[place] == patch[place - second - 1]);
        } else {
            assert(text[place] == variant[place - third - 1]);
        }
    }
}

/// A value counts as set unless it is empty, zero, or the word for false in lower case, in upper
/// case or with a capital.
pub proof fn values_count_as_set_unless_false(value: Seq<char>)
    ensures
        counts_as_set(value) <==> !{
            ||| value.len() == 0
            ||| value == seq!['0']
            ||| value.len() == 5 && (value[0] == 'f' || value[0] == 'F') && value.skip(1) == seq![
                'a',
                'l',
                's',
                'e',
            ]
            ||| value == seq!['F', 'A', 'L', 'S', 'E']
        },
{
    reveal_strlit("");
    reveal_strlit("0");
    reveal_strlit("false");
    reveal_strlit("False");
    reveal_strlit("FALSE");
    assert(""@ =~= Seq::<char>::empty());
    assert("0"@ =~= seq!['0']);
    assert("false"@ =~= seq!['f', 'a', 'l', 's', 'e']);
    assert("False"@ =~= seq!['F', 'a', 'l', 's', 'e']);
    assert("FALSE"@ =~= seq!['F', 'A', 'L', 'S', 'E']);
    if value.len() == 0 {
        assert(value =~= Seq::<char>::empty());
    }
    let tail = seq!['a', 'l', 's', 'e'];
    assert("false"@.skip(1) =~= tail && "False"@.skip(1) =~= tail);
    if value.len() == 5 && value.skip(1) == tail {
        assert(value =~= seq![value[0]] + value.skip(1));
        assert("false"@ =~= seq!['f'] + tail && "False"@ =~= seq!['F'] + tail);
    }
}

/// The bit of a severity that is logged at a level. More severe messages have larger ones.
pub open spec fn level_bit(level: LogLevel) -> u32 {
    match level {
        LogLevel::Error => 0x1000,
        LogLevel::Warn => 0x100,
        LogLevel::Info => 0x10,
        LogLevel::Debug => 0x1,
    }
}

/// Whether messages of a level are not logged.
pub open spec fn hidden(level: LogLevel, env: CallbackEnvironment) -> bool {
    match level {
        LogLevel::Error => false,
        LogLevel::Warn => env.ignore_warning,
        LogLevel::Info => env.ignore_info,
        LogLevel::Debug => env.ignore_verbose,
    }
}

/// A message is logged at the most severe level of its own that is not hidden.
pub proof fn messages_are_logged_by_severity(
    severity: u32,
    env: CallbackEnvironment,
    level: LogLevel,
)
    ensures
        log_level(severity, env) == Some(level) <==> {
            &&& severe(severity, level_bit(level))
            &&& !hidden(level, env)
            &&& forall|other: LogLevel|
                #[trigger] level_bit(other) > level_bit(level) && severe(severity, level_bit(other))
                    ==> hidden(other, env)
        },
{
    assert(level_bit(LogLevel::Error) > level_bit(LogLevel::Warn));
    assert(level_bit(LogLevel::Warn) > level_bit(LogLevel::Info));
    assert(level_bit(LogLevel::Info) > level_bit(LogLevel::Debug));
}

/// What is logged of a message is what is recorded of it, unless the message is not all text. The
/// same holds of its name, but for that of the loader's messages, which is recorded only.
pub proof fn logs_say_what_is_recorded(data: CallbackData)
    ensures
        data.message is None ==> logged_text(data.message) == recorded_texts(data).1,
        data.message matches Some(text) ==> {
            &&& recorded_texts(data).1 == text.lossy@
            &&& text.exact matches Some(exact) ==> logged_text(data.message) == exact@
            &&& text.exact is None ==> logged_text(data.message)
                == "<invalid Vulkan validation message>"@
        },
        recorded_texts(data).0 is Some <==> data.message_id_name is Some,
        data.message_id_name is None ==> logged_id(data.message_id_name) is None,
        data.message_id_name matches Some(name) ==> {
            &&& recorded_texts(data).0 == Some(name.lossy@)
            &&& name.exact matches Some(exact) ==> (if exact@ == "Loader Message"@ {
                logged_id(data.message_id_name) is None
            } else {
                logged_id(data.message_id_name) == Some(exact@)
            })
            &&& name.exact is None ==> logged_id(data.message_id_name) is Some
        },
{
    reveal_strlit("Loader Message");
    reveal_strlit("<invalid Vulkan validation message ID name>");
    assert("<invalid Vulkan validation message ID name>"@.len() == 43);
    assert("Loader Message"@.len() == 14);
}

/// A thread is parked where somebody is there to see it, unless that was asked not to be done.
pub proof fn threads_park_for_terminals(env: CallbackEnvironment)
    ensures
        end_after_error(env) == CallbackEnd::Park <==> env.terminal && !env.skip_park,
        end_after_error(env) == CallbackEnd::SkippedByVariable <==> env.skip_park,
        end_after_error(env) != CallbackEnd::Return,
{
}

/// What surfaces are drawn by on a platform.
pub open spec fn window_system(platform: DisplayPlatform) -> Seq<char> {
    match platform {
        DisplayPlatform::Android => "android"@,
        DisplayPlatform::AppKit | DisplayPlatform::UiKit => "metal"@,
        DisplayPlatform::Wayland => "wayland"@,
        DisplayPlatform::Windows => "win32"@,
        DisplayPlatform::Xcb => "xcb"@,
        DisplayPlatform::Xlib => "xlib"@,
        DisplayPlatform::Other => ""@,
    }
}

/// Surfaces can be made on all platforms that are known, by an extension that is named after what
/// they are drawn by.
pub proof fn extensions_are_named_after_platforms(platform: DisplayPlatform)
    ensures
        platform_extension(platform) is Some <==> window_system(platform).len() > 0,
        platform_extension(platform) matches Some(name) ==> {
            &&& name@.take(3) == "VK_"@
            &&& name@.subrange(7, name@.len() - 8) == window_system(platform)
            &&& name@.skip(name@.len() - 8) == "_surface"@
        },
{
    reveal_strlit("VK_KHR_win32_surface");
    reveal_strlit("VK_KHR_wayland_surface");
    reveal_strlit("VK_KHR_xlib_surface");
    reveal_strlit("VK_KHR_xcb_surface");
    reveal_strlit("VK_KHR_android_surface");
    reveal_strlit("VK_EXT_metal_surface");
    reveal_strlit("VK_");
    reveal_strlit("_surface");
    reveal_strlit("android");
    reveal_strlit("metal");
    reveal_strlit("wayland");
    reveal_strlit("win32");
    reveal_strlit("xcb");
    reveal_strlit("xlib");
    reveal_strlit("");
    if let Some(name) = platform_extension(platform) {
        let length = name@.len() as int;
        assert(name@.take(3) =~= "VK_"@);
        assert(name@.subrange(7, length - 8) =~= window_system(platform));
        assert(name@.skip(length - 8) =~= "_surface"@);
    }
}

} // verus!
