//! What an instance is created with, and the rules that decide it.

use vstd::prelude::*;
use vstd::slice::slice_to_vec;
use crate::error::BootstrapError;
use crate::name::{
    ascii, contains_name, copy_names, physical_device_properties2_extension,
    physical_device_properties2_name, portability_enumeration_extension,
    portability_enumeration_name, validation_layer, validation_layer_name, ExtensionName,
};
use crate::version::{packed_version, portability_threshold, Version};

verus! {

/// The word of instance-creation flags with the portability-enumeration bit
/// set and no other.
pub const ENUMERATE_PORTABILITY: u32 = 1;

/// `vulkanalia::vk::InstanceCreateFlags::ENUMERATE_PORTABILITY_KHR` is the
/// flag whose only bit is the lowest; `bits` gives a flag set as a word.
#[verifier::external_body]
fn enumerate_portability_bits() -> (bits: u32)
    ensures
        bits == ENUMERATE_PORTABILITY,
{
    vulkanalia::vk::InstanceCreateFlags::ENUMERATE_PORTABILITY_KHR.bits()
}

/// `vulkanalia::vk::InstanceCreateFlags::empty` is the flag set with no bit
/// set; `bits` gives a flag set as a word.
#[verifier::external_body]
fn no_flag_bits() -> (bits: u32)
    ensures
        bits == 0,
{
    vulkanalia::vk::InstanceCreateFlags::empty().bits()
}

/// The bytes of an ASCII text followed by the zero byte that ends a C string.
pub open spec fn c_string(text: Seq<char>) -> Seq<u8> {
    ascii(text).push(0)
}

fn c_string_of(text: &str) -> (bytes: Vec<u8>)
    requires
        text.is_ascii(),
    ensures
        bytes@ == c_string(text@),
{
    proof {
        vstd::string::is_ascii_spec_bytes(text);
    }
    let mut bytes = slice_to_vec(text.as_bytes());
    bytes.push(0);
    bytes
}

/// What an application tells the driver about itself. The names are C
/// strings: they end with a zero byte.
#[derive(Debug, PartialEq, Eq)]
pub struct ApplicationMetadata {
    pub application_name: Vec<u8>,
    pub application_version: u32,
    pub engine_name: Vec<u8>,
    pub engine_version: u32,
    pub api_version: u32,
}

/// The mathematical content of an `ApplicationMetadata`.
pub struct MetadataView {
    pub application_name: Seq<u8>,
    pub application_version: u32,
    pub engine_name: Seq<u8>,
    pub engine_version: u32,
    pub api_version: u32,
}

impl View for ApplicationMetadata {
    type V = MetadataView;

    open spec fn view(&self) -> MetadataView {
        MetadataView {
            application_name: self.application_name@,
            application_version: self.application_version,
            engine_name: self.engine_name@,
            engine_version: self.engine_version,
            api_version: self.api_version,
        }
    }
}

/// Version 0.1.0 as one word.
pub const STANDARD_VERSION: u32 = 4096;

/// The metadata that every instance of this application is created with:
/// fixed names, and version 0.1.0 for the application, the engine and the
/// interface alike.
pub open spec fn standard_metadata() -> MetadataView {
    MetadataView {
        application_name: c_string("uwu"@),
        application_version: STANDARD_VERSION,
        engine_name: c_string("no engine"@),
        engine_version: STANDARD_VERSION,
        api_version: STANDARD_VERSION,
    }
}

/// Version 0.1.0 packs to the standard version word.
pub proof fn lemma_standard_version()
    ensures
        packed_version(0, 1, 0) == STANDARD_VERSION,
{
    assert((0u32 << 22u32) | (1u32 << 12u32) | 0u32 == 4096u32) by (bit_vector);
}

impl ApplicationMetadata {
    /// The metadata that every instance of this application is created with.
    pub fn standard() -> (metadata: ApplicationMetadata)
        ensures
            metadata@ == standard_metadata(),
    {
        proof {
            reveal_strlit("uwu");
            reveal_strlit("no engine");
            lemma_standard_version();
        }
        let version: u32 = Version::new(0, 1, 0).packed();
        ApplicationMetadata {
            application_name: c_string_of("uwu"),
            application_version: version,
            engine_name: c_string_of("no engine"),
            engine_version: version,
            api_version: version,
        }
    }
}

/// Everything that instance creation is given.
#[derive(Debug, PartialEq, Eq)]
pub struct InstanceRequest {
    pub application: ApplicationMetadata,
    pub extensions: Vec<ExtensionName>,
    pub layers: Vec<ExtensionName>,
    pub flags: u32,
}

/// The mathematical content of an `InstanceRequest`.
pub struct RequestView {
    pub application: MetadataView,
    pub extensions: Seq<Seq<u8>>,
    pub layers: Seq<Seq<u8>>,
    pub flags: u32,
}

impl View for InstanceRequest {
    type V = RequestView;

    open spec fn view(&self) -> RequestView {
        RequestView {
            application: self.application@,
            extensions: self.extensions.deep_view(),
            layers: self.layers.deep_view(),
            flags: self.flags,
        }
    }
}

/// Whether portability enumeration is switched on: only on a platform that
/// needs it, and only with a loader that is recent enough to know it.
pub open spec fn portability_applies(portability_platform: bool, loader: Version) -> bool {
    portability_platform && loader.spec_at_least(portability_threshold())
}

/// The request for a window system that needs the extensions `required`.
/// With `portability`, the two portability extensions follow them and the
/// portability flag is set; without it the extensions are `required` and no
/// flag is set. With `diagnostics` the validation layer is the one layer;
/// without it there is none.
pub open spec fn planned_request(
    required: Seq<Seq<u8>>,
    portability: bool,
    diagnostics: bool,
) -> RequestView {
    RequestView {
        application: standard_metadata(),
        extensions: if portability {
            required.push(physical_device_properties2_name()).push(portability_enumeration_name())
        } else {
            required
        },
        layers: if diagnostics {
            seq![validation_layer_name()]
        } else {
            Seq::empty()
        },
        flags: if portability {
            ENUMERATE_PORTABILITY
        } else {
            0
        },
    }
}

/// The outcome of planning against the layers that are installed: with
/// `diagnostics` and without the validation layer among `available` there is
/// no request.
pub open spec fn planned(
    required: Seq<Seq<u8>>,
    portability: bool,
    diagnostics: bool,
    available: Seq<Seq<u8>>,
) -> Result<RequestView, BootstrapError> {
    if diagnostics && !available.contains(validation_layer_name()) {
        Err(BootstrapError::MissingValidationLayer)
    } else {
        Ok(planned_request(required, portability, diagnostics))
    }
}

/// The mathematical content of an outcome of planning.
pub open spec fn outcome_view(outcome: Result<InstanceRequest, BootstrapError>) -> Result<
    RequestView,
    BootstrapError,
> {
    match outcome {
        Ok(request) => Ok(request@),
        Err(error) => Err(error),
    }
}

impl InstanceRequest {
    /// Whether portability enumeration is switched on for a loader of this
    /// version.
    pub fn portability(portability_platform: bool, loader: Version) -> (applies: bool)
        ensures
            applies == portability_applies(portability_platform, loader),
    {
        portability_platform && loader.at_least(Version::new(1, 3, 216))
    }

    /// Plans the request for a window system that needs `required`, or finds
    /// that the validation layer is wanted and missing from `available`.
    pub fn plan(
        required: &Vec<ExtensionName>,
        portability: bool,
        diagnostics: bool,
        available: &Vec<ExtensionName>,
    ) -> (outcome: Result<InstanceRequest, BootstrapError>)
        ensures
            outcome_view(outcome) == planned(
                required.deep_view(),
                portability,
                diagnostics,
                available.deep_view(),
            ),
    {
        let application = ApplicationMetadata::standard();
        let mut extensions = copy_names(required);
        let flags: u32 = if portability {
            extensions.push(physical_device_properties2_extension());
            extensions.push(portability_enumeration_extension());
            enumerate_portability_bits()
        } else {
            no_flag_bits()
        };
        let validation = validation_layer();
        if diagnostics && !contains_name(available, &validation) {
            return Err(BootstrapError::MissingValidationLayer);
        }
        let mut layers: Vec<ExtensionName> = Vec::new();
        if diagnostics {
            layers.push(validation);
        }
        let request = InstanceRequest { application, extensions, layers, flags };
        proof {
            let expected = planned_request(required.deep_view(), portability, diagnostics);
            assert(request.extensions.deep_view() =~= expected.extensions);
            assert(request.layers.deep_view() =~= expected.layers);
        }
        Ok(request)
    }
}

} // verus!
