//! Names of Vulkan extensions and layers.

use vstd::prelude::*;
use vstd::slice::slice_to_vec;

verus! {

/// The longest name that fits a Vulkan name array, whose last byte is kept
/// for the terminator.
pub const MAX_NAME_LEN: usize = 255;

/// Whether `name` can stand in a Vulkan name array: short enough, and free of
/// the terminating zero byte.
pub open spec fn is_name(name: Seq<u8>) -> bool {
    &&& name.len() <= MAX_NAME_LEN
    &&& forall|i: int| 0 <= i < name.len() ==> name[i] != 0
}

/// Whether `name` is what a Vulkan name array keeps of `bytes`: the bytes
/// before the first zero byte, and no more of them than the array has room
/// for.
pub open spec fn is_name_of(name: Seq<u8>, bytes: Seq<u8>) -> bool {
    &&& is_name(name)
    &&& name.len() <= bytes.len()
    &&& name == bytes.subrange(0, name.len() as int)
    &&& (name.len() == bytes.len() || name.len() == MAX_NAME_LEN || bytes[name.len() as int] == 0)
}

/// The bytes of a text made of ASCII characters.
pub open spec fn ascii(text: Seq<char>) -> Seq<u8> {
    Seq::new(text.len(), |i: int| text[i] as u8)
}

/// A byte string keeps exactly one name.
pub proof fn lemma_name_of_unique(first: Seq<u8>, second: Seq<u8>, bytes: Seq<u8>)
    requires
        is_name_of(first, bytes),
        is_name_of(second, bytes),
    ensures
        first == second,
{
    if first.len() < second.len() {
        assert(second[first.len() as int] == bytes[first.len() as int]);
    } else if second.len() < first.len() {
        assert(first[second.len() as int] == bytes[second.len() as int]);
    }
}

/// A byte string that is a name already is kept whole.
pub proof fn lemma_name_of_name(name: Seq<u8>, bytes: Seq<u8>)
    requires
        is_name(bytes),
        is_name_of(name, bytes),
    ensures
        name == bytes,
{
    assert(is_name_of(bytes, bytes)) by {
        assert(bytes == bytes.subrange(0, bytes.len() as int));
    }
    lemma_name_of_unique(name, bytes, bytes);
}

/// `vulkanalia::vk::ExtensionName::from_bytes` copies `bytes` into a name
/// array of 256 bytes up to the first zero byte or until 255 bytes are copied,
/// whichever comes first; `as_cstr` and `to_bytes` then give the copied bytes
/// back without the terminator.
#[verifier::external_body]
fn kept_name(bytes: &[u8]) -> (name: Vec<u8>)
    ensures
        is_name_of(name@, bytes@),
{
    vulkanalia::vk::ExtensionName::from_bytes(bytes).as_cstr().to_bytes().to_vec()
}

/// The name of an extension or of a layer.
#[derive(Debug, PartialEq, Eq)]
pub struct ExtensionName {
    bytes: Vec<u8>,
}

impl View for ExtensionName {
    type V = Seq<u8>;

    closed spec fn view(&self) -> Seq<u8> {
        self.bytes@
    }
}

impl DeepView for ExtensionName {
    type V = Seq<u8>;

    open spec fn deep_view(&self) -> Seq<u8> {
        self@
    }
}

impl Clone for ExtensionName {
    fn clone(&self) -> (copy: ExtensionName)
        ensures
            copy@ == self@,
    {
        proof {
            use_type_invariant(self);
        }
        ExtensionName { bytes: slice_to_vec(self.bytes.as_slice()) }
    }
}

impl ExtensionName {
    #[verifier::type_invariant]
    spec fn well_formed(self) -> bool {
        is_name(self.bytes@)
    }

    /// The name that a Vulkan name array keeps of `bytes`.
    pub fn from_bytes(bytes: &[u8]) -> (name: ExtensionName)
        ensures
            is_name_of(name@, bytes@),
    {
        ExtensionName { bytes: kept_name(bytes) }
    }

    /// The bytes of the name, without a terminator.
    pub fn as_bytes(&self) -> (bytes: &Vec<u8>)
        ensures
            bytes@ == self@,
            is_name(self@),
    {
        proof {
            use_type_invariant(self);
        }
        &self.bytes
    }

    /// Whether two names are the same.
    pub fn same(&self, other: &ExtensionName) -> (same: bool)
        ensures
            same == (self@ == other@),
    {
        let same = self.bytes == other.bytes;
        proof {
            if same {
                assert(self.bytes@ =~= other.bytes@);
            }
        }
        same
    }
}

/// The name of the standard validation layer.
pub open spec fn validation_layer_name() -> Seq<u8> {
    ascii("VK_LAYER_KHRONOS_validation"@)
}

/// The name of the extension that queries extended device properties, which
/// portability enumeration builds on.
pub open spec fn physical_device_properties2_name() -> Seq<u8> {
    ascii("VK_KHR_get_physical_device_properties2"@)
}

/// The name of the extension that lets an instance enumerate portability
/// devices.
pub open spec fn portability_enumeration_name() -> Seq<u8> {
    ascii("VK_KHR_portability_enumeration"@)
}

/// `vulkanalia::vk::KHR_GET_PHYSICAL_DEVICE_PROPERTIES2_EXTENSION` is a
/// constant whose `name` is built from the bytes of
/// `VK_KHR_get_physical_device_properties2`; `as_cstr` and `to_bytes` give
/// these bytes back without the terminator.
#[verifier::external_body]
fn physical_device_properties2_bytes() -> (bytes: Vec<u8>)
    ensures
        bytes@ == physical_device_properties2_name(),
{
    vulkanalia::vk::KHR_GET_PHYSICAL_DEVICE_PROPERTIES2_EXTENSION.name.as_cstr().to_bytes().to_vec()
}

/// `vulkanalia::vk::KHR_PORTABILITY_ENUMERATION_EXTENSION` is a constant whose
/// `name` is built from the bytes of `VK_KHR_portability_enumeration`;
/// `as_cstr` and `to_bytes` give these bytes back without the terminator.
#[verifier::external_body]
fn portability_enumeration_bytes() -> (bytes: Vec<u8>)
    ensures
        bytes@ == portability_enumeration_name(),
{
    vulkanalia::vk::KHR_PORTABILITY_ENUMERATION_EXTENSION.name.as_cstr().to_bytes().to_vec()
}

/// The standard validation layer.
pub fn validation_layer() -> (name: ExtensionName)
    ensures
        name@ == validation_layer_name(),
{
    let text = "VK_LAYER_KHRONOS_validation";
    proof {
        reveal_strlit("VK_LAYER_KHRONOS_validation");
    }
    let bytes = text.as_bytes();
    let name = ExtensionName::from_bytes(bytes);
    proof {
        assert(vstd::string::is_ascii(text));
        vstd::string::is_ascii_spec_bytes(text);
        assert(bytes@ =~= validation_layer_name());
        assert(is_name(bytes@));
        lemma_name_of_name(name@, bytes@);
    }
    name
}

/// The extension that queries extended device properties.
pub fn physical_device_properties2_extension() -> (name: ExtensionName)
    ensures
        name@ == physical_device_properties2_name(),
{
    let bytes = physical_device_properties2_bytes();
    proof {
        reveal_strlit("VK_KHR_get_physical_device_properties2");
        assert(is_name(bytes@));
    }
    ExtensionName { bytes }
}

/// The extension that lets an instance enumerate portability devices.
pub fn portability_enumeration_extension() -> (name: ExtensionName)
    ensures
        name@ == portability_enumeration_name(),
{
    let bytes = portability_enumeration_bytes();
    proof {
        reveal_strlit("VK_KHR_portability_enumeration");
        assert(is_name(bytes@));
    }
    ExtensionName { bytes }
}

/// Whether `name` is among `names`.
pub fn contains_name(names: &Vec<ExtensionName>, name: &ExtensionName) -> (found: bool)
    ensures
        found == names.deep_view().contains(name@),
{
    let mut index: usize = 0;
    while index < names.len()
        invariant
            index <= names.len(),
            forall|i: int| 0 <= i < index ==> names.deep_view()[i] != name@,
        decreases names.len() - index,
    {
        if names[index].same(name) {
            assert(names.deep_view()[index as int] == name@);
            return true;
        }
        index += 1;
    }
    false
}

/// A copy of `names`, name by name.
pub fn copy_names(names: &Vec<ExtensionName>) -> (copy: Vec<ExtensionName>)
    ensures
        copy.deep_view() == names.deep_view(),
{
    let mut copy: Vec<ExtensionName> = Vec::new();
    let mut index: usize = 0;
    while index < names.len()
        invariant
            index <= names.len(),
            copy.len() == index,
            forall|i: int| 0 <= i < index ==> copy.deep_view()[i] == names.deep_view()[i],
        decreases names.len() - index,
    {
        copy.push(names[index].clone());
        index += 1;
    }
    assert(copy.deep_view() =~= names.deep_view());
    copy
}

} // verus!
