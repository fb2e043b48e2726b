//! Names of Vulkan extensions and layers, and how a list of required names
//! is held against the list of names on offer.

use vstd::prelude::*;

verus! {

/// The names in a list, each as its characters.
pub open spec fn names(list: Seq<String>) -> Seq<Seq<char>> {
    list.map_values(|name: String| name@)
}

/// The name of the swapchain device extension.
pub open spec fn swapchain_extension() -> Seq<char> {
    "VK_KHR_swapchain"@
}

/// The name of the debug-utils instance extension.
pub open spec fn debug_utils_extension() -> Seq<char> {
    "VK_EXT_debug_utils"@
}

/// The name of the Khronos validation layer.
pub open spec fn validation_layer() -> Seq<char> {
    "VK_LAYER_KHRONOS_validation"@
}

/// The requirement is met when every required name is among the names on
/// offer, however often a name is listed on either side.
pub open spec fn requirement_met(required: Seq<Seq<char>>, offered: Seq<Seq<char>>) -> bool {
    forall|i: int| 0 <= i < required.len() ==> offered.contains(#[trigger] required[i])
}

/// Nothing is required of any offer by an empty list, and a requirement that
/// is met stays met when more is offered.
pub proof fn lemma_requirement_grows_with_offer(
    required: Seq<Seq<char>>,
    offered: Seq<Seq<char>>,
    more: Seq<Seq<char>>,
)
    ensures
        requirement_met(Seq::empty(), offered),
        requirement_met(required, offered) ==> requirement_met(required, offered + more),
{
    if requirement_met(required, offered) {
        assert forall|i: int| 0 <= i < required.len() implies (offered + more).contains(
            #[trigger] required[i],
        ) by {
            let k = choose|k: int| 0 <= k < offered.len() && offered[k] == required[i];
            assert((offered + more)[k] == required[i]);
        }
    }
}

/// `ash::extensions::khr::Swapchain::name` is the constant C string
/// `VK_KHR_swapchain`; this hands it out as a `String`.
#[verifier::external_body]
pub(crate) fn swapchain_extension_name() -> (name: String)
    ensures
        name@ == swapchain_extension(),
{
    ash::extensions::khr::Swapchain::name().to_string_lossy().into_owned()
}

/// `ash::extensions::ext::DebugUtils::name` is the constant C string
/// `VK_EXT_debug_utils`; this hands it out as a `String`.
#[verifier::external_body]
pub(crate) fn debug_utils_extension_name() -> (name: String)
    ensures
        name@ == debug_utils_extension(),
{
    ash::extensions::ext::DebugUtils::name().to_string_lossy().into_owned()
}

/// Whether `name` is one of `list`.
pub fn contains_name(list: &Vec<String>, name: &String) -> (found: bool)
    ensures
        found == names(list@).contains(name@),
{
    let mut index: usize = 0;
    while index < list.len()
        invariant
            index <= list.len(),
            forall|i: int| 0 <= i < index ==> (#[trigger] names(list@)[i]) != name@,
        decreases list.len() - index,
    {
        if list[index] == *name {
            assert(names(list@)[index as int] == name@);
            return true;
        }
        index += 1;
    }
    false
}

/// Whether the names on offer meet the requirement.
pub fn supports_all(required: &Vec<String>, offered: &Vec<String>) -> (met: bool)
    ensures
        met == requirement_met(names(required@), names(offered@)),
{
    let mut index: usize = 0;
    while index < required.len()
        invariant
            index <= required.len(),
            forall|i: int|
                0 <= i < index ==> names(offered@).contains(#[trigger] names(required@)[i]),
        decreases required.len() - index,
    {
        if !contains_name(offered, &required[index]) {
            assert(names(required@)[index as int] == required@[index as int]@);
            return false;
        }
        assert(names(required@)[index as int] == required@[index as int]@);
        index += 1;
    }
    true
}

} // verus!
