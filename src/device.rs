//! What the engine knows of the chosen device: its memory types and queue
//! families, and the rules that pick a device and a memory type.
use vstd::prelude::*;

use crate::error::EngineError;
use crate::queue::FamilyIndices;

verus! {

/// Memory-property bit: memory local to the device.
pub const DEVICE_LOCAL: u32 = 0x1;
/// Memory-property bit: memory that the host can map.
pub const HOST_VISIBLE: u32 = 0x2;
/// Memory-property bit: host writes need no explicit flush.
pub const HOST_COHERENT: u32 = 0x4;
/// Memory-property bit: host-cached memory.
pub const HOST_CACHED: u32 = 0x8;

/// Number of memory types that a type bitmask can name.
pub const MAX_MEMORY_TYPES: u32 = 32;

/// `have` holds every bit of `required`.
pub open spec fn has_flags(have: u32, required: u32) -> bool {
    have & required == required
}

/// Memory type `i` is allowed by the requirement bitmask `type_filter`.
pub open spec fn type_allowed(type_filter: u32, i: int) -> bool {
    0 <= i < MAX_MEMORY_TYPES && type_filter & (1u32 << (i as u32)) != 0
}

/// Memory type `i` of `types` may back a resource with bitmask `type_filter` that
/// needs the properties `required`.
pub open spec fn type_suitable(types: Seq<u32>, type_filter: u32, required: u32, i: int) -> bool {
    &&& 0 <= i < types.len()
    &&& type_allowed(type_filter, i)
    &&& has_flags(types[i], required)
}

/// The lowest suitable memory type at index `from` or above, if any.
pub open spec fn first_suitable_type(types: Seq<u32>, type_filter: u32, required: u32, from: int) -> Option<
    nat,
>
    decreases types.len() - from,
{
    if from < 0 || from >= types.len() {
        None
    } else if type_suitable(types, type_filter, required, from) {
        Some(from as nat)
    } else {
        first_suitable_type(types, type_filter, required, from + 1)
    }
}

/// The memory type chosen for a resource: the lowest suitable one.
pub open spec fn chosen_memory_type(types: Seq<u32>, type_filter: u32, required: u32) -> Option<nat> {
    first_suitable_type(types, type_filter, required, 0)
}

/// The device the engine renders with, as plain values.
pub struct Device {
    /// Property bits of each memory type, in the device's order.
    pub memory_types: Vec<u32>,
    /// The chosen queue families.
    pub family_indices: FamilyIndices,
}

impl Device {
    /// Selects the lowest-indexed memory type that `type_filter` allows and whose
    /// properties include all of `required_properties`.
    pub fn are_properties_supported(&self, type_filter: u32, required_properties: u32) -> (r: Result<
        u32,
        EngineError,
    >)
        ensures
            match chosen_memory_type(self.memory_types@, type_filter, required_properties) {
                Some(i) => r == Ok::<u32, EngineError>(i as u32),
                None => r == Err::<u32, EngineError>(EngineError::NoSuitableMemoryType),
            },
    {
        let mut i: usize = 0;
        while i < self.memory_types.len()
            invariant
                i <= self.memory_types@.len(),
                chosen_memory_type(self.memory_types@, type_filter, required_properties)
                    == first_suitable_type(self.memory_types@, type_filter, required_properties, i as int),
                forall|j: int| 0 <= j < i ==> !type_suitable(self.memory_types@, type_filter, required_properties, j),
            decreases self.memory_types@.len() - i,
        {
            if i < 32 && type_filter & (1u32 << (i as u32)) != 0
                && self.memory_types[i] & required_properties == required_properties {
                return Ok(i as u32);
            }
            i = i + 1;
        }
        Err(EngineError::NoSuitableMemoryType)
    }

    /// The family that command pools and graphics work use.
    pub fn graphics_family(&self) -> (r: Result<u32, EngineError>)
        ensures
            match self.family_indices.graphics {
                Some(g) => r == Ok::<u32, EngineError>(g),
                None => r == Err::<u32, EngineError>(EngineError::MissingQueueFamily),
            },
    {
        match self.family_indices.graphics {
            Some(g) => Ok(g),
            None => Err(EngineError::MissingQueueFamily),
        }
    }
}

/// Memory-type choice: the chosen type is suitable and no lower-indexed type is;
/// the choice fails only when no type is suitable. Being a function of the type
/// table, the bitmask and the properties alone, the same inputs always give the
/// same index.
pub proof fn lemma_memory_type_choice(types: Seq<u32>, type_filter: u32, required: u32)
    ensures
        match chosen_memory_type(types, type_filter, required) {
            Some(i) => type_suitable(types, type_filter, required, i as int) && forall|j: int|
                0 <= j < i ==> !type_suitable(types, type_filter, required, j),
            None => forall|j: int| !type_suitable(types, type_filter, required, j),
        },
{
    lemma_first_suitable_type(types, type_filter, required, 0);
}

proof fn lemma_first_suitable_type(types: Seq<u32>, type_filter: u32, required: u32, from: int)
    requires
        0 <= from,
    ensures
        match first_suitable_type(types, type_filter, required, from) {
            Some(i) => from <= i && type_suitable(types, type_filter, required, i as int) && forall|j: int|
                from <= j < i ==> !type_suitable(types, type_filter, required, j),
            None => forall|j: int| from <= j ==> !type_suitable(types, type_filter, required, j),
        },
    decreases types.len() - from,
{
    if from < types.len() {
        lemma_first_suitable_type(types, type_filter, required, from + 1);
    }
}

/// `name` is one of the `available` names.
pub open spec fn name_available(available: Seq<String>, name: Seq<char>) -> bool {
    exists|j: int| 0 <= j < available.len() && #[trigger] available[j]@ == name
}

/// The device extension names that the engine needs.
pub struct DeviceExtension {
    pub names: Vec<String>,
}

impl DeviceExtension {
    /// Every needed name is among `available`.
    pub open spec fn spec_supported_by(&self, available: Seq<String>) -> bool {
        forall|i: int| 0 <= i < self.names@.len() ==> #[trigger] name_available(available, self.names@[i]@)
    }

    /// The extensions the engine needs: swapchains.
    pub fn required() -> (r: DeviceExtension)
        ensures
            r.names@.len() == 1,
            r.names@[0]@ == "VK_KHR_swapchain"@,
    {
        let mut names: Vec<String> = Vec::new();
        names.push("VK_KHR_swapchain".to_owned());
        DeviceExtension { names }
    }

    /// Every needed name is among `available`.
    pub fn is_supported_by(&self, available: &Vec<String>) -> (r: bool)
        ensures
            r == self.spec_supported_by(available@),
    {
        let mut i: usize = 0;
        while i < self.names.len()
            invariant
                i <= self.names@.len(),
                forall|k: int| 0 <= k < i ==> #[trigger] name_available(available@, self.names@[k]@),
            decreases self.names@.len() - i,
        {
            let mut found = false;
            let mut j: usize = 0;
            while j < available.len()
                invariant
                    i < self.names@.len(),
                    j <= available@.len(),
                    found ==> name_available(available@, self.names@[i as int]@),
                    !found ==> forall|m: int| 0 <= m < j ==> #[trigger] available@[m]@ != self.names@[i as int]@,
                decreases available@.len() - j,
            {
                if available[j] == self.names[i] {
                    found = true;
                }
                j = j + 1;
            }
            if !found {
                assert(!name_available(available@, self.names@[i as int]@));
                return false;
            }
            i = i + 1;
        }
        true
    }
}

/// What decides whether a physical device can run the engine.
#[derive(Debug, Clone, Copy, PartialEq, Eq, Structural)]
pub struct DeviceSupport {
    /// The queue families found on the device for the surface.
    pub family_indices: FamilyIndices,
    /// The device offers every needed extension.
    pub extensions_supported: bool,
    /// Number of surface formats offered.
    pub format_count: usize,
    /// Number of present modes offered.
    pub present_mode_count: usize,
    /// The device supports anisotropic sampling.
    pub sampler_anisotropy: bool,
}

impl DeviceSupport {
    /// Both queue families exist, the extensions are there, the swapchain has a
    /// format and a present mode, and anisotropic sampling is supported.
    pub open spec fn spec_suitable(self) -> bool {
        &&& self.family_indices.graphics is Some
        &&& self.family_indices.present is Some
        &&& self.extensions_supported
        &&& self.format_count > 0
        &&& self.present_mode_count > 0
        &&& self.sampler_anisotropy
    }

    /// Whether the device can run the engine.
    pub fn is_suitable(&self) -> (r: bool)
        ensures
            r == self.spec_suitable(),
    {
        let swapchain_supported = self.extensions_supported && self.format_count > 0
            && self.present_mode_count > 0;
        self.family_indices.is_available() && self.extensions_supported && swapchain_supported
            && self.sampler_anisotropy
    }
}

impl Device {
    /// Whether a device offering the extensions `available` has every one of
    /// `device_extensions`.
    pub fn check_device_extension_support(
        available: &Vec<String>,
        device_extensions: &DeviceExtension,
    ) -> (r: bool)
        ensures
            r == device_extensions.spec_supported_by(available@),
    {
        device_extensions.is_supported_by(available)
    }

    /// Picks the first suitable device among `candidates`, by its position.
    pub fn pick_physical_device(candidates: &Vec<DeviceSupport>) -> (r: Result<usize, EngineError>)
        ensures
            match r {
                Ok(i) => i < candidates@.len() && candidates@[i as int].spec_suitable() && forall|j: int|
                    0 <= j < i ==> !(#[trigger] candidates@[j]).spec_suitable(),
                Err(e) => e == EngineError::NoSuitableDevice && forall|j: int|
                    0 <= j < candidates@.len() ==> !(#[trigger] candidates@[j]).spec_suitable(),
            },
    {
        let mut i: usize = 0;
        while i < candidates.len()
            invariant
                i <= candidates@.len(),
                forall|j: int| 0 <= j < i ==> !(#[trigger] candidates@[j]).spec_suitable(),
            decreases candidates@.len() - i,
        {
            if candidates[i].is_suitable() {
                return Ok(i);
            }
            i = i + 1;
        }
        Err(EngineError::NoSuitableDevice)
    }
}

} // verus!
