use vstd::prelude::*;

verus! {

/// Bit set in a queue family's flag word when the family accepts graphics
/// commands.
pub const QUEUE_GRAPHICS_BIT: u32 = 1;

/// A queue family flag word advertises graphics support when the graphics
/// bit is set.
pub open spec fn supports_graphics(flags: u32) -> bool {
    flags & QUEUE_GRAPHICS_BIT != 0
}

/// At least one of the flag words advertises graphics support.
pub open spec fn has_graphics_family(family_flags: Seq<u32>) -> bool {
    exists|i: int| 0 <= i < family_flags.len() && supports_graphics(family_flags[i])
}

/// The queue family indices the application needs: so far only a
/// graphics-capable family.
pub struct QueueFamilyIndices {
    pub graphics_family: Option<u32>,
}

impl QueueFamilyIndices {
    pub open spec fn spec_is_complete(&self) -> bool {
        self.graphics_family is Some
    }

    /// Every queue family the application needs has been found.
    pub fn is_complete(&self) -> (r: bool)
        ensures
            r == self.spec_is_complete(),
    {
        self.graphics_family.is_some()
    }
}

impl Default for QueueFamilyIndices {
    fn default() -> (r: Self)
        ensures
            r.graphics_family is None,
    {
        QueueFamilyIndices { graphics_family: None }
    }
}

/// Scan one device's queue family flag words and record the first
/// graphics-capable family, if the device has one.
pub fn find_queue_families(family_flags: &Vec<u32>) -> (r: QueueFamilyIndices)
    requires
        family_flags@.len() <= u32::MAX,
    ensures
        r.spec_is_complete() <==> has_graphics_family(family_flags@),
        r.graphics_family matches Some(g) ==> {
            &&& 0 <= g < family_flags@.len()
            &&& supports_graphics(family_flags@[g as int])
            &&& forall|j: int| 0 <= j < g ==> !supports_graphics(family_flags@[j])
        },
{
    let mut indices = QueueFamilyIndices::default();
    let mut index: usize = 0;

    while index < family_flags.len() && indices.graphics_family.is_none()
        invariant
            family_flags@.len() <= u32::MAX,
            index <= family_flags@.len(),
            indices.graphics_family is None ==> forall|j: int|
                0 <= j < index ==> !supports_graphics(family_flags@[j]),
            indices.graphics_family matches Some(g) ==> {
                &&& 0 <= g < index <= family_flags@.len()
                &&& supports_graphics(family_flags@[g as int])
                &&& forall|j: int| 0 <= j < g ==> !supports_graphics(family_flags@[j])
            },
        decreases family_flags@.len() - index,
    {
        if family_flags[index] & QUEUE_GRAPHICS_BIT != 0 {
            indices.graphics_family = Some(index as u32);
        }
        index += 1;
    }

    indices
}

/// A device is suitable when it offers a graphics-capable queue family.
pub fn is_device_suitable(family_flags: &Vec<u32>) -> (r: bool)
    requires
        family_flags@.len() <= u32::MAX,
    ensures
        r == has_graphics_family(family_flags@),
{
    let indices = find_queue_families(family_flags);
    indices.graphics_family.is_some()
}

} // verus!
