//! Choosing the physical device and the queue families to draw, copy and
//! present with.
use vstd::prelude::*;
use crate::renderer::vulkan::error::RendererError;
use crate::renderer::vulkan::flags::{queue_flags_contain, contains_all, QUEUE_GRAPHICS, QUEUE_TRANSFER};

verus! {

/// `VK_PHYSICAL_DEVICE_TYPE_DISCRETE_GPU`.
pub const DEVICE_TYPE_DISCRETE_GPU: i32 = 2;

/// What a device reports about one queue family, and whether that family
/// can present to the surface.
#[derive(Clone, Copy, Debug, PartialEq, Eq, Structural)]
pub struct QueueFamily {
    pub queue_flags: u32,
    pub present_support: bool,
}

/// What the instance reports about one physical device.
#[derive(Clone, Debug, PartialEq, Eq)]
pub struct PhysicalDevice {
    pub device_type: i32,
    pub queue_families: Vec<QueueFamily>,
}

/// A kind of work a queue family may be asked to do.
#[derive(Clone, Copy, Debug, PartialEq, Eq, Structural)]
pub enum Work {
    Graphics,
    Transfer,
    Present,
}

/// The device chosen and the family picked for each kind of work.
#[derive(Clone, Debug, PartialEq, Eq)]
pub struct VKDevice {
    /// Position of the chosen device among those enumerated.
    pub physical_device: usize,
    pub graphics_queue: u32,
    pub presentation_queue: u32,
    pub transfer_queue: u32,
    /// The families to create one queue from each, without repeats.
    pub queue_families: Vec<u32>,
}

impl QueueFamily {
    /// The family can do this kind of work.
    pub open spec fn can(&self, work: Work) -> bool {
        match work {
            Work::Graphics => contains_all(self.queue_flags, QUEUE_GRAPHICS),
            Work::Transfer => contains_all(self.queue_flags, QUEUE_TRANSFER),
            Work::Present => self.present_support,
        }
    }

    /// The family can do `work` and is free of `other`.
    pub open spec fn dedicated(&self, work: Work, other: Work) -> bool {
        self.can(work) && !self.can(other)
    }

    /// The family can draw and present.
    pub open spec fn draws_and_presents(&self) -> bool {
        self.can(Work::Graphics) && self.can(Work::Present)
    }

    fn supports(&self, work: Work) -> (yes: bool)
        ensures
            yes == self.can(work),
    {
        match work {
            Work::Graphics => queue_flags_contain(self.queue_flags, QUEUE_GRAPHICS),
            Work::Transfer => queue_flags_contain(self.queue_flags, QUEUE_TRANSFER),
            Work::Present => self.present_support,
        }
    }
}

/// The kind of work a family should be free of to count as dedicated:
/// graphics families should not copy, the others should not draw.
pub open spec fn rival(work: Work) -> Work {
    match work {
        Work::Graphics => Work::Transfer,
        Work::Transfer => Work::Graphics,
        Work::Present => Work::Graphics,
    }
}

/// `choice` is the family picked for `work`: the last dedicated family if
/// there is one, else the first capable family, else nothing.
pub open spec fn is_family_for(families: Seq<QueueFamily>, work: Work, choice: Option<u32>) -> bool {
    let other = rival(work);
    match choice {
        Some(index) => {
            &&& index < families.len()
            &&& families[index as int].can(work)
            &&& if families[index as int].can(other) {
                &&& forall|j: int| 0 <= j < families.len() ==> !families[j].dedicated(work, other)
                &&& forall|j: int| 0 <= j < index ==> !families[j].can(work)
            } else {
                forall|j: int| index < j < families.len() ==> !families[j].dedicated(work, other)
            }
        },
        None => forall|j: int| 0 <= j < families.len() ==> !families[j].can(work),
    }
}

/// The family picked for `work`, if any family can do it.
pub open spec fn family_for(families: Seq<QueueFamily>, work: Work) -> Option<u32> {
    choose|choice: Option<u32>| is_family_for(families, work, choice)
}

/// The rule picks one family at most: two choices that both satisfy it
/// are the same choice.
pub proof fn lemma_family_unique(
    families: Seq<QueueFamily>,
    work: Work,
    a: Option<u32>,
    b: Option<u32>,
)
    requires
        is_family_for(families, work, a),
        is_family_for(families, work, b),
    ensures
        a == b,
        family_for(families, work) == a,
{
    lemma_family_same(families, work, a, b);
    lemma_family_same(families, work, a, family_for(families, work));
}

proof fn lemma_family_same(families: Seq<QueueFamily>, work: Work, a: Option<u32>, b: Option<u32>)
    requires
        is_family_for(families, work, a),
        is_family_for(families, work, b),
    ensures
        a == b,
{
    match (a, b) {
        (Some(x), Some(y)) => {
            let other = rival(work);
            if x < y {
                assert(families[x as int].can(work));
                assert(families[y as int].dedicated(work, other) || families[y as int].can(other));
            } else if y < x {
                assert(families[y as int].can(work));
                assert(families[x as int].dedicated(work, other) || families[x as int].can(other));
            }
        },
        (Some(x), None) => {
            assert(families[x as int].can(work));
        },
        (None, Some(y)) => {
            assert(families[y as int].can(work));
        },
        (None, None) => {},
    }
}

/// The rule always picks: for every list some choice satisfies it.
proof fn lemma_family_exists(families: Seq<QueueFamily>, work: Work) -> (choice: Option<u32>)
    requires
        families.len() <= u32::MAX,
    ensures
        is_family_for(families, work, choice),
    decreases families.len(),
{
    if families.len() == 0 {
        None
    } else {
        let earlier = lemma_family_exists(families.drop_last(), work);
        let last = families.len() - 1;
        assert(forall|j: int| 0 <= j < last ==> families.drop_last()[j] == families[j]);
        if families[last].can(work) && (earlier is None || !families[last].can(rival(work))) {
            Some(last as u32)
        } else {
            earlier
        }
    }
}

/// The family picked for a kind of work obeys the rule: it is the last
/// dedicated family if there is one, else the first capable one, and
/// there is none only if no family is capable. A family that is picked
/// is one of the list and can do the work.
pub proof fn lemma_family_for_obeys_rule(families: Seq<QueueFamily>, work: Work)
    requires
        families.len() <= u32::MAX,
    ensures
        is_family_for(families, work, family_for(families, work)),
        family_for(families, work) matches Some(index) ==> index < families.len()
            && families[index as int].can(work),
{
    let witness = lemma_family_exists(families, work);
    lemma_family_unique(families, work, witness, witness);
}

/// A list with a capable family always yields a choice.
pub proof fn lemma_capable_family_is_chosen(families: Seq<QueueFamily>, work: Work, capable: int)
    requires
        0 <= capable < families.len(),
        families[capable].can(work),
    ensures
        !is_family_for(families, work, None),
{
}

impl PhysicalDevice {
    /// Some family of the device can draw and present.
    pub open spec fn suitable(&self) -> bool {
        exists|j: int|
            0 <= j < self.queue_families@.len() && self.queue_families@[j].draws_and_presents()
    }

    /// The device is a discrete GPU.
    pub open spec fn discrete(&self) -> bool {
        self.device_type == DEVICE_TYPE_DISCRETE_GPU
    }

    fn is_suitable(&self) -> (yes: bool)
        ensures
            yes == self.suitable(),
    {
        let mut j: usize = 0;
        while j < self.queue_families.len()
            invariant
                j <= self.queue_families@.len(),
                forall|k: int| 0 <= k < j ==> !self.queue_families@[k].draws_and_presents(),
            decreases self.queue_families@.len() - j,
        {
            let family = &self.queue_families[j];
            if family.supports(Work::Present) && family.supports(Work::Graphics) {
                return true;
            }
            j += 1;
        }
        false
    }
}

/// `choice` is the preferred device: the last suitable discrete GPU if
/// there is one, else the first suitable device, else nothing.
pub open spec fn is_preferred_device(devices: Seq<PhysicalDevice>, choice: Option<usize>) -> bool {
    match choice {
        Some(index) => {
            &&& index < devices.len()
            &&& devices[index as int].suitable()
            &&& if devices[index as int].discrete() {
                forall|j: int|
                    index < j < devices.len() ==> !(devices[j].suitable() && devices[j].discrete())
            } else {
                &&& forall|j: int|
                    0 <= j < devices.len() ==> !(devices[j].suitable() && devices[j].discrete())
                &&& forall|j: int| 0 <= j < index ==> !devices[j].suitable()
            }
        },
        None => forall|j: int| 0 <= j < devices.len() ==> !devices[j].suitable(),
    }
}

/// The preferred device, if any device is suitable.
pub open spec fn preferred_device(devices: Seq<PhysicalDevice>) -> Option<usize> {
    choose|choice: Option<usize>| is_preferred_device(devices, choice)
}

/// The rule prefers one device at most: two choices that both satisfy it
/// are the same choice.
pub proof fn lemma_device_unique(devices: Seq<PhysicalDevice>, a: Option<usize>, b: Option<usize>)
    requires
        is_preferred_device(devices, a),
        is_preferred_device(devices, b),
    ensures
        a == b,
        preferred_device(devices) == a,
{
    lemma_device_same(devices, a, b);
    lemma_device_same(devices, a, preferred_device(devices));
}

proof fn lemma_device_same(devices: Seq<PhysicalDevice>, a: Option<usize>, b: Option<usize>)
    requires
        is_preferred_device(devices, a),
        is_preferred_device(devices, b),
    ensures
        a == b,
{
    match (a, b) {
        (Some(x), Some(y)) => {
            if x < y {
                assert(devices[x as int].suitable());
                assert(devices[y as int].suitable());
            } else if y < x {
                assert(devices[x as int].suitable());
                assert(devices[y as int].suitable());
            }
        },
        (Some(x), None) => {
            assert(devices[x as int].suitable());
        },
        (None, Some(y)) => {
            assert(devices[y as int].suitable());
        },
        (None, None) => {},
    }
}

/// The rule always prefers: for every list some choice satisfies it.
proof fn lemma_device_exists(devices: Seq<PhysicalDevice>) -> (choice: Option<usize>)
    requires
        devices.len() <= usize::MAX,
    ensures
        is_preferred_device(devices, choice),
    decreases devices.len(),
{
    if devices.len() == 0 {
        None
    } else {
        let earlier = lemma_device_exists(devices.drop_last());
        let last = devices.len() - 1;
        assert(forall|j: int| 0 <= j < last ==> devices.drop_last()[j] == devices[j]);
        if devices[last].suitable() && (earlier is None || devices[last].discrete()) {
            Some(last as usize)
        } else {
            earlier
        }
    }
}

/// The preferred device obeys the rule: it is the last suitable discrete
/// GPU if there is one, else the first suitable device, and there is
/// none only if no device is suitable. A device that is preferred is one
/// of the list and has a family that draws and presents.
pub proof fn lemma_preferred_device_obeys_rule(devices: Seq<PhysicalDevice>)
    requires
        devices.len() <= usize::MAX,
    ensures
        is_preferred_device(devices, preferred_device(devices)),
        preferred_device(devices) matches Some(index) ==> index < devices.len()
            && devices[index as int].suitable(),
{
    let witness = lemma_device_exists(devices);
    lemma_device_unique(devices, witness, witness);
}

/// What is selected obeys both rules. The device selected is the
/// preferred one, and each family selected is the one the rule picks on
/// that device: it exists there and can do its work. Selection fails for
/// want of a device exactly when no device is suitable, and for want of
/// a family exactly when the preferred device has no family that copies.
pub proof fn lemma_selection_obeys_rules(devices: Seq<PhysicalDevice>)
    requires
        devices.len() <= usize::MAX,
    ensures
        match selection(devices) {
            Ok((index, graphics, transfer, present)) => {
                let families = devices[index as int].queue_families@;
                &&& is_preferred_device(devices, Some(index))
                &&& is_family_for(families, Work::Graphics, Some(graphics))
                &&& is_family_for(families, Work::Transfer, Some(transfer))
                &&& is_family_for(families, Work::Present, Some(present))
                &&& graphics < families.len() && families[graphics as int].can(Work::Graphics)
                &&& transfer < families.len() && families[transfer as int].can(Work::Transfer)
                &&& present < families.len() && families[present as int].can(Work::Present)
            },
            Err(error) => {
                &&& error == RendererError::NoSuitableDevice <==> is_preferred_device(devices, None)
                &&& error == RendererError::NoSuitableQueueFamily ==> exists|index: usize|
                    #![trigger devices[index as int]]
                    is_preferred_device(devices, Some(index)) && is_family_for(
                        devices[index as int].queue_families@,
                        Work::Transfer,
                        None,
                    )
            },
        },
{
    lemma_preferred_device_obeys_rule(devices);
    match preferred_device(devices) {
        None => {},
        Some(index) => {
            let families = devices[index as int].queue_families@;
            if families.len() <= u32::MAX {
                lemma_family_for_obeys_rule(families, Work::Graphics);
                lemma_family_for_obeys_rule(families, Work::Transfer);
                lemma_family_for_obeys_rule(families, Work::Present);
                lemma_suitable_device_draws_and_presents(
                    devices,
                    index,
                    family_for(families, Work::Graphics),
                    family_for(families, Work::Present),
                );
            }
        },
    }
}

/// What choosing from `devices` comes to: the device and the three
/// families, or the reason there is none.
pub open spec fn selection(devices: Seq<PhysicalDevice>) -> Result<(usize, u32, u32, u32), RendererError> {
    match preferred_device(devices) {
        None => Err(RendererError::NoSuitableDevice),
        Some(index) => {
            let families = devices[index as int].queue_families@;
            if families.len() > u32::MAX {
                Err(RendererError::TooLarge)
            } else {
                match (
                    family_for(families, Work::Graphics),
                    family_for(families, Work::Transfer),
                    family_for(families, Work::Present),
                ) {
                    (Some(graphics), Some(transfer), Some(present)) => Ok(
                        (index, graphics, transfer, present),
                    ),
                    _ => Err(RendererError::NoSuitableQueueFamily),
                }
            }
        },
    }
}

/// On a suitable device the graphics and the present family are always
/// found: choosing can only fail for want of a family that copies.
pub proof fn lemma_suitable_device_draws_and_presents(
    devices: Seq<PhysicalDevice>,
    index: usize,
    graphics: Option<u32>,
    present: Option<u32>,
)
    requires
        is_preferred_device(devices, Some(index)),
        is_family_for(devices[index as int].queue_families@, Work::Graphics, graphics),
        is_family_for(devices[index as int].queue_families@, Work::Present, present),
    ensures
        graphics is Some,
        present is Some,
{
    let families = devices[index as int].queue_families@;
    let both = choose|j: int| 0 <= j < families.len() && families[j].draws_and_presents();
    lemma_capable_family_is_chosen(families, Work::Graphics, both);
    lemma_capable_family_is_chosen(families, Work::Present, both);
}

/// The families to create queues from: graphics first, then transfer and
/// present where they differ from what is already listed.
pub open spec fn distinct_families(graphics: u32, transfer: u32, present: u32) -> Seq<u32> {
    let first = seq![graphics];
    let second = if transfer == graphics {
        first
    } else {
        first.push(transfer)
    };
    if present == graphics || present == transfer {
        second
    } else {
        second.push(present)
    }
}

impl VKDevice {
    /// Chooses the device and its queue families from what was enumerated.
    ///
    /// Fails with `NoSuitableDevice` when no device has a family that draws
    /// and presents, with `TooLarge` when the chosen device lists more
    /// families than a 32-bit index can name, and with
    /// `NoSuitableQueueFamily` when it has no family that copies.
    pub fn new(physical_devices: &Vec<PhysicalDevice>) -> (made: Result<Self, RendererError>)
        ensures
            match selection(physical_devices@) {
                Ok((index, graphics, transfer, present)) => {
                    let families = physical_devices@[index as int].queue_families@;
                    &&& made matches Ok(device)
                    &&& is_preferred_device(physical_devices@, Some(index))
                    &&& is_family_for(families, Work::Graphics, Some(graphics))
                    &&& is_family_for(families, Work::Transfer, Some(transfer))
                    &&& is_family_for(families, Work::Present, Some(present))
                    &&& device.physical_device == index
                    &&& device.graphics_queue == graphics
                    &&& device.transfer_queue == transfer
                    &&& device.presentation_queue == present
                    &&& device.queue_families@ == distinct_families(graphics, transfer, present)
                },
                Err(error) => made == Err::<Self, RendererError>(error),
            },
    {
        let physical_device = match Self::choose_physical_device(physical_devices) {
            Some(index) => index,
            None => {
                return Err(RendererError::NoSuitableDevice);
            },
        };
        let families = &physical_devices[physical_device].queue_families;
        if families.len() > u32::MAX as usize {
            return Err(RendererError::TooLarge);
        }
        let graphics = Self::choose_family(families, Work::Graphics);
        let transfer = Self::choose_family(families, Work::Transfer);
        let present = Self::choose_family(families, Work::Present);
        match (graphics, transfer, present) {
            (Some(graphics_queue), Some(transfer_queue), Some(presentation_queue)) => {
                let mut queue_families: Vec<u32> = Vec::new();
                queue_families.push(graphics_queue);
                if transfer_queue != graphics_queue {
                    queue_families.push(transfer_queue);
                }
                if presentation_queue != graphics_queue && presentation_queue != transfer_queue {
                    queue_families.push(presentation_queue);
                }
                assert(queue_families@ =~= distinct_families(
                    graphics_queue,
                    transfer_queue,
                    presentation_queue,
                ));
                Ok(
                    VKDevice {
                        physical_device,
                        graphics_queue,
                        presentation_queue,
                        transfer_queue,
                        queue_families,
                    },
                )
            },
            _ => Err(RendererError::NoSuitableQueueFamily),
        }
    }

    /// The preferred device among those enumerated, by position.
    pub fn choose_physical_device(physical_devices: &Vec<PhysicalDevice>) -> (choice: Option<usize>)
        ensures
            is_preferred_device(physical_devices@, choice),
            choice == preferred_device(physical_devices@),
    {
        let mut preferred: Option<usize> = None;
        let mut i: usize = 0;
        while i < physical_devices.len()
            invariant
                i <= physical_devices@.len(),
                is_preferred_device(physical_devices@.take(i as int), preferred),
            decreases physical_devices@.len() - i,
        {
            let device = &physical_devices[i];
            let ghost before = physical_devices@.take(i as int);
            let ghost after = physical_devices@.take(i + 1);
            proof {
                assert(forall|j: int| 0 <= j < i ==> after[j] == before[j]);
                assert(after[i as int] == physical_devices@[i as int]);
            }
            if device.is_suitable() {
                if preferred.is_none() || device.device_type == DEVICE_TYPE_DISCRETE_GPU {
                    preferred = Some(i);
                }
            }
            i += 1;
        }
        proof {
            assert(physical_devices@.take(physical_devices@.len() as int) =~= physical_devices@);
            lemma_device_unique(physical_devices@, preferred, preferred);
        }
        preferred
    }

    /// The family picked for one kind of work.
    pub fn choose_family(families: &Vec<QueueFamily>, work: Work) -> (choice: Option<u32>)
        requires
            families@.len() <= u32::MAX,
        ensures
            is_family_for(families@, work, choice),
            choice == family_for(families@, work),
    {
        let other = match work {
            Work::Graphics => Work::Transfer,
            Work::Transfer => Work::Graphics,
            Work::Present => Work::Graphics,
        };
        let mut choice: Option<u32> = None;
        let mut i: usize = 0;
        while i < families.len()
            invariant
                i <= families@.len() <= u32::MAX,
                other == rival(work),
                is_family_for(families@.take(i as int), work, choice),
            decreases families@.len() - i,
        {
            let family = &families[i];
            let ghost before = families@.take(i as int);
            let ghost after = families@.take(i + 1);
            proof {
                assert(forall|j: int| 0 <= j < i ==> after[j] == before[j]);
                assert(after[i as int] == families@[i as int]);
            }
            if family.supports(work) {
                if choice.is_none() || !family.supports(other) {
                    choice = Some(i as u32);
                }
            }
            i += 1;
        }
        proof {
            assert(families@.take(families@.len() as int) =~= families@);
            lemma_family_unique(families@, work, choice, choice);
        }
        choice
    }
}

} // verus!
