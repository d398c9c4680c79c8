use vstd::prelude::*;

verus! {

/// Class of a physical GPU as reported by the graphics API.
#[derive(Clone, Copy, Debug, PartialEq, Eq, Structural)]
pub enum DeviceType {
    DiscreteGpu,
    IntegratedGpu,
    VirtualGpu,
    Cpu,
    Other,
}

/// What one queue family of an adapter offers: graphics capability, and whether
/// it can present to the surface in use.
#[derive(Clone, Copy, Debug, PartialEq, Eq, Structural)]
pub struct QueueFamilyInfo {
    pub supports_graphics: bool,
    pub supports_present: bool,
}

/// What selection needs to know of one enumerated adapter.
#[derive(Debug)]
pub struct AdapterInfo {
    pub device_type: DeviceType,
    /// Names of the device extensions the adapter supports, as bytes.
    pub extensions: Vec<Vec<u8>>,
    /// Queue families in index order.
    pub queue_families: Vec<QueueFamilyInfo>,
}

/// Why an adapter was not taken.
#[derive(Clone, Copy, Debug, PartialEq, Eq, Structural)]
pub enum Rejection {
    MissingExtension,
    NoSuitableQueueFamily,
}

/// No adapter passed both the extension check and the queue-family check.
#[derive(Clone, Copy, Debug, PartialEq, Eq, Structural)]
pub struct NoCompatibleDeviceError;

/// The chosen adapter, by its enumeration index, and its graphics+present queue family.
#[derive(Clone, Copy, Debug, PartialEq, Eq, Structural)]
pub struct Selection {
    pub adapter_index: usize,
    pub queue_family_index: u32,
}

pub open spec fn rank_spec(t: DeviceType) -> nat {
    match t {
        DeviceType::DiscreteGpu => 0,
        DeviceType::IntegratedGpu => 1,
        DeviceType::VirtualGpu => 2,
        DeviceType::Cpu => 3,
        DeviceType::Other => 4,
    }
}

pub open spec fn names_view(names: Seq<Vec<u8>>) -> Seq<Seq<u8>> {
    names.map_values(|n: Vec<u8>| n@)
}

pub open spec fn supports_extension(adapter: AdapterInfo, name: Seq<u8>) -> bool {
    names_view(adapter.extensions@).contains(name)
}

pub open spec fn has_all_extensions(adapter: AdapterInfo, required: Seq<Seq<u8>>) -> bool {
    forall|j: int| 0 <= j < required.len() ==> supports_extension(adapter, #[trigger] required[j])
}

pub open spec fn family_suitable(f: QueueFamilyInfo) -> bool {
    f.supports_graphics && f.supports_present
}

pub open spec fn has_suitable_family(adapter: AdapterInfo) -> bool {
    exists|i: int|
        0 <= i < adapter.queue_families@.len() && #[trigger] family_suitable(
            adapter.queue_families@[i],
        )
}

/// `i` is the first queue family of `families` that has graphics and presentation.
pub open spec fn is_first_suitable(families: Seq<QueueFamilyInfo>, i: int) -> bool {
    &&& 0 <= i < families.len()
    &&& family_suitable(families[i])
    &&& forall|k: int| 0 <= k < i ==> !#[trigger] family_suitable(families[k])
}

pub open spec fn passes(adapter: AdapterInfo, required: Seq<Seq<u8>>) -> bool {
    has_all_extensions(adapter, required) && has_suitable_family(adapter)
}

/// Adapter `i` passes both checks, has the least rank among passing adapters,
/// and every passing adapter enumerated before it has a greater rank.
pub open spec fn is_best(adapters: Seq<AdapterInfo>, required: Seq<Seq<u8>>, i: int) -> bool {
    &&& 0 <= i < adapters.len()
    &&& passes(adapters[i], required)
    &&& forall|k: int|
        0 <= k < adapters.len() && passes(#[trigger] adapters[k], required) ==> rank_spec(
            adapters[i].device_type,
        ) <= rank_spec(adapters[k].device_type)
    &&& forall|k: int|
        0 <= k < i && passes(#[trigger] adapters[k], required) ==> rank_spec(
            adapters[i].device_type,
        ) < rank_spec(adapters[k].device_type)
}

pub open spec fn any_passes(adapters: Seq<AdapterInfo>, required: Seq<Seq<u8>>) -> bool {
    exists|i: int| 0 <= i < adapters.len() && passes(#[trigger] adapters[i], required)
}

/// Rank of a device type: discrete 0, integrated 1, virtual 2, cpu 3, other 4.
pub fn device_rank(t: DeviceType) -> (r: u8)
    ensures
        r as nat == rank_spec(t),
{
    match t {
        DeviceType::DiscreteGpu => 0,
        DeviceType::IntegratedGpu => 1,
        DeviceType::VirtualGpu => 2,
        DeviceType::Cpu => 3,
        DeviceType::Other => 4,
    }
}

/// Exact, case-sensitive comparison of two names.
pub fn names_equal(a: &Vec<u8>, b: &Vec<u8>) -> (r: bool)
    ensures
        r == (a@ == b@),
{
    if a.len() != b.len() {
        return false;
    }
    let mut i: usize = 0;
    while i < a.len()
        invariant
            a@.len() == b@.len(),
            0 <= i <= a@.len(),
            forall|k: int| 0 <= k < i ==> a@[k] == b@[k],
        decreases a@.len() - i,
    {
        if a[i] != b[i] {
            return false;
        }
        i = i + 1;
    }
    assert(a@ =~= b@);
    true
}

/// Whether `adapter` lists the extension `name`.
pub fn adapter_supports(adapter: &AdapterInfo, name: &Vec<u8>) -> (r: bool)
    ensures
        r == supports_extension(*adapter, name@),
{
    let exts = &adapter.extensions;
    let mut i: usize = 0;
    while i < exts.len()
        invariant
            0 <= i <= exts@.len(),
            exts == &adapter.extensions,
            forall|k: int| 0 <= k < i ==> exts@[k]@ != name@,
        decreases exts@.len() - i,
    {
        if names_equal(&exts[i], name) {
            assert(names_view(exts@)[i as int] == name@);
            return true;
        }
        i = i + 1;
    }
    assert forall|k: int| 0 <= k < names_view(exts@).len() implies names_view(exts@)[k]
        != name@ by {}
    false
}

/// Whether `adapter` lists every extension of `required`.
pub fn adapter_has_extensions(adapter: &AdapterInfo, required: &Vec<Vec<u8>>) -> (r: bool)
    ensures
        r == has_all_extensions(*adapter, names_view(required@)),
{
    let mut j: usize = 0;
    while j < required.len()
        invariant
            0 <= j <= required@.len(),
            forall|k: int|
                0 <= k < j ==> supports_extension(*adapter, #[trigger] names_view(required@)[k]),
        decreases required@.len() - j,
    {
        if !adapter_supports(adapter, &required[j]) {
            assert(!supports_extension(*adapter, names_view(required@)[j as int]));
            return false;
        }
        j = j + 1;
    }
    true
}

/// Index of the first queue family with graphics capability and presentation
/// support, scanning in index order.
pub fn first_suitable_queue_family(families: &Vec<QueueFamilyInfo>) -> (r: Option<usize>)
    ensures
        r matches Some(i) ==> is_first_suitable(families@, i as int),
        r is None <==> forall|k: int|
            0 <= k < families@.len() ==> !#[trigger] family_suitable(families@[k]),
{
    let mut i: usize = 0;
    while i < families.len()
        invariant
            0 <= i <= families@.len(),
            forall|k: int| 0 <= k < i ==> !#[trigger] family_suitable(families@[k]),
        decreases families@.len() - i,
    {
        if families[i].supports_graphics && families[i].supports_present {
            assert(family_suitable(families@[i as int]));
            return Some(i);
        }
        i = i + 1;
    }
    None
}

/// Runs both checks on one adapter, extensions first. On success gives the
/// first suitable queue family; otherwise the check that failed.
pub fn check_adapter(adapter: &AdapterInfo, required: &Vec<Vec<u8>>) -> (r: Result<
    u32,
    Rejection,
>)
    requires
        adapter.queue_families@.len() <= u32::MAX,
    ensures
        r matches Ok(i) ==> has_all_extensions(*adapter, names_view(required@))
            && is_first_suitable(adapter.queue_families@, i as int),
        r == Err::<u32, Rejection>(Rejection::MissingExtension) <==> !has_all_extensions(
            *adapter,
            names_view(required@),
        ),
        r == Err::<u32, Rejection>(Rejection::NoSuitableQueueFamily) <==> has_all_extensions(
            *adapter,
            names_view(required@),
        ) && !has_suitable_family(*adapter),
        r is Ok <==> passes(*adapter, names_view(required@)),
{
    if !adapter_has_extensions(adapter, required) {
        return Err(Rejection::MissingExtension);
    }
    match first_suitable_queue_family(&adapter.queue_families) {
        Some(i) => Ok(i as u32),
        None => {
            assert(!has_suitable_family(*adapter));
            Err(Rejection::NoSuitableQueueFamily)
        },
    }
}

pub open spec fn families_fit(adapters: Seq<AdapterInfo>) -> bool {
    forall|i: int| 0 <= i < adapters.len() ==> (#[trigger] adapters[i]).queue_families@.len() <= u32::MAX
}

/// Picks the adapter to use: among adapters that support every required
/// extension and have a graphics+present queue family, the one of least rank,
/// the earliest enumerated on ties. Fails when no adapter passes.
pub fn select_adapter(adapters: &Vec<AdapterInfo>, required: &Vec<Vec<u8>>) -> (r: Result<
    Selection,
    NoCompatibleDeviceError,
>)
    requires
        families_fit(adapters@),
    ensures
        r is Err <==> !any_passes(adapters@, names_view(required@)),
        r matches Ok(s) ==> is_best(adapters@, names_view(required@), s.adapter_index as int)
            && is_first_suitable(
            adapters@[s.adapter_index as int].queue_families@,
            s.queue_family_index as int,
        ),
{
    let ghost req = names_view(required@);
    let mut best: Option<Selection> = None;
    let mut best_rank: u8 = 0;
    let mut i: usize = 0;
    while i < adapters.len()
        invariant
            0 <= i <= adapters@.len(),
            families_fit(adapters@),
            req == names_view(required@),
            best is None <==> forall|k: int| 0 <= k < i ==> !passes(#[trigger] adapters@[k], req),
            best matches Some(s) ==> {
                &&& s.adapter_index < i
                &&& passes(adapters@[s.adapter_index as int], req)
                &&& best_rank as nat == rank_spec(adapters@[s.adapter_index as int].device_type)
                &&& is_first_suitable(
                    adapters@[s.adapter_index as int].queue_families@,
                    s.queue_family_index as int,
                )
                &&& forall|k: int|
                    0 <= k < i && passes(#[trigger] adapters@[k], req) ==> (best_rank as nat)
                        <= rank_spec(adapters@[k].device_type)
                &&& forall|k: int|
                    0 <= k < s.adapter_index && passes(#[trigger] adapters@[k], req)
                        ==> (best_rank as nat) < rank_spec(adapters@[k].device_type)
            },
        decreases adapters@.len() - i,
    {
        let adapter = &adapters[i];
        assert(adapter.queue_families@.len() <= u32::MAX);
        match check_adapter(adapter, required) {
            Ok(family) => {
                let rank = device_rank(adapter.device_type);
                let better = match best {
                    None => true,
                    Some(_) => rank < best_rank,
                };
                if better {
                    best = Some(Selection { adapter_index: i, queue_family_index: family });
                    best_rank = rank;
                }
            },
            Err(_) => {},
        }
        i = i + 1;
    }
    match best {
        Some(s) => {
            assert(is_best(adapters@, req, s.adapter_index as int));
            Ok(s)
        },
        None => Err(NoCompatibleDeviceError),
    }
}

/// At most one adapter is the best: the least rank among passing adapters,
/// with ties going to the earliest enumerated, names a single adapter.
pub proof fn lemma_best_is_unique(
    adapters: Seq<AdapterInfo>,
    required: Seq<Seq<u8>>,
    i: int,
    j: int,
)
    requires
        is_best(adapters, required, i),
        is_best(adapters, required, j),
    ensures
        i == j,
{
    if i < j {
        assert(passes(adapters[i], required));
    } else if j < i {
        assert(passes(adapters[j], required));
    }
}

/// When every adapter lacks some required extension, no adapter passes, so
/// selection fails.
pub proof fn lemma_none_pass_without_extensions(
    adapters: Seq<AdapterInfo>,
    required: Seq<Seq<u8>>,
)
    requires
        forall|i: int| 0 <= i < adapters.len() ==> !has_all_extensions(#[trigger] adapters[i], required),
    ensures
        !any_passes(adapters, required),
{
}

/// When no adapter has a queue family with both graphics and presentation
/// support, no adapter passes, so selection fails.
pub proof fn lemma_none_pass_without_queue_family(
    adapters: Seq<AdapterInfo>,
    required: Seq<Seq<u8>>,
)
    requires
        forall|i: int| 0 <= i < adapters.len() ==> !has_suitable_family(#[trigger] adapters[i]),
    ensures
        !any_passes(adapters, required),
{
}

} // verus!
