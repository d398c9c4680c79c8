use crate::swapchain::SwapchainConfig;
use vstd::prelude::*;

verus! {

/// A GPU object owned by the renderer.
#[derive(Clone, Copy, Debug, PartialEq, Eq, Structural)]
pub enum Resource {
    /// The view and framebuffer of one chain image, by image index.
    RenderTarget(usize),
    Chain,
    Surface,
    Device,
    DebugMessenger,
    Instance,
}

/// One step of replacing a presentation chain.
#[derive(Clone, Copy, Debug, PartialEq, Eq, Structural)]
pub enum ChainStep {
    DestroyTarget(usize),
    DestroyChain,
    CreateChain,
    CreateTarget(usize),
}

pub open spec fn targets_spec(n: nat) -> Seq<Resource> {
    Seq::new(n, |i: int| Resource::RenderTarget(i as usize))
}

/// The one destruction order: render targets, chain, surface, device, the
/// debug messenger when one was installed, instance.
pub open spec fn teardown_spec(targets: nat, has_messenger: bool) -> Seq<Resource> {
    targets_spec(targets) + seq![Resource::Chain, Resource::Surface, Resource::Device] + (
    if has_messenger {
        seq![Resource::DebugMessenger]
    } else {
        Seq::empty()
    }) + seq![Resource::Instance]
}

/// Old targets, old chain, then the new chain and one target per new image.
pub open spec fn replacement_spec(old_targets: nat, new_images: nat) -> Seq<ChainStep> {
    Seq::new(old_targets, |i: int| ChainStep::DestroyTarget(i as usize)) + seq![
        ChainStep::DestroyChain,
        ChainStep::CreateChain,
    ] + Seq::new(new_images, |i: int| ChainStep::CreateTarget(i as usize))
}

/// Every occurrence of `a` in `s` comes before every occurrence of `b`.
pub open spec fn before<T>(s: Seq<T>, a: T, b: T) -> bool {
    forall|i: int, j: int|
        0 <= i < s.len() && 0 <= j < s.len() && #[trigger] s[i] == a && #[trigger] s[j] == b ==> i
            < j
}

pub open spec fn no_duplicates<T>(s: Seq<T>) -> bool {
    forall|i: int, j: int| 0 <= i < s.len() && 0 <= j < s.len() && s[i] == s[j] ==> i == j
}

pub open spec fn is_destroy(step: ChainStep) -> bool {
    step is DestroyTarget || step is DestroyChain
}

/// The order in which shutdown destroys the renderer's objects.
pub fn teardown_order(targets: usize, has_messenger: bool) -> (r: Vec<Resource>)
    ensures
        r@ == teardown_spec(targets as nat, has_messenger),
{
    let mut r: Vec<Resource> = Vec::new();
    let mut i: usize = 0;
    while i < targets
        invariant
            0 <= i <= targets,
            r@ == targets_spec(i as nat),
        decreases targets - i,
    {
        r.push(Resource::RenderTarget(i));
        i = i + 1;
        assert(r@ =~= targets_spec(i as nat));
    }
    r.push(Resource::Chain);
    r.push(Resource::Surface);
    r.push(Resource::Device);
    if has_messenger {
        r.push(Resource::DebugMessenger);
    }
    r.push(Resource::Instance);
    assert(r@ =~= teardown_spec(targets as nat, has_messenger));
    r
}

/// Teardown destroys each object exactly once, every render target before the
/// chain, the chain before the surface, the surface before the device, and the
/// device before the debug messenger and the instance, the messenger before
/// the instance. The order does not depend on what ended the loop.
pub proof fn lemma_teardown_order(targets: usize, has_messenger: bool)
    ensures
        ({
            let s = teardown_spec(targets as nat, has_messenger);
            &&& no_duplicates(s)
            &&& forall|k: int| 0 <= k < targets ==> #[trigger] s.contains(Resource::RenderTarget(k as usize))
            &&& s.contains(Resource::Chain) && s.contains(Resource::Surface)
            &&& s.contains(Resource::Device) && s.contains(Resource::Instance)
            &&& has_messenger == s.contains(Resource::DebugMessenger)
            &&& forall|k: int|
                0 <= k < targets ==> #[trigger] before(s, Resource::RenderTarget(k as usize), Resource::Chain)
            &&& before(s, Resource::Chain, Resource::Surface)
            &&& before(s, Resource::Surface, Resource::Device)
            &&& before(s, Resource::Device, Resource::DebugMessenger)
            &&& before(s, Resource::Device, Resource::Instance)
            &&& before(s, Resource::DebugMessenger, Resource::Instance)
        }),
{
    let s = teardown_spec(targets as nat, has_messenger);
    let n = targets as int;
    assert forall|i: int| 0 <= i < s.len() implies #[trigger] s[i] == (if i < n {
        Resource::RenderTarget(i as usize)
    } else if i == n {
        Resource::Chain
    } else if i == n + 1 {
        Resource::Surface
    } else if i == n + 2 {
        Resource::Device
    } else if i == n + 3 && has_messenger {
        Resource::DebugMessenger
    } else {
        Resource::Instance
    }) by {}
    assert(s[n] == Resource::Chain);
    assert(s[n + 1] == Resource::Surface);
    assert(s[n + 2] == Resource::Device);
    assert(s[s.len() - 1] == Resource::Instance);
    if has_messenger {
        assert(s[n + 3] == Resource::DebugMessenger);
    }
    assert forall|k: int| 0 <= k < targets implies #[trigger] s.contains(
        Resource::RenderTarget(k as usize),
    ) by {
        assert(s[k] == Resource::RenderTarget(k as usize));
    }
}

/// On replacement every destruction comes before the new chain is created,
/// and every old render target is destroyed before the old chain.
pub proof fn lemma_replacement_order(old_targets: usize, new_images: usize)
    ensures
        ({
            let s = replacement_spec(old_targets as nat, new_images as nat);
            &&& forall|i: int, j: int|
                0 <= i < s.len() && 0 <= j < s.len() && is_destroy(#[trigger] s[i])
                    && #[trigger] s[j] == ChainStep::CreateChain ==> i < j
            &&& forall|k: int|
                0 <= k < old_targets ==> #[trigger] before(
                    s,
                    ChainStep::DestroyTarget(k as usize),
                    ChainStep::DestroyChain,
                )
            &&& forall|k: int|
                0 <= k < old_targets ==> #[trigger] s.contains(ChainStep::DestroyTarget(k as usize))
            &&& forall|k: int| 0 <= k < new_images ==> #[trigger] s.contains(ChainStep::CreateTarget(k as usize))
            &&& s.contains(ChainStep::DestroyChain) && s.contains(ChainStep::CreateChain)
        }),
{
    let s = replacement_spec(old_targets as nat, new_images as nat);
    let n = old_targets as int;
    assert(s[n] == ChainStep::DestroyChain);
    assert(s[n + 1] == ChainStep::CreateChain);
    assert forall|i: int| 0 <= i < s.len() implies #[trigger] s[i] == (if i < n {
        ChainStep::DestroyTarget(i as usize)
    } else if i == n {
        ChainStep::DestroyChain
    } else if i == n + 1 {
        ChainStep::CreateChain
    } else {
        ChainStep::CreateTarget((i - n - 2) as usize)
    }) by {}
    assert forall|k: int| 0 <= k < old_targets implies #[trigger] s.contains(
        ChainStep::DestroyTarget(k as usize),
    ) by {
        assert(s[k] == ChainStep::DestroyTarget(k as usize));
    }
    assert forall|k: int| 0 <= k < new_images implies #[trigger] s.contains(
        ChainStep::CreateTarget(k as usize),
    ) by {
        assert(s[n + 2 + k] == ChainStep::CreateTarget(k as usize));
    }
}

/// Destroying a chain: its render targets in index order, then the chain.
pub open spec fn retire_spec(targets: nat) -> Seq<ChainStep> {
    Seq::new(targets, |i: int| ChainStep::DestroyTarget(i as usize)) + seq![ChainStep::DestroyChain]
}

/// Building a chain: the chain, then one render target per image.
pub open spec fn install_spec(images: nat) -> Seq<ChainStep> {
    seq![ChainStep::CreateChain] + Seq::new(images, |i: int| ChainStep::CreateTarget(i as usize))
}

/// Retiring a chain and installing the next one gives the replacement order.
pub proof fn lemma_retire_install_is_replacement(old_targets: nat, new_images: nat)
    ensures
        retire_spec(old_targets) + install_spec(new_images) =~= replacement_spec(
            old_targets,
            new_images,
        ),
{
}

/// The presentation chain as the renderer tracks it: whether one is live, the
/// configuration it was built from, how many render targets it has (one per
/// chain image), and how many chains have been installed before it.
pub struct PresentationChain {
    live: bool,
    config: SwapchainConfig,
    targets: usize,
    generation: u64,
}

impl PresentationChain {
    pub closed spec fn live_view(&self) -> bool {
        self.live
    }

    pub closed spec fn config_view(&self) -> SwapchainConfig {
        self.config
    }

    pub closed spec fn targets_view(&self) -> nat {
        self.targets as nat
    }

    pub closed spec fn generation_view(&self) -> nat {
        self.generation as nat
    }

    /// A retired chain has no render targets.
    pub closed spec fn wf(&self) -> bool {
        !self.live ==> self.targets == 0
    }

    /// The first chain, of generation zero, with one target per image.
    pub fn new(config: SwapchainConfig, images: usize) -> (r: PresentationChain)
        ensures
            r.wf(),
            r.live_view(),
            r.config_view() == config,
            r.targets_view() == images,
            r.generation_view() == 0,
    {
        PresentationChain { live: true, config, targets: images, generation: 0 }
    }

    pub fn is_live(&self) -> (r: bool)
        ensures
            r == self.live_view(),
    {
        self.live
    }

    pub fn config(&self) -> (r: SwapchainConfig)
        ensures
            r == self.config_view(),
    {
        self.config
    }

    pub fn target_count(&self) -> (r: usize)
        ensures
            r == self.targets_view(),
    {
        self.targets
    }

    pub fn generation(&self) -> (r: u64)
        ensures
            r == self.generation_view(),
    {
        self.generation
    }

    /// Gives the steps that destroy the live chain, its render targets first,
    /// and marks it gone. A chain already retired has nothing to destroy.
    pub fn retire(&mut self) -> (r: Vec<ChainStep>)
        requires
            old(self).wf(),
        ensures
            final(self).wf(),
            !final(self).live_view(),
            final(self).targets_view() == 0,
            final(self).config_view() == old(self).config_view(),
            final(self).generation_view() == old(self).generation_view(),
            old(self).live_view() ==> r@ == retire_spec(old(self).targets_view()),
            !old(self).live_view() ==> r@ == Seq::<ChainStep>::empty(),
    {
        if !self.live {
            return Vec::new();
        }
        let mut r: Vec<ChainStep> = Vec::new();
        let mut i: usize = 0;
        while i < self.targets
            invariant
                0 <= i <= self.targets,
                r@ == Seq::new(i as nat, |k: int| ChainStep::DestroyTarget(k as usize)),
            decreases self.targets - i,
        {
            r.push(ChainStep::DestroyTarget(i));
            i = i + 1;
            assert(r@ =~= Seq::new(i as nat, |k: int| ChainStep::DestroyTarget(k as usize)));
        }
        r.push(ChainStep::DestroyChain);
        assert(r@ =~= retire_spec(self.targets as nat));
        self.live = false;
        self.targets = 0;
        r
    }

    /// Records a new chain built from `config` with `images` images, and gives
    /// the steps that build it. Only allowed once the previous chain is retired.
    pub fn install(&mut self, config: SwapchainConfig, images: usize) -> (r: Vec<ChainStep>)
        requires
            old(self).wf(),
            !old(self).live_view(),
            old(self).generation_view() < u64::MAX,
        ensures
            final(self).wf(),
            final(self).live_view(),
            final(self).config_view() == config,
            final(self).targets_view() == images,
            final(self).generation_view() == old(self).generation_view() + 1,
            r@ == install_spec(images as nat),
    {
        let mut r: Vec<ChainStep> = Vec::new();
        r.push(ChainStep::CreateChain);
        let ghost head = r@;
        let mut i: usize = 0;
        while i < images
            invariant
                0 <= i <= images,
                head == seq![ChainStep::CreateChain],
                r@ == head + Seq::new(i as nat, |k: int| ChainStep::CreateTarget(k as usize)),
            decreases images - i,
        {
            r.push(ChainStep::CreateTarget(i));
            i = i + 1;
            assert(r@ =~= head + Seq::new(i as nat, |k: int| ChainStep::CreateTarget(k as usize)));
        }
        self.live = true;
        self.config = config;
        self.targets = images;
        self.generation = self.generation + 1;
        r
    }
}

} // verus!
