use vk_present::lifecycle::{teardown_order, ChainStep, PresentationChain, Resource};
use vk_present::swapchain::{Extent2D, PresentMode, SurfaceFormat, SwapchainConfig};

fn config(width: u32, height: u32) -> SwapchainConfig {
    SwapchainConfig {
        format: SurfaceFormat { format: 44, color_space: 0 },
        present_mode: PresentMode::Fifo,
        extent: Extent2D { width, height },
        image_count: 3,
    }
}

#[test]
fn teardown_with_messenger() {
    assert_eq!(
        teardown_order(2, true),
        vec![
            Resource::RenderTarget(0),
            Resource::RenderTarget(1),
            Resource::Chain,
            Resource::Surface,
            Resource::Device,
            Resource::DebugMessenger,
            Resource::Instance,
        ]
    );
}

#[test]
fn teardown_without_messenger() {
    assert_eq!(
        teardown_order(3, false),
        vec![
            Resource::RenderTarget(0),
            Resource::RenderTarget(1),
            Resource::RenderTarget(2),
            Resource::Chain,
            Resource::Surface,
            Resource::Device,
            Resource::Instance,
        ]
    );
    assert_eq!(
        teardown_order(0, false),
        vec![Resource::Chain, Resource::Surface, Resource::Device, Resource::Instance]
    );
}

#[test]
fn chain_retire_then_install() {
    let mut chain = PresentationChain::new(config(800, 600), 3);
    assert!(chain.is_live());
    assert_eq!(chain.target_count(), 3);
    assert_eq!(chain.generation(), 0);
    assert_eq!(
        chain.retire(),
        vec![
            ChainStep::DestroyTarget(0),
            ChainStep::DestroyTarget(1),
            ChainStep::DestroyTarget(2),
            ChainStep::DestroyChain,
        ]
    );
    assert!(!chain.is_live());
    assert_eq!(chain.target_count(), 0);
    // a retired chain has nothing left to destroy
    assert_eq!(chain.retire(), vec![]);
    assert_eq!(
        chain.install(config(1024, 768), 2),
        vec![ChainStep::CreateChain, ChainStep::CreateTarget(0), ChainStep::CreateTarget(1)]
    );
    assert!(chain.is_live());
    assert_eq!(chain.target_count(), 2);
    assert_eq!(chain.generation(), 1);
    assert_eq!(chain.config(), config(1024, 768));
}
