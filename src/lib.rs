pub mod device_select;
pub mod swapchain;
pub mod lifecycle;
pub mod scheduler;
pub mod settings;
