//! Host-side logic of a GPU particle simulation: the choices made while
//! setting up the device, the swapchain and the particle buffer, the command
//! sequence recorded each frame, the frame scheduler and the teardown order.
pub mod commands;
pub mod device;
pub mod error;
pub mod layout;
pub mod memory;
pub mod scheduler;
pub mod surface;
pub mod teardown;
