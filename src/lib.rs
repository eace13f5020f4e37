//! Frame scheduling for a small Vulkan renderer.
//!
//! The library decides how one frame is driven through the presentation
//! chain: when the chain is rebuilt, what happens when an image cannot be
//! acquired or presented, which commands a frame records, and how the single
//! in-flight GPU token is taken and handed back. The GPU work itself is done
//! by the host, which performs each [`renderer::scheduler::Step`] and reports
//! what came of it.
pub mod material;
pub mod renderer;
