//! Presentation backend logic for a windowed 2D renderer: device choice,
//! swapchain lifecycle, frame bridging and the per-frame pipeline, stated as
//! verified decisions over plain values.

use vstd::prelude::*;

pub mod bridge;
pub mod config;
pub mod device;
pub mod frame_laws;
pub mod geometry;
pub mod icon;
pub mod renderer;
pub mod shell;
pub mod swapchain;
pub mod vulkan;
pub mod vulkan_context;
pub mod vulkan_renderer;

verus! {

/// What a program says of itself and of the window it wants.
#[derive(Clone, Copy, Debug, PartialEq, Eq)]
pub struct AppCreateInfo {
    /// Title of the window.
    pub title: &'static str,
    /// Size of the window in physical pixels, width first.
    pub size: (u32, u32),
    /// Path of the window's icon, if it has one.
    pub icon: Option<&'static str>,
    /// Name of the program; its settings are kept under it.
    pub name: &'static str,
}

impl Default for AppCreateInfo {
    /// No title, no size, no icon, no name.
    fn default() -> (res: AppCreateInfo)
        ensures
            res.title@.len() == 0,
            res.size == (0u32, 0u32),
            res.icon is None,
            res.name@.len() == 0,
    {
        proof {
            reveal_strlit("");
        }
        AppCreateInfo { title: "", size: (0, 0), icon: None, name: "" }
    }
}

} // verus!
