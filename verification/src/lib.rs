//! Decision logic of a small Vulkan sky renderer: which GPU and queue family
//! to drive, how many swapchain images to ask for, and how the window's event
//! loop reacts to window events and to the outcome of each frame.

use vstd::prelude::*;

pub mod device;
pub mod event_loop;
pub mod swapchain;

verus! {

/// The default value of any type that has one.
pub fn default<T: Default>() -> (r: T)
    ensures
        call_ensures(T::default, (), r),
{
    T::default()
}

} // verus!
