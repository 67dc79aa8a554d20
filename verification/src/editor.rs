//! The editor as the plugin host sees it: what it reports, and what it
//! hands to each window that it opens.

use crate::render::{WgpuRenderer, WindowOpenOptions, WINDOW_SIZE};
use std::sync::Arc;
use vstd::prelude::*;

verus! {

/// `Arc::clone` of std: another handle to the same allocation, so the value
/// behind the new handle is the value behind the old one.
#[verifier::external_body]
fn share<P>(handle: &Arc<P>) -> (shared: Arc<P>)
    ensures
        shared == *handle,
{
    Arc::clone(handle)
}

/// The editor of a plugin. It holds the plugin's parameters, shared with
/// the host and with every window that it opens, and nothing else.
pub struct WgpuEditor<P> {
    pub params: Arc<P>,
}

/// What a new editor window starts from.
pub struct Spawned<P> {
    /// The options to open the window with.
    pub options: WindowOpenOptions,
    /// The parameters that the window's renderer reads and sets.
    pub params: Arc<P>,
}

impl<P> WgpuEditor<P> {
    /// Prepares a new editor window: the options that every window of the
    /// renderer opens with, and the editor's own parameters. The editor is
    /// left as it was, so each call stands for a window of its own.
    pub fn spawn(&self) -> (spawned: Spawned<P>)
        ensures
            spawned.params == self.params,
            spawned.options.title@ == "wgpu on baseview"@,
            spawned.options.size == (WINDOW_SIZE, WINDOW_SIZE),
            spawned.options.scale == crate::render::WindowScalePolicy::SystemScaleFactor,
    {
        Spawned { options: WgpuRenderer::start(), params: share(&self.params) }
    }

    /// The logical size that the host lays the window out with, as width
    /// and height.
    pub fn size(&self) -> (size: (u32, u32))
        ensures
            size == (512u32, 512u32),
            size == (WINDOW_SIZE, WINDOW_SIZE),
    {
        (WINDOW_SIZE, WINDOW_SIZE)
    }

    /// Takes note of the host's scale factor, given as the bit pattern of a
    /// single-precision number. Every factor is accepted: no layout here
    /// depends on it.
    pub fn set_scale_factor(&self, factor: u32) -> (accepted: bool)
        ensures
            accepted,
    {
        true
    }

    /// The host changed a parameter's value, given as the bit pattern of a
    /// single-precision number. What is drawn does not follow parameters
    /// that the host changes, so nothing is done.
    pub fn param_value_changed(&self, id: &str, normalized_value: u32) {
    }

    /// The host changed a parameter's modulation offset, given as the bit
    /// pattern of a single-precision number. Nothing is done.
    pub fn param_modulation_changed(&self, id: &str, modulation_offset: u32) {
    }

    /// The host changed several parameters at once. Nothing is done.
    pub fn param_values_changed(&self) {
    }
}

} // verus!
