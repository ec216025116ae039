//! The offscreen render-target factory: the descriptor of the texture a
//! task renders into and of the camera that renders it, as the host must
//! create them.
//!
//! The host owns the actual GPU texture and camera entity; this library
//! owns their descriptors, keyed by opaque handles that a `HandleAlloc`
//! hands out. The host keeps a table from handle to engine entity.

use vstd::prelude::*;

verus! {

/// Allocator of opaque handles for host-side resources (textures, cameras,
/// capture entities). Handles are never reused.
pub struct HandleAlloc {
    pub next_id: u64,
}

impl HandleAlloc {
    /// Starts handing out handles from zero.
    pub fn new() -> (a: Self)
        ensures
            a.next_id == 0,
    {
        HandleAlloc { next_id: 0 }
    }

    /// Hands out the next unused handle.
    pub fn fresh(&mut self) -> (id: u64)
        requires
            old(self).next_id < u64::MAX,
        ensures
            id == old(self).next_id,
            final(self).next_id == old(self).next_id + 1,
    {
        let id = self.next_id;
        self.next_id = self.next_id + 1;
        id
    }
}

/// Pixel format of a render target: 8-bit RGBA with sRGB encoding, or the
/// swizzled variant used when the texture is sampled directly by the
/// same-frame pipeline.
#[derive(Clone, Copy, PartialEq, Eq, Structural, Debug)]
pub enum TextureFormat {
    Rgba8UnormSrgb,
    Bgra8UnormSrgb,
}

/// Descriptor of the GPU texture a task renders into. Created once per
/// task and never mutated afterwards; the host allocates the texture
/// zero-filled to `width * height` RGBA pixels.
#[derive(Clone, Copy, PartialEq, Eq, Structural, Debug)]
pub struct RenderTarget {
    /// Opaque handle of the texture on the host side.
    pub id: u64,
    pub width: u32,
    pub height: u32,
    pub format: TextureFormat,
    /// The texture can be rendered into. Always set.
    pub render_attachment: bool,
    /// The texture can be copied out of. Always set.
    pub copy_src: bool,
    /// The texture can be sampled by shaders. Set only for direct
    /// rendering.
    pub texture_binding: bool,
}

/// Descriptor of the offscreen camera that renders a task's visibility
/// layer into its render target.
#[derive(Clone, Copy, PartialEq, Eq, Structural, Debug)]
pub struct CameraInfo {
    /// Opaque handle of the camera entity on the host side.
    pub id: u64,
    /// Render order: negative, so the capture renders before the primary
    /// scene camera.
    pub order: i32,
    /// The visibility layer this camera is restricted to.
    pub layer: u8,
    /// Whether the camera renders this frame. Off until the task is
    /// scheduled.
    pub active: bool,
    /// The camera clears its target to fully transparent black.
    pub clear_transparent: bool,
}

/// Describes the render target and offscreen camera for one capture task,
/// allocating handles for both. The target always carries the "render
/// into" and "copy out" usages; "sample from shaders", and the swizzled
/// pixel format that goes with it, only when `direct_render` asks for
/// them. The camera starts inactive, restricted to `layer`, ordered before
/// the primary camera, clearing to transparent black.
pub fn create_render_texture(
    width: u32,
    height: u32,
    layer: u8,
    direct_render: bool,
    handles: &mut HandleAlloc,
) -> (r: (RenderTarget, CameraInfo))
    requires
        old(handles).next_id < u64::MAX - 1,
    ensures
        r.0 == (RenderTarget {
            id: old(handles).next_id,
            width,
            height,
            format: if direct_render {
                TextureFormat::Bgra8UnormSrgb
            } else {
                TextureFormat::Rgba8UnormSrgb
            },
            render_attachment: true,
            copy_src: true,
            texture_binding: direct_render,
        }),
        r.1 == (CameraInfo {
            id: (old(handles).next_id + 1) as u64,
            order: -1i32,
            layer,
            active: false,
            clear_transparent: true,
        }),
        final(handles).next_id == old(handles).next_id + 2,
{
    let target = RenderTarget {
        id: handles.fresh(),
        width,
        height,
        format: if direct_render {
            TextureFormat::Bgra8UnormSrgb
        } else {
            TextureFormat::Rgba8UnormSrgb
        },
        render_attachment: true,
        copy_src: true,
        texture_binding: direct_render,
    };
    let camera = CameraInfo {
        id: handles.fresh(),
        order: -1,
        layer,
        active: false,
        clear_transparent: true,
    };
    (target, camera)
}

} // verus!
