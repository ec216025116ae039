//! One render-to-texture task: its lifecycle stage, its owned render
//! target, camera and capture entity, and the captured bytes.

use crate::fetch::ImageExportBundle;
use crate::target::{create_render_texture, CameraInfo, HandleAlloc, RenderTarget};
use vstd::prelude::*;

verus! {

/// Lifecycle stage of a task. Linear, except that `ReadyForRendering` is
/// re-entered when a reusable task is told to render again.
#[derive(Clone, Copy, PartialEq, Eq, Structural, Debug)]
pub enum RenderToTextureTaskStage {
    /// Created; camera exists but is inactive, no capture entity yet.
    Initialized,
    /// Camera active, capture entity spawned; waiting for the channel to
    /// deliver the captured bytes.
    ReadyForRendering,
    /// Bytes arrived from the channel; compression, if requested, has not
    /// happened yet.
    RenderedResultCopiedBack,
    /// Done: the data is available to consumers.
    ReadyForReading,
    /// A consumer took the result without finishing the task.
    ResultReceived,
    /// Fully consumed; the table evicts the task on the next tick.
    TaskDone,
}

impl Default for RenderToTextureTaskStage {
    /// The lifecycle starts at `Initialized`.
    fn default() -> (s: Self)
        ensures
            s == RenderToTextureTaskStage::Initialized,
    {
        RenderToTextureTaskStage::Initialized
    }
}

/// A named capture task. The task is the sole owner of its render target,
/// its offscreen camera and, while rendering, its capture entity; the host
/// resolves their opaque handles to engine entities.
pub struct RenderToTextureTask {
    /// Unique key of the task in the table.
    pub name: String,
    /// Width of the capture in pixels.
    pub width: u32,
    /// Height of the capture in pixels.
    pub height: u32,
    /// Whether the finished raw bytes are to be recompressed into a
    /// GPU-native block-compressed texture with mipmaps.
    pub should_compress: bool,
    /// The texture the task renders into.
    pub target: RenderTarget,
    pub stage: RenderToTextureTaskStage,
    /// The offscreen camera; `None` once freed.
    pub camera: Option<CameraInfo>,
    /// The visibility layer the capture renders.
    pub layer: u8,
    /// Whether the raw bytes use sRGB encoding.
    pub is_srgb: bool,
    /// The capture entity; `None` until rendering starts and once freed.
    pub bundle: Option<ImageExportBundle>,
    /// The captured bytes, once delivered; replaced by the compressed blob
    /// when compression is requested.
    pub data: Vec<u8>,
    /// Whether the task may be told to render again after one capture. If
    /// not, its camera and capture entity are freed eagerly.
    pub allow_changes: bool,
}

/// Spec-level value of a task.
pub ghost struct TaskView {
    pub name: Seq<char>,
    pub width: u32,
    pub height: u32,
    pub should_compress: bool,
    pub target: RenderTarget,
    pub stage: RenderToTextureTaskStage,
    pub camera: Option<CameraInfo>,
    pub layer: u8,
    pub is_srgb: bool,
    pub bundle: Option<ImageExportBundle>,
    pub data: Seq<u8>,
    pub allow_changes: bool,
}

impl View for RenderToTextureTask {
    type V = TaskView;

    open spec fn view(&self) -> TaskView {
        TaskView {
            name: self.name@,
            width: self.width,
            height: self.height,
            should_compress: self.should_compress,
            target: self.target,
            stage: self.stage,
            camera: self.camera,
            layer: self.layer,
            is_srgb: self.is_srgb,
            bundle: self.bundle,
            data: self.data@,
            allow_changes: self.allow_changes,
        }
    }
}

/// A task is in flight while the pipeline works on its capture: from the
/// moment its camera renders until its result is ready for consumers.
/// Back-pressure admits at most one such task at a time.
pub open spec fn in_flight(t: TaskView) -> bool {
    t.stage == RenderToTextureTaskStage::ReadyForRendering || t.stage
        == RenderToTextureTaskStage::RenderedResultCopiedBack
}

/// Structural soundness of one task: while the pipeline can still touch
/// the camera or the capture entity, they exist.
pub open spec fn task_wf(t: TaskView) -> bool {
    &&& (t.stage == RenderToTextureTaskStage::Initialized ==> t.camera is Some)
    &&& (in_flight(t) ==> t.camera is Some && t.bundle is Some)
}

/// The value of a freshly registered task: lifecycle at `Initialized`, no
/// capture entity, no data; its render target and inactive camera carry
/// the two handles starting at `base_id`. The single supported visibility
/// layer is layer 1, captures are sRGB-encoded, and the target is not
/// sampled directly.
pub open spec fn initial_task(
    name: Seq<char>,
    width: u32,
    height: u32,
    should_compress: bool,
    allow_changes: bool,
    base_id: u64,
) -> TaskView {
    TaskView {
        name,
        width,
        height,
        should_compress,
        target: RenderTarget {
            id: base_id,
            width,
            height,
            format: crate::target::TextureFormat::Rgba8UnormSrgb,
            render_attachment: true,
            copy_src: true,
            texture_binding: false,
        },
        stage: RenderToTextureTaskStage::Initialized,
        camera: Some(
            CameraInfo {
                id: (base_id + 1) as u64,
                order: -1i32,
                layer: 1u8,
                active: false,
                clear_transparent: true,
            },
        ),
        layer: 1u8,
        is_srgb: true,
        bundle: None,
        data: Seq::empty(),
        allow_changes,
    }
}

/// The handles a task releases when freed, in release order: capture
/// entity first, then the camera.
pub open spec fn released_handles(t: TaskView) -> Seq<u64> {
    let bundle_part: Seq<u64> = match t.bundle {
        Some(b) => seq![b.id],
        None => seq![],
    };
    let camera_part: Seq<u64> = match t.camera {
        Some(c) => seq![c.id],
        None => seq![],
    };
    bundle_part + camera_part
}

impl RenderToTextureTask {
    /// Creates a task: allocates its render target and offscreen camera
    /// (on the single supported visibility layer, not directly sampled)
    /// and starts the lifecycle at `Initialized`, with no capture entity
    /// and no data.
    pub fn new(
        name: String,
        width: u32,
        height: u32,
        should_compress: bool,
        allow_changes: bool,
        handles: &mut HandleAlloc,
    ) -> (t: Self)
        requires
            old(handles).next_id < u64::MAX - 1,
        ensures
            t@ == initial_task(
                name@,
                width,
                height,
                should_compress,
                allow_changes,
                old(handles).next_id,
            ),
            final(handles).next_id == old(handles).next_id + 2,
            task_wf(t@),
    {
        let layer: u8 = 1;
        let (target, camera) = create_render_texture(width, height, layer, false, handles);
        RenderToTextureTask {
            name,
            width,
            height,
            should_compress,
            target,
            stage: RenderToTextureTaskStage::Initialized,
            camera: Some(camera),
            layer,
            is_srgb: true,
            bundle: None,
            data: Vec::new(),
            allow_changes,
        }
    }

    /// The visibility layer the task's capture renders.
    pub fn get_layer(&self) -> (layer: u8)
        ensures
            layer == self@.layer,
    {
        self.layer
    }

    /// The capture size in pixels, width then height.
    pub fn size(&self) -> (size: (u32, u32))
        ensures
            size.0 == self@.width,
            size.1 == self@.height,
    {
        (self.width, self.height)
    }

    /// Whether the task's data is available to consumers.
    pub fn ready(&self) -> (r: bool)
        ensures
            r == (self@.stage == RenderToTextureTaskStage::ReadyForReading),
    {
        self.stage == RenderToTextureTaskStage::ReadyForReading
    }

    /// Releases the task's host-side resources, in a fixed order: the
    /// capture entity first, then the camera. Only a task whose capture is
    /// over may be freed. Returns the handles the host must despawn.
    pub fn free(&mut self) -> (released: Vec<u64>)
        requires
            old(self)@.stage == RenderToTextureTaskStage::TaskDone || old(self)@.stage
                == RenderToTextureTaskStage::ReadyForReading || old(self)@.stage
                == RenderToTextureTaskStage::ResultReceived,
        ensures
            final(self)@ == (TaskView { camera: None, bundle: None, ..old(self)@ }),
            released@ == released_handles(old(self)@),
    {
        let mut released: Vec<u64> = Vec::new();
        if let Some(b) = self.bundle {
            released.push(b.id);
            self.bundle = None;
        }
        if let Some(c) = self.camera {
            released.push(c.id);
            self.camera = None;
        }
        proof {
            assert(released@ =~= released_handles(old(self)@));
        }
        released
    }

    /// Sends a reusable task around the lifecycle again: back to waiting
    /// for a capture. The camera and capture entity must still exist, so a
    /// task freed after its one allowed capture cannot be re-rendered.
    pub fn rerender(&mut self)
        requires
            old(self)@.camera is Some,
            old(self)@.bundle is Some,
        ensures
            final(self)@ == (TaskView {
                stage: RenderToTextureTaskStage::ReadyForRendering,
                ..old(self)@
            }),
    {
        self.stage = RenderToTextureTaskStage::ReadyForRendering;
    }
}

} // verus!
