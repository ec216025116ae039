//! The task table and the per-tick state machine, driven end to end with
//! a simulated capture for each frame.

use render_to_texture::target::HandleAlloc;
use render_to_texture::{
    create_render_texture, store_in_img, sync_images, update_render_to_texture,
    ExtractableImages, RenderToTextureTaskStage, RenderToTextureTasks,
};

fn solid_buffer(color: [u8; 4], width: usize, height: usize, stride: usize) -> Vec<u8> {
    let mut buf: Vec<u8> = Vec::new();
    for _row in 0..height {
        let mut written: usize = 0;
        while written < stride {
            buf.push(color[written % 4]);
            written += 1;
        }
    }
    assert_eq!(buf.len(), height * stride);
    buf
}

/// Runs one simulated frame: update tick, boundary sync, GPU capture of a
/// solid color, and the boundary sync that delivers it.
fn frame(
    tasks: &mut RenderToTextureTasks,
    main_side: &mut ExtractableImages,
    render_side: &mut ExtractableImages,
    color: [u8; 4],
    width: usize,
    height: usize,
) -> Vec<u64> {
    let released = update_render_to_texture(tasks, main_side);
    sync_images(render_side, main_side);
    let mapped = solid_buffer(color, width, height, 4 * width);
    store_in_img(&mapped, 4 * width, 4 * width, height, render_side);
    sync_images(render_side, main_side);
    released
}

#[test]
fn create_render_texture_describes_target_and_camera() {
    let mut handles = HandleAlloc::new();
    let (target, camera) = create_render_texture(32, 16, 1, false, &mut handles);
    assert_eq!(target.id, 0);
    assert_eq!(target.width, 32);
    assert_eq!(target.height, 16);
    assert!(target.render_attachment);
    assert!(target.copy_src);
    assert!(!target.texture_binding);
    assert_eq!(camera.id, 1);
    assert_eq!(camera.order, -1);
    assert_eq!(camera.layer, 1);
    assert!(!camera.active);
    assert!(camera.clear_transparent);
    assert_eq!(handles.next_id, 2);

    let (direct, _) = create_render_texture(8, 8, 2, true, &mut handles);
    assert!(direct.texture_binding);
}

#[test]
fn add_registers_an_initialized_task() {
    let mut tasks = RenderToTextureTasks::new();
    tasks.add("t1".to_string(), 64, 48, false, false);
    let t = tasks.get("t1").expect("registered task");
    assert_eq!(t.stage, RenderToTextureTaskStage::Initialized);
    assert_eq!(t.size(), (64, 48));
    assert_eq!(t.get_layer(), 1);
    assert!(!t.ready());
    assert!(t.camera.is_some());
    assert!(t.bundle.is_none());
    assert!(tasks.get("other").is_none());
}

#[test]
fn tick_starts_one_task_and_requests_refresh() {
    let mut tasks = RenderToTextureTasks::new();
    let mut main_side = ExtractableImages::new();
    tasks.add("t1".to_string(), 4, 4, false, false);
    let released = update_render_to_texture(&mut tasks, &mut main_side);
    assert_eq!(released, Vec::<u64>::new());
    let t = tasks.get("t1").unwrap();
    assert_eq!(t.stage, RenderToTextureTaskStage::ReadyForRendering);
    assert!(t.camera.as_ref().unwrap().active);
    let bundle = t.bundle.as_ref().unwrap();
    assert_eq!(bundle.source, t.target.id);
    assert!(main_side.refresh);
}

#[test]
fn single_capture_reads_back_solid_color() {
    let mut tasks = RenderToTextureTasks::new();
    let mut main_side = ExtractableImages::new();
    let mut render_side = ExtractableImages::new();
    tasks.add("t1".to_string(), 64, 64, false, false);

    frame(&mut tasks, &mut main_side, &mut render_side, [10, 20, 30, 255], 64, 64);
    assert_eq!(
        tasks.get("t1").unwrap().stage,
        RenderToTextureTaskStage::ReadyForRendering
    );

    // The captured bytes arrived at the update side; the next tick hands
    // them to the task and finishes it.
    let released = update_render_to_texture(&mut tasks, &mut main_side);
    let t = tasks.get("t1").unwrap();
    assert_eq!(t.stage, RenderToTextureTaskStage::ReadyForReading);
    assert!(t.ready());
    // Single-use: capture entity (handle 2) and camera (handle 1) are
    // released, capture entity first.
    assert_eq!(released, vec![2, 1]);
    assert!(t.camera.is_none());
    assert!(t.bundle.is_none());

    let img = tasks.image("t1", true).expect("finished image");
    assert_eq!(img.width, 64);
    assert_eq!(img.height, 64);
    assert!(!img.compressed);
    assert!(img.is_srgb);
    assert_eq!(img.data.len(), 64 * 64 * 4);
    for (k, byte) in img.data.iter().enumerate() {
        assert_eq!(*byte, [10u8, 20, 30, 255][k % 4]);
    }

    assert_eq!(
        tasks.get("t1").unwrap().stage,
        RenderToTextureTaskStage::TaskDone
    );
    // Eviction on the next tick.
    update_render_to_texture(&mut tasks, &mut main_side);
    assert!(tasks.get("t1").is_none());
    assert_eq!(tasks.tasks.len(), 0);
}

#[test]
fn zero_sized_task_yields_empty_buffer() {
    let mut tasks = RenderToTextureTasks::new();
    let mut main_side = ExtractableImages::new();
    let mut render_side = ExtractableImages::new();
    tasks.add("t1".to_string(), 0, 0, false, false);
    frame(&mut tasks, &mut main_side, &mut render_side, [0, 0, 0, 0], 0, 0);
    // An empty capture is "no new data": the task keeps waiting, and
    // nothing crashes in the depadding step.
    assert_eq!(
        tasks.get("t1").unwrap().stage,
        RenderToTextureTaskStage::ReadyForRendering
    );
    assert_eq!(main_side.raw, Vec::<u8>::new());
}

#[test]
fn second_task_waits_until_first_is_done() {
    let mut tasks = RenderToTextureTasks::new();
    let mut main_side = ExtractableImages::new();
    let mut render_side = ExtractableImages::new();
    tasks.add("t1".to_string(), 2, 2, false, false);
    tasks.add("t2".to_string(), 2, 2, false, false);

    frame(&mut tasks, &mut main_side, &mut render_side, [1, 2, 3, 4], 2, 2);
    // Only one capture at a time: the first task renders, the second
    // stays registered.
    assert_eq!(
        tasks.get("t1").unwrap().stage,
        RenderToTextureTaskStage::ReadyForRendering
    );
    assert_eq!(
        tasks.get("t2").unwrap().stage,
        RenderToTextureTaskStage::Initialized
    );

    // Once the first task's capture is delivered and settles, the second
    // may start within the same tick.
    update_render_to_texture(&mut tasks, &mut main_side);
    assert_eq!(
        tasks.get("t1").unwrap().stage,
        RenderToTextureTaskStage::ReadyForReading
    );
    assert_eq!(
        tasks.get("t2").unwrap().stage,
        RenderToTextureTaskStage::ReadyForRendering
    );
}

#[test]
fn read_hands_out_bytes_once() {
    let mut tasks = RenderToTextureTasks::new();
    let mut main_side = ExtractableImages::new();
    let mut render_side = ExtractableImages::new();
    tasks.add("t1".to_string(), 1, 1, false, false);
    frame(&mut tasks, &mut main_side, &mut render_side, [9, 8, 7, 6], 1, 1);
    update_render_to_texture(&mut tasks, &mut main_side);

    assert_eq!(tasks.read("missing"), None);
    let bytes = tasks.read("t1").expect("ready bytes");
    assert_eq!(bytes, vec![9, 8, 7, 6]);
    assert_eq!(
        tasks.get("t1").unwrap().stage,
        RenderToTextureTaskStage::ResultReceived
    );
    // The result was received: nothing more to read.
    assert_eq!(tasks.read("t1"), None);
}

#[test]
fn unfinished_image_leaves_bytes_in_place() {
    let mut tasks = RenderToTextureTasks::new();
    let mut main_side = ExtractableImages::new();
    let mut render_side = ExtractableImages::new();
    tasks.add("t1".to_string(), 1, 1, false, true);
    frame(&mut tasks, &mut main_side, &mut render_side, [5, 5, 5, 5], 1, 1);
    update_render_to_texture(&mut tasks, &mut main_side);

    let img = tasks.image("t1", false).expect("ready image");
    assert_eq!(img.data, vec![5, 5, 5, 5]);
    let t = tasks.get("t1").unwrap();
    assert_eq!(t.stage, RenderToTextureTaskStage::ResultReceived);
    // The described bytes stay with the task until it renders again.
    assert_eq!(t.data, img.data);
    // The result was already received: a repeated query returns nothing
    // and changes nothing.
    assert!(tasks.image("t1", false).is_none());
    assert_eq!(tasks.get("t1").unwrap().data, img.data);
}

#[test]
fn rerender_runs_a_second_capture() {
    let mut tasks = RenderToTextureTasks::new();
    let mut main_side = ExtractableImages::new();
    let mut render_side = ExtractableImages::new();
    tasks.add("t1".to_string(), 2, 2, false, true);

    frame(&mut tasks, &mut main_side, &mut render_side, [1, 1, 1, 1], 2, 2);
    let released = update_render_to_texture(&mut tasks, &mut main_side);
    // A reusable task keeps its camera and capture entity.
    assert_eq!(released, Vec::<u64>::new());
    let t = tasks.get("t1").unwrap();
    assert_eq!(t.stage, RenderToTextureTaskStage::ReadyForReading);
    assert!(t.camera.is_some());
    assert!(!t.camera.as_ref().unwrap().active);
    assert!(t.bundle.is_some());

    let first = tasks.read("t1").expect("first capture");
    assert_eq!(first, solid_buffer([1, 1, 1, 1], 2, 2, 8));

    // Around the lifecycle again, with new pixels.
    tasks.get_mut("t1").expect("reusable task").rerender();
    assert_eq!(
        tasks.get("t1").unwrap().stage,
        RenderToTextureTaskStage::ReadyForRendering
    );
    frame(&mut tasks, &mut main_side, &mut render_side, [2, 3, 4, 5], 2, 2);
    update_render_to_texture(&mut tasks, &mut main_side);
    let second = tasks.read("t1").expect("second capture");
    assert_eq!(second, solid_buffer([2, 3, 4, 5], 2, 2, 8));
    assert_ne!(first, second);
}

#[test]
fn compressed_task_waits_for_codec_output() {
    let mut tasks = RenderToTextureTasks::new();
    let mut main_side = ExtractableImages::new();
    let mut render_side = ExtractableImages::new();
    tasks.add("t1".to_string(), 2, 2, true, false);
    frame(&mut tasks, &mut main_side, &mut render_side, [7, 7, 7, 7], 2, 2);
    update_render_to_texture(&mut tasks, &mut main_side);

    // The capture arrived; the camera stopped; the task waits for the
    // codec before its result is ready.
    let t = tasks.get("t1").unwrap();
    assert_eq!(t.stage, RenderToTextureTaskStage::RenderedResultCopiedBack);
    assert!(!t.camera.as_ref().unwrap().active);
    assert_eq!(t.data, solid_buffer([7, 7, 7, 7], 2, 2, 8));
    assert!(tasks.image("t1", false).is_none());

    // The codec's output replaces the raw bytes; the single-use task
    // releases its capture entity (handle 2) then its camera (handle 1).
    let blob: Vec<u8> = vec![200, 100, 50];
    let released = tasks.store_compressed("t1", blob.clone());
    assert_eq!(released, vec![2, 1]);
    let img = tasks.image("t1", true).expect("compressed image");
    assert!(img.compressed);
    assert_eq!(img.data, blob);
}

#[test]
fn store_compressed_ignores_tasks_not_waiting() {
    let mut tasks = RenderToTextureTasks::new();
    tasks.add("t1".to_string(), 2, 2, false, false);
    let released = tasks.store_compressed("t1", vec![1, 2, 3]);
    assert_eq!(released, Vec::<u64>::new());
    assert_eq!(
        tasks.get("t1").unwrap().stage,
        RenderToTextureTaskStage::Initialized
    );
    assert_eq!(tasks.store_compressed("missing", vec![1]), Vec::<u64>::new());
}

#[test]
fn setup_supported_formats_records_the_bits() {
    let mut tasks = RenderToTextureTasks::new();
    render_to_texture::render::setup_supported_formats(&mut tasks, 0b101);
    assert_eq!(tasks.supported_compressed_formats, 0b101);
}

#[test]
fn distinct_names_register_side_by_side() {
    let mut tasks = RenderToTextureTasks::new();
    tasks.add("t1".to_string(), 1, 1, false, false);
    // A second registration must use a fresh name; the first task stays
    // as it was.
    tasks.add("t2".to_string(), 2, 2, false, false);
    assert_eq!(tasks.tasks.len(), 2);
    assert_eq!(tasks.get("t1").unwrap().size(), (1, 1));
    assert_eq!(tasks.get("t2").unwrap().size(), (2, 2));
}
