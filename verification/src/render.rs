//! The task table: named render-to-texture tasks, the registration and
//! query API, and the hook for the compression codec's output. The
//! per-tick state machine that advances the table lives beside it.

use crate::target::HandleAlloc;
use crate::task::{
    released_handles, RenderToTextureTask, RenderToTextureTaskStage, TaskView,
};
use vstd::prelude::*;
use vstd::std_specs::vec::vec_index_mut;

verus! {

/// The spec-level values of a sequence of tasks.
pub open spec fn views(s: Seq<RenderToTextureTask>) -> Seq<TaskView> {
    s.map_values(|t: RenderToTextureTask| t@)
}

/// First index of the task named `name`, or -1 when no task has that name.
pub open spec fn find_task(s: Seq<TaskView>, name: Seq<char>) -> int
    decreases s.len(),
{
    if s.len() == 0 {
        -1
    } else if s[0].name == name {
        0
    } else {
        let rest = find_task(s.drop_first(), name);
        if rest < 0 {
            -1
        } else {
            rest + 1
        }
    }
}

/// What `find_task` finds: the first index whose task carries the name,
/// and -1 exactly when the name is absent.
pub proof fn lemma_find_task(s: Seq<TaskView>, name: Seq<char>)
    ensures
        -1 <= find_task(s, name) < s.len(),
        find_task(s, name) >= 0 ==> s[find_task(s, name)].name == name,
        find_task(s, name) >= 0 ==> forall|j: int|
            0 <= j < find_task(s, name) ==> s[j].name != name,
        find_task(s, name) == -1 ==> forall|j: int| 0 <= j < s.len() ==> s[j].name != name,
    decreases s.len(),
{
    if s.len() > 0 && s[0].name != name {
        lemma_find_task(s.drop_first(), name);
        assert forall|j: int| 1 <= j < s.len() implies s[j] == s.drop_first()[j - 1] by {}
    }
}

/// What a consumer gets back for a finished task: the capture size and the
/// stored bytes, together with how to interpret them — raw sRGB-encoded
/// RGBA rows, or the block-compressed mip-mapped blob the codec produced.
pub struct DisplayableImage {
    pub width: u32,
    pub height: u32,
    /// Whether `data` is the codec's block-compressed blob rather than raw
    /// RGBA bytes.
    pub compressed: bool,
    /// Whether the pixel data uses sRGB encoding.
    pub is_srgb: bool,
    pub data: Vec<u8>,
}

/// Spec-level value of a displayable image.
pub ghost struct DisplayableImageView {
    pub width: u32,
    pub height: u32,
    pub compressed: bool,
    pub is_srgb: bool,
    pub data: Seq<u8>,
}

impl View for DisplayableImage {
    type V = DisplayableImageView;

    open spec fn view(&self) -> DisplayableImageView {
        DisplayableImageView {
            width: self.width,
            height: self.height,
            compressed: self.compressed,
            is_srgb: self.is_srgb,
            data: self.data@,
        }
    }
}

/// Marker tying a host-side entity to the task whose texture it shows.
pub struct TaskResource(pub String);

/// The table of all live capture tasks, keyed by unique name, together
/// with the handle allocator for host-side resources and the set of
/// compressed texture formats the host's GPU can consume (a bit per
/// format, filled in from the host at startup).
pub struct RenderToTextureTasks {
    pub tasks: Vec<RenderToTextureTask>,
    pub supported_compressed_formats: u64,
    pub handles: HandleAlloc,
}

/// Spec-level value of the task table.
pub ghost struct TasksView {
    pub tasks: Seq<TaskView>,
    pub supported_compressed_formats: u64,
    pub next_id: u64,
}

impl View for RenderToTextureTasks {
    type V = TasksView;

    open spec fn view(&self) -> TasksView {
        TasksView {
            tasks: views(self.tasks@),
            supported_compressed_formats: self.supported_compressed_formats,
            next_id: self.handles.next_id,
        }
    }
}

impl Default for RenderToTextureTasks {
    /// Same as `new`: an empty table.
    fn default() -> (r: Self)
        ensures
            r@.tasks.len() == 0,
            r@.supported_compressed_formats == 0,
            r@.next_id == 0,
    {
        RenderToTextureTasks::new()
    }
}

/// Copies a byte buffer.
fn clone_bytes(v: &Vec<u8>) -> (r: Vec<u8>)
    ensures
        r@ == v@,
{
    let r = v.clone();
    proof {
        assert(r@ =~= v@);
    }
    r
}

impl RenderToTextureTasks {
    /// An empty table: no tasks, no known compressed formats, no handle
    /// given out yet.
    pub fn new() -> (r: Self)
        ensures
            r@.tasks.len() == 0,
            r@.supported_compressed_formats == 0,
            r@.next_id == 0,
    {
        RenderToTextureTasks {
            tasks: Vec::new(),
            supported_compressed_formats: 0,
            handles: HandleAlloc::new(),
        }
    }

    /// First index of the task named `name`, if any.
    fn index_of(&self, name: &str) -> (r: Option<usize>)
        ensures
            r matches Some(i) ==> find_task(self@.tasks, name@) == i,
            r is None ==> find_task(self@.tasks, name@) == -1,
    {
        let key: String = name.to_owned();
        let n = self.tasks.len();
        let mut i: usize = 0;
        while i < n
            invariant
                n == self.tasks.len(),
                i <= n,
                key@ == name@,
                forall|j: int| 0 <= j < i ==> self@.tasks[j].name != name@,
            decreases n - i,
        {
            if self.tasks[i].name == key {
                proof {
                    lemma_find_task(self@.tasks, name@);
                    let s = self@.tasks;
                    let f = find_task(s, name@);
                    if f == -1 {
                        assert(s[i as int].name != name@);
                    }
                    if 0 <= f < i as int {
                        assert(s[f].name != name@);
                    }
                    if f > i as int {
                        assert(s[i as int].name != name@);
                    }
                }
                return Some(i);
            }
            i = i + 1;
        }
        proof {
            lemma_find_task(self@.tasks, name@);
        }
        None
    }

    /// Registers a task under a fresh name. The capture is `width` by
    /// `height` pixels; `should_compress` asks for recompression of the
    /// finished bytes into a GPU-native compressed texture with mipmaps;
    /// `allow_changes` keeps the task's resources alive after one capture
    /// so it can be told to render again. Registering a name that is
    /// already taken is a contract violation.
    pub fn add(
        &mut self,
        name: String,
        width: u32,
        height: u32,
        should_compress: bool,
        allow_changes: bool,
    )
        requires
            find_task(old(self)@.tasks, name@) == -1,
            old(self)@.next_id < u64::MAX - 1,
        ensures
            final(self)@.tasks == old(self)@.tasks.push(
                crate::task::initial_task(
                    name@,
                    width,
                    height,
                    should_compress,
                    allow_changes,
                    old(self)@.next_id,
                ),
            ),
            final(self)@.next_id == old(self)@.next_id + 2,
            final(self)@.supported_compressed_formats == old(
                self,
            )@.supported_compressed_formats,
    {
        let ghost nm = name@;
        let task = RenderToTextureTask::new(
            name,
            width,
            height,
            should_compress,
            allow_changes,
            &mut self.handles,
        );
        self.tasks.push(task);
        proof {
            assert(final(self)@.tasks =~= old(self)@.tasks.push(
                crate::task::initial_task(
                    nm,
                    width,
                    height,
                    should_compress,
                    allow_changes,
                    old(self)@.next_id,
                ),
            ));
        }
    }

    /// The task named `name`, for inspection.
    pub fn get(&self, name: &str) -> (r: Option<&RenderToTextureTask>)
        ensures
            ({
                let i = find_task(self@.tasks, name@);
                if i >= 0 {
                    r matches Some(t) && t@ == self@.tasks[i]
                } else {
                    r is None
                }
            }),
    {
        proof {
            lemma_find_task(self@.tasks, name@);
        }
        match self.index_of(name) {
            Some(i) => Some(&self.tasks[i]),
            None => None,
        }
    }

    /// The task named `name`, for mutation — in particular for telling a
    /// reusable task to render again.
    pub fn get_mut(&mut self, name: &str) -> (r: Option<&mut RenderToTextureTask>)
        ensures
            ({
                let s = old(self)@.tasks;
                let i = find_task(s, name@);
                if i >= 0 {
                    &&& r is Some
                    &&& (*r.unwrap())@ == s[i]
                    &&& final(self)@.tasks.len() == s.len()
                    &&& final(self)@.tasks[i] == (*final(r.unwrap()))@
                    &&& forall|j: int|
                        0 <= j < s.len() && j != i ==> final(self)@.tasks[j] == s[j]
                } else {
                    r is None && final(self)@ == old(self)@
                }
            }),
            final(self)@.supported_compressed_formats == old(
                self,
            )@.supported_compressed_formats,
            final(self)@.next_id == old(self)@.next_id,
    {
        proof {
            lemma_find_task(self@.tasks, name@);
        }
        match self.index_of(name) {
            Some(i) => Some(vec_index_mut(&mut self.tasks, i)),
            None => None,
        }
    }

    /// Takes the raw bytes of a finished task. Returns the bytes only when
    /// the task exists and its data is ready; the result then counts as
    /// received. The task is evicted only once it is finished — by an
    /// `image` query with `finish` set — or cycled again if reusable.
    pub fn read(&mut self, name: &str) -> (r: Option<Vec<u8>>)
        ensures
            ({
                let s = old(self)@.tasks;
                let i = find_task(s, name@);
                if i >= 0 && s[i].stage == RenderToTextureTaskStage::ReadyForReading {
                    &&& r matches Some(bytes) && bytes@ == s[i].data
                    &&& final(self)@.tasks == s.update(
                        i,
                        (TaskView { stage: RenderToTextureTaskStage::ResultReceived, ..s[i] }),
                    )
                } else {
                    r is None && final(self)@ == old(self)@
                }
            }),
            final(self)@.supported_compressed_formats == old(
                self,
            )@.supported_compressed_formats,
            final(self)@.next_id == old(self)@.next_id,
    {
        proof {
            lemma_find_task(self@.tasks, name@);
        }
        match self.index_of(name) {
            Some(i) => {
                let t = vec_index_mut(&mut self.tasks, i);
                if !matches!(t.stage, RenderToTextureTaskStage::ReadyForReading) {
                    proof {
                        assert(final(self)@.tasks =~= old(self)@.tasks);
                    }
                    return None;
                }
                t.stage = RenderToTextureTaskStage::ResultReceived;
                let bytes = clone_bytes(&t.data);
                proof {
                    assert(final(self)@.tasks =~= old(self)@.tasks.update(
                        i as int,
                        (TaskView {
                            stage: RenderToTextureTaskStage::ResultReceived,
                            ..old(self)@.tasks[i as int]
                        }),
                    ));
                }
                Some(bytes)
            },
            None => None,
        }
    }

    /// A displayable description of a finished task's result: the stored
    /// bytes together with size and interpretation. Only available while
    /// the task's data is ready; the task then counts as received, or as
    /// fully done when `finish` is set.
    pub fn image(&mut self, name: &str, finish: bool) -> (r: Option<DisplayableImage>)
        ensures
            ({
                let s = old(self)@.tasks;
                let i = find_task(s, name@);
                if i >= 0 && s[i].stage == RenderToTextureTaskStage::ReadyForReading {
                    &&& r matches Some(img) && img@ == (DisplayableImageView {
                        width: s[i].width,
                        height: s[i].height,
                        compressed: s[i].should_compress,
                        is_srgb: s[i].is_srgb,
                        data: s[i].data,
                    })
                    &&& final(self)@.tasks == s.update(
                        i,
                        (TaskView {
                            stage: if finish {
                                RenderToTextureTaskStage::TaskDone
                            } else {
                                RenderToTextureTaskStage::ResultReceived
                            },
                            ..s[i]
                        }),
                    )
                } else {
                    r is None && final(self)@ == old(self)@
                }
            }),
            final(self)@.supported_compressed_formats == old(
                self,
            )@.supported_compressed_formats,
            final(self)@.next_id == old(self)@.next_id,
    {
        proof {
            lemma_find_task(self@.tasks, name@);
        }
        match self.index_of(name) {
            Some(i) => {
                let t = vec_index_mut(&mut self.tasks, i);
                if !matches!(t.stage, RenderToTextureTaskStage::ReadyForReading) {
                    proof {
                        assert(final(self)@.tasks =~= old(self)@.tasks);
                    }
                    return None;
                }
                t.stage = if finish {
                    RenderToTextureTaskStage::TaskDone
                } else {
                    RenderToTextureTaskStage::ResultReceived
                };
                let img = DisplayableImage {
                    width: t.width,
                    height: t.height,
                    compressed: t.should_compress,
                    is_srgb: t.is_srgb,
                    data: clone_bytes(&t.data),
                };
                proof {
                    assert(final(self)@.tasks =~= old(self)@.tasks.update(
                        i as int,
                        (TaskView {
                            stage: if finish {
                                RenderToTextureTaskStage::TaskDone
                            } else {
                                RenderToTextureTaskStage::ResultReceived
                            },
                            ..old(self)@.tasks[i as int]
                        }),
                    ));
                }
                Some(img)
            },
            None => None,
        }
    }

    /// Hands a compressed task the codec's output. The task must be
    /// waiting for compression — its raw bytes delivered, compression
    /// requested; the blob becomes the task's data and the task's result
    /// is ready. A task that may not be changed any more releases its
    /// camera and capture entity here; the returned handles are for the
    /// host to despawn. Any other call leaves the table untouched.
    pub fn store_compressed(&mut self, name: &str, compressed: Vec<u8>) -> (released: Vec<
        u64,
    >)
        ensures
            ({
                let s = old(self)@.tasks;
                let i = find_task(s, name@);
                if i >= 0 && s[i].stage == RenderToTextureTaskStage::RenderedResultCopiedBack
                    && s[i].should_compress {
                    let done = TaskView {
                        stage: RenderToTextureTaskStage::ReadyForReading,
                        data: compressed@,
                        ..s[i]
                    };
                    if s[i].allow_changes {
                        &&& final(self)@.tasks == s.update(i, done)
                        &&& released@ == Seq::<u64>::empty()
                    } else {
                        &&& final(self)@.tasks == s.update(
                            i,
                            (TaskView { camera: None, bundle: None, ..done }),
                        )
                        &&& released@ == released_handles(done)
                    }
                } else {
                    final(self)@ == old(self)@ && released@ == Seq::<u64>::empty()
                }
            }),
            final(self)@.supported_compressed_formats == old(
                self,
            )@.supported_compressed_formats,
            final(self)@.next_id == old(self)@.next_id,
    {
        proof {
            lemma_find_task(self@.tasks, name@);
        }
        match self.index_of(name) {
            Some(i) => {
                let t = vec_index_mut(&mut self.tasks, i);
                if !(matches!(t.stage, RenderToTextureTaskStage::RenderedResultCopiedBack)
                    && t.should_compress) {
                    proof {
                        assert(final(self)@.tasks =~= old(self)@.tasks);
                    }
                    return Vec::new();
                }
                t.data = compressed;
                t.stage = RenderToTextureTaskStage::ReadyForReading;
                let released: Vec<u64> = if !t.allow_changes {
                    t.free()
                } else {
                    Vec::new()
                };
                proof {
                    let s = old(self)@.tasks;
                    let done = TaskView {
                        stage: RenderToTextureTaskStage::ReadyForReading,
                        data: compressed@,
                        ..s[i as int]
                    };
                    if s[i as int].allow_changes {
                        assert(final(self)@.tasks =~= s.update(i as int, done));
                    } else {
                        assert(final(self)@.tasks =~= s.update(
                            i as int,
                            (TaskView { camera: None, bundle: None, ..done }),
                        ));
                    }
                }
                released
            },
            None => Vec::new(),
        }
    }
}

/// Records which compressed texture formats the host's GPU supports, one
/// bit per format, as reported by the render device at startup.
pub fn setup_supported_formats(tasks: &mut RenderToTextureTasks, formats: u64)
    ensures
        final(tasks)@ == (TasksView { supported_compressed_formats: formats, ..old(tasks)@ }),
{
    tasks.supported_compressed_formats = formats;
}

} // verus!
