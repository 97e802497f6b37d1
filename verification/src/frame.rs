//! The state of the frame that is being built, as far as image primitives
//! read it and add to it.

use vstd::prelude::*;
use crate::api::ApiImageKey;
use crate::gpu_cache::GpuCache;
use crate::render_graph::{
    Dependency, ImageRequest, RenderTask, RenderTaskGraphBuilder, RenderTaskId, RenderTaskKind,
    SurfaceBuilder,
};
use crate::render_task_cache::RenderTaskCacheEntry;
use crate::resource_cache::ResourceCache;
use crate::units::DeviceIntSize;

verus! {

/// A render task that an image depends on in this frame.
#[derive(Clone, Copy, Debug, PartialEq, Eq, Hash, Structural)]
pub struct ImageDependency {
    pub key: ApiImageKey,
    pub task: RenderTaskId,
}

/// The task of the first dependency of `key` from index `from` on.
pub open spec fn find_dependency(
    dependencies: Seq<ImageDependency>,
    key: ApiImageKey,
    from: int,
) -> Option<RenderTaskId>
    decreases dependencies.len() - from,
{
    if from < 0 || from >= dependencies.len() {
        None
    } else if dependencies[from].key == key {
        Some(dependencies[from].task)
    } else {
        find_dependency(dependencies, key, from + 1)
    }
}

/// What the platform asks of the frame builder.
#[derive(Clone, Copy, Debug, PartialEq, Eq, Hash, Structural)]
pub struct FrameBuilderConfig {
    /// External textures cannot be sampled by most shaders and have to be
    /// copied first.
    pub external_images_require_copy: bool,
}

/// What stays the same while a frame is built.
#[derive(Clone, Copy, Debug, PartialEq, Eq, Hash, Structural)]
pub struct FrameBuildingContext {
    pub fb_config: FrameBuilderConfig,
}

/// What changes while a frame is built.
pub struct FrameBuildingState {
    pub resource_cache: ResourceCache,
    pub gpu_cache: GpuCache,
    pub rg_builder: RenderTaskGraphBuilder,
    pub surface_builder: SurfaceBuilder,
    /// The render tasks that images depend on in this frame.
    pub image_dependencies: Vec<ImageDependency>,
}

impl FrameBuildingState {
    /// The parts fit together: the caches are well formed, and every task
    /// that is named is a task of the graph.
    pub open spec fn well_formed(&self) -> bool {
        &&& self.resource_cache.well_formed()
        &&& self.gpu_cache.well_formed()
        &&& self.rg_builder.well_formed()
        &&& self.resource_cache.cached_render_tasks.well_formed(&self.rg_builder)
        &&& self.rg_builder.has_task(self.surface_builder.surface_task)
        &&& forall|i: int|
            0 <= i < self.image_dependencies@.len() ==> self.rg_builder.has_task(
                (#[trigger] self.image_dependencies@[i]).task,
            )
    }

    /// The render task that the image `key` depends on in this frame.
    pub open spec fn spec_dependency(&self, key: ApiImageKey) -> Option<RenderTaskId> {
        find_dependency(self.image_dependencies@, key, 0)
    }

    /// Tests whether the parts fit together.
    pub fn is_well_formed(&self) -> (ok: bool)
        ensures
            ok == self.well_formed(),
    {
        if !self.resource_cache.is_well_formed() || !self.gpu_cache.is_well_formed()
            || !self.rg_builder.is_well_formed()
            || !self.resource_cache.cached_render_tasks.is_well_formed(&self.rg_builder)
            || self.surface_builder.surface_task.index >= self.rg_builder.tasks.len() {
            return false;
        }
        let mut i: usize = 0;
        while i < self.image_dependencies.len()
            invariant
                i <= self.image_dependencies@.len(),
                forall|j: int|
                    0 <= j < i ==> self.rg_builder.has_task(
                        (#[trigger] self.image_dependencies@[j]).task,
                    ),
            decreases self.image_dependencies@.len() - i,
        {
            if self.image_dependencies[i].task.index >= self.rg_builder.tasks.len() {
                return false;
            }
            i = i + 1;
        }
        true
    }

    /// The state at the start of a frame whose surface is drawn by one
    /// task: the graph holds that task and nothing else was asked for yet.
    pub fn new(resource_cache: ResourceCache, gpu_cache: GpuCache) -> (s: Self)
        requires
            resource_cache.well_formed(),
            gpu_cache.well_formed(),
            resource_cache.cached_render_tasks.entries@.len() == 0,
        ensures
            s.well_formed(),
            s.resource_cache == resource_cache,
            s.gpu_cache == gpu_cache,
            s.rg_builder.tasks@ == seq![
                RenderTask {
                    size: DeviceIntSize { width: 0, height: 0 },
                    kind: RenderTaskKind::Surface,
                },
            ],
            s.rg_builder.dependencies@.len() == 0,
            s.surface_builder.surface_task.index == 0,
            s.image_dependencies@.len() == 0,
    {
        let mut rg_builder = RenderTaskGraphBuilder::new();
        let surface_task = rg_builder.add_task(
            RenderTask {
                size: DeviceIntSize { width: 0, height: 0 },
                kind: RenderTaskKind::Surface,
            },
        );
        FrameBuildingState {
            resource_cache,
            gpu_cache,
            rg_builder,
            surface_builder: SurfaceBuilder::new(surface_task),
            image_dependencies: Vec::new(),
        }
    }

    /// The render task that the image `key` depends on in this frame, if
    /// there is one.
    pub fn image_dependency(&self, key: ApiImageKey) -> (r: Option<RenderTaskId>)
        ensures
            r == self.spec_dependency(key),
            self.well_formed() ==> (r matches Some(task) ==> self.rg_builder.has_task(task)),
    {
        let mut i: usize = 0;
        while i < self.image_dependencies.len()
            invariant
                i <= self.image_dependencies@.len(),
                find_dependency(self.image_dependencies@, key, 0) == find_dependency(
                    self.image_dependencies@,
                    key,
                    i as int,
                ),
            decreases self.image_dependencies@.len() - i,
        {
            if self.image_dependencies[i].key == key {
                return Some(self.image_dependencies[i].task);
            }
            i = i + 1;
        }
        None
    }
}


/// The parts of the frame that image primitives add to.
pub struct FrameModel {
    /// The tasks of the render graph.
    pub tasks: Seq<RenderTask>,
    /// The edges of the render graph.
    pub dependencies: Seq<Dependency>,
    /// The images that were asked for.
    pub requests: Seq<ImageRequest>,
    /// The entries of the cache of render tasks.
    pub entries: Seq<RenderTaskCacheEntry>,
}

impl FrameModel {
    /// The name that the next task gets.
    pub open spec fn next_task(self) -> RenderTaskId {
        RenderTaskId { index: self.tasks.len() as usize }
    }

    pub open spec fn add_task(self, task: RenderTask) -> FrameModel {
        FrameModel { tasks: self.tasks.push(task), ..self }
    }

    pub open spec fn add_dependency(self, parent: RenderTaskId, child: RenderTaskId) -> FrameModel {
        FrameModel { dependencies: self.dependencies.push(Dependency { parent, child }), ..self }
    }

    pub open spec fn add_request(self, request: ImageRequest) -> FrameModel {
        FrameModel { requests: self.requests.push(request), ..self }
    }

    pub open spec fn add_entry(self, entry: RenderTaskCacheEntry) -> FrameModel {
        FrameModel { entries: self.entries.push(entry), ..self }
    }
}

impl FrameBuildingState {
    /// The parts of the frame that image primitives add to.
    pub open spec fn model(&self) -> FrameModel {
        FrameModel {
            tasks: self.rg_builder.tasks@,
            dependencies: self.rg_builder.dependencies@,
            requests: self.resource_cache.requests@,
            entries: self.resource_cache.cached_render_tasks.entries@,
        }
    }

    /// The parts of the frame that image primitives only read are the same
    /// in `self` and `other`.
    pub open spec fn same_inputs(&self, other: &FrameBuildingState) -> bool {
        &&& self.resource_cache.images@ == other.resource_cache.images@
        &&& self.surface_builder.surface_task == other.surface_builder.surface_task
        &&& self.image_dependencies@ == other.image_dependencies@
    }
}

} // verus!
