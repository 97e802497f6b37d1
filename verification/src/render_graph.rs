//! The graph of render tasks that a frame is drawn by, as far as image
//! primitives add to it.

use vstd::prelude::*;
use crate::api::{ApiImageKey, ImageRendering};
use crate::units::{DeviceIntSize, TileOffset};

verus! {

/// Names a task of the graph of the current frame: its index in the graph.
#[derive(Clone, Copy, Debug, PartialEq, Eq, Hash, Structural)]
pub struct RenderTaskId {
    pub index: usize,
}

/// What a render target holds.
#[derive(Clone, Copy, Debug, PartialEq, Eq, Hash, Structural)]
pub enum RenderTargetKind {
    Color,
    Alpha,
}

/// Widths of the four sides of a frame around a box, in device pixels.
#[derive(Clone, Copy, Debug, PartialEq, Eq, Hash, Structural)]
pub struct DeviceIntSideOffsets {
    pub top: i32,
    pub right: i32,
    pub bottom: i32,
    pub left: i32,
}

impl DeviceIntSideOffsets {
    pub open spec fn spec_zero() -> Self {
        DeviceIntSideOffsets { top: 0, right: 0, bottom: 0, left: 0 }
    }

    /// The widths of the left and right sides together.
    pub open spec fn spec_horizontal(&self) -> int {
        self.left + self.right
    }

    /// The widths of the top and bottom sides together.
    pub open spec fn spec_vertical(&self) -> int {
        self.top + self.bottom
    }

    pub fn new(top: i32, right: i32, bottom: i32, left: i32) -> (o: Self)
        ensures
            o == (DeviceIntSideOffsets { top, right, bottom, left }),
    {
        DeviceIntSideOffsets { top, right, bottom, left }
    }

    #[verifier::when_used_as_spec(spec_zero)]
    pub fn zero() -> (o: Self)
        ensures
            o == Self::spec_zero(),
    {
        DeviceIntSideOffsets { top: 0, right: 0, bottom: 0, left: 0 }
    }

    pub fn horizontal(&self) -> (w: i64)
        ensures
            w == self.spec_horizontal(),
    {
        self.left as i64 + self.right as i64
    }

    pub fn vertical(&self) -> (h: i64)
        ensures
            h == self.spec_vertical(),
    {
        self.top as i64 + self.bottom as i64
    }
}

/// Asks for an image, or for one tile of a tiled image, at a rendering
/// quality.
#[derive(Clone, Copy, Debug, PartialEq, Eq, Hash, Structural)]
pub struct ImageRequest {
    pub key: ApiImageKey,
    pub rendering: ImageRendering,
    pub tile: Option<TileOffset>,
}

impl ImageRequest {
    pub open spec fn spec_with_tile(self, offset: TileOffset) -> Self {
        ImageRequest { key: self.key, rendering: self.rendering, tile: Some(offset) }
    }

    /// The same request for the tile at `offset`.
    #[verifier::when_used_as_spec(spec_with_tile)]
    pub fn with_tile(self, offset: TileOffset) -> (r: Self)
        ensures
            r == self.spec_with_tile(offset),
    {
        ImageRequest { key: self.key, rendering: self.rendering, tile: Some(offset) }
    }
}

/// What a render task does.
#[derive(Clone, Copy, Debug, PartialEq, Eq, Hash, Structural)]
pub enum RenderTaskKind {
    /// Draws a surface from the tasks that it reads.
    Surface,
    /// Supplies the pixels of an image or of a tile.
    Image { request: ImageRequest },
    /// Scales the output of `source` into the target, inside `padding`.
    Scaling { source: RenderTaskId, target_kind: RenderTargetKind, padding: DeviceIntSideOffsets },
    /// Copies the output of `source`.
    Blit { source: RenderTaskId },
}

/// A unit of work for the GPU with the size of its output.
#[derive(Clone, Copy, Debug, PartialEq, Eq, Hash, Structural)]
pub struct RenderTask {
    pub size: DeviceIntSize,
    pub kind: RenderTaskKind,
}

/// An edge of the graph: `parent` reads what `child` draws.
#[derive(Clone, Copy, Debug, PartialEq, Eq, Hash, Structural)]
pub struct Dependency {
    pub parent: RenderTaskId,
    pub child: RenderTaskId,
}

/// The graph of the frame that is being built.
pub struct RenderTaskGraphBuilder {
    pub tasks: Vec<RenderTask>,
    pub dependencies: Vec<Dependency>,
}

impl RenderTaskGraphBuilder {
    /// `id` names a task of the graph.
    pub open spec fn has_task(&self, id: RenderTaskId) -> bool {
        id.index < self.tasks@.len()
    }

    /// Every edge joins two tasks of the graph.
    pub open spec fn well_formed(&self) -> bool {
        forall|i: int|
            0 <= i < self.dependencies@.len() ==> self.has_task(
                (#[trigger] self.dependencies@[i]).parent,
            ) && self.has_task(self.dependencies@[i].child)
    }

    pub fn new() -> (g: Self)
        ensures
            g.tasks@.len() == 0,
            g.dependencies@.len() == 0,
            g.well_formed(),
    {
        RenderTaskGraphBuilder { tasks: Vec::new(), dependencies: Vec::new() }
    }

    /// Tests whether every edge joins two tasks of the graph.
    pub fn is_well_formed(&self) -> (ok: bool)
        ensures
            ok == self.well_formed(),
    {
        let mut i: usize = 0;
        while i < self.dependencies.len()
            invariant
                i <= self.dependencies@.len(),
                forall|j: int|
                    0 <= j < i ==> self.has_task((#[trigger] self.dependencies@[j]).parent)
                        && self.has_task(self.dependencies@[j].child),
            decreases self.dependencies@.len() - i,
        {
            let edge = self.dependencies[i];
            if edge.parent.index >= self.tasks.len() || edge.child.index >= self.tasks.len() {
                return false;
            }
            i = i + 1;
        }
        true
    }

    /// Adds `task` to the graph and names it.
    pub fn add_task(&mut self, task: RenderTask) -> (id: RenderTaskId)
        ensures
            final(self).tasks@ == old(self).tasks@.push(task),
            final(self).dependencies@ == old(self).dependencies@,
            id.index == old(self).tasks@.len(),
            old(self).well_formed() ==> final(self).well_formed(),
    {
        let id = RenderTaskId { index: self.tasks.len() };
        self.tasks.push(task);
        id
    }

    /// Records that `parent` reads what `child` draws.
    pub fn add_dependency(&mut self, parent: RenderTaskId, child: RenderTaskId)
        requires
            old(self).has_task(parent),
            old(self).has_task(child),
        ensures
            final(self).tasks@ == old(self).tasks@,
            final(self).dependencies@ == old(self).dependencies@.push(Dependency { parent, child }),
            old(self).well_formed() ==> final(self).well_formed(),
    {
        self.dependencies.push(Dependency { parent, child });
    }
}

impl RenderTask {
    /// The task that supplies the pixels that `request` asks for.
    pub open spec fn spec_new_image(size: DeviceIntSize, request: ImageRequest) -> RenderTask {
        RenderTask { size, kind: RenderTaskKind::Image { request } }
    }

    /// The task that scales the output of `source` to `size`, leaving
    /// `padding` free around it.
    pub open spec fn spec_scaling(
        source: RenderTaskId,
        target_kind: RenderTargetKind,
        size: DeviceIntSize,
        padding: DeviceIntSideOffsets,
    ) -> RenderTask {
        RenderTask { size, kind: RenderTaskKind::Scaling { source, target_kind, padding } }
    }

    /// The task that copies the output of `source`, of `size`.
    pub open spec fn spec_blit(size: DeviceIntSize, source: RenderTaskId) -> RenderTask {
        RenderTask { size, kind: RenderTaskKind::Blit { source } }
    }

    #[verifier::when_used_as_spec(spec_new_image)]
    pub fn new_image(size: DeviceIntSize, request: ImageRequest) -> (t: RenderTask)
        ensures
            t == Self::spec_new_image(size, request),
    {
        RenderTask { size, kind: RenderTaskKind::Image { request } }
    }

    /// Adds a task that scales the output of `src_task_id` to `size`.
    pub fn new_scaling(
        src_task_id: RenderTaskId,
        rg_builder: &mut RenderTaskGraphBuilder,
        target_kind: RenderTargetKind,
        size: DeviceIntSize,
    ) -> (id: RenderTaskId)
        requires
            old(rg_builder).has_task(src_task_id),
        ensures
            final(rg_builder).tasks@ == old(rg_builder).tasks@.push(
                Self::spec_scaling(
                    src_task_id,
                    target_kind,
                    size,
                    DeviceIntSideOffsets::spec_zero(),
                ),
            ),
            final(rg_builder).dependencies@ == old(rg_builder).dependencies@.push(
                Dependency { parent: id, child: src_task_id },
            ),
            id.index == old(rg_builder).tasks@.len(),
            old(rg_builder).well_formed() ==> final(rg_builder).well_formed(),
    {
        Self::new_scaling_with_padding(
            src_task_id,
            rg_builder,
            target_kind,
            size,
            DeviceIntSideOffsets::zero(),
        )
    }

    /// Adds a task that scales the output of `source` into a target of
    /// `padded_size`, leaving `padding` free around it.
    pub fn new_scaling_with_padding(
        source: RenderTaskId,
        rg_builder: &mut RenderTaskGraphBuilder,
        target_kind: RenderTargetKind,
        padded_size: DeviceIntSize,
        padding: DeviceIntSideOffsets,
    ) -> (id: RenderTaskId)
        requires
            old(rg_builder).has_task(source),
        ensures
            final(rg_builder).tasks@ == old(rg_builder).tasks@.push(
                Self::spec_scaling(source, target_kind, padded_size, padding),
            ),
            final(rg_builder).dependencies@ == old(rg_builder).dependencies@.push(
                Dependency { parent: id, child: source },
            ),
            id.index == old(rg_builder).tasks@.len(),
            old(rg_builder).well_formed() ==> final(rg_builder).well_formed(),
    {
        let id = rg_builder.add_task(
            RenderTask {
                size: padded_size,
                kind: RenderTaskKind::Scaling { source, target_kind, padding },
            },
        );
        rg_builder.add_dependency(id, source);
        id
    }

    /// Adds a task that copies the output of `source`, of `size`.
    pub fn new_blit(
        size: DeviceIntSize,
        source: RenderTaskId,
        rg_builder: &mut RenderTaskGraphBuilder,
    ) -> (id: RenderTaskId)
        requires
            old(rg_builder).has_task(source),
        ensures
            final(rg_builder).tasks@ == old(rg_builder).tasks@.push(Self::spec_blit(size, source)),
            final(rg_builder).dependencies@ == old(rg_builder).dependencies@.push(
                Dependency { parent: id, child: source },
            ),
            id.index == old(rg_builder).tasks@.len(),
            old(rg_builder).well_formed() ==> final(rg_builder).well_formed(),
    {
        let id = rg_builder.add_task(RenderTask { size, kind: RenderTaskKind::Blit { source } });
        rg_builder.add_dependency(id, source);
        id
    }
}

/// The surface that primitives are being added to.
pub struct SurfaceBuilder {
    /// The task that draws the surface.
    pub surface_task: RenderTaskId,
}

impl SurfaceBuilder {
    pub fn new(surface_task: RenderTaskId) -> (s: Self)
        ensures
            s.surface_task == surface_task,
    {
        SurfaceBuilder { surface_task }
    }

    /// Makes the surface that is being built read what `child` draws.
    pub fn add_child_render_task(
        &self,
        child: RenderTaskId,
        rg_builder: &mut RenderTaskGraphBuilder,
    )
        requires
            old(rg_builder).has_task(self.surface_task),
            old(rg_builder).has_task(child),
        ensures
            final(rg_builder).tasks@ == old(rg_builder).tasks@,
            final(rg_builder).dependencies@ == old(rg_builder).dependencies@.push(
                Dependency { parent: self.surface_task, child },
            ),
            old(rg_builder).well_formed() ==> final(rg_builder).well_formed(),
    {
        rg_builder.add_dependency(self.surface_task, child);
    }
}

} // verus!
