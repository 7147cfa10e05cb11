//! Pass bookkeeping.
//!
//! A pass is one recorded unit of rendering work. [`PassId`] names a pass;
//! [`ImmediateMeshId`] names a mesh uploaded into a pass's immediate buffer,
//! by its position in the pass's mesh table. [`PassRecorder`] keeps the
//! bookkeeping a pass needs while it is recorded: which shaders and global
//! images the pass already uses, and the table of immediate meshes. Each
//! operation reports which side effects the caller still has to emit (first
//! use of a shader or image, the draw command to forward); the recorder
//! itself performs none.

use vstd::prelude::*;

verus! {

/// Identifier of one recorded pass.
#[derive(Copy, Clone, PartialEq, Eq, Structural, PartialOrd, Ord, Debug, Hash)]
pub struct PassId(u64);

impl View for PassId {
    type V = u64;

    closed spec fn view(&self) -> u64 {
        self.0
    }
}

impl PassId {
    /// Wraps a raw pass number.
    pub fn from_raw(id: u64) -> (pass_id: Self)
        ensures
            pass_id@ == id,
    {
        Self(id)
    }

    /// Returns the raw pass number.
    pub fn get_raw(&self) -> (id: u64)
        ensures
            id == self@,
    {
        self.0
    }
}

/// Identifier of a mesh uploaded into a pass's immediate buffer: its index in
/// the pass's mesh table.
#[derive(Copy, Clone, PartialEq, Eq, Structural, PartialOrd, Ord, Debug, Hash)]
pub struct ImmediateMeshId(u32);

impl View for ImmediateMeshId {
    type V = u32;

    closed spec fn view(&self) -> u32 {
        self.0
    }
}

impl ImmediateMeshId {
    /// Wraps a raw mesh index.
    pub fn form_raw(id: u32) -> (mesh_id: Self)
        ensures
            mesh_id@ == id,
    {
        Self(id)
    }

    /// Returns the raw mesh index.
    pub fn get_raw(&self) -> (id: u32)
        ensures
            id == self@,
    {
        self.0
    }
}


/// Description of one mesh in a pass's immediate mesh table: where its
/// vertex and index data were placed, and how it is drawn.
#[derive(Clone, Copy, Debug, PartialEq, Eq, Structural)]
pub struct ImmediateMeshInfo {
    /// Raw handle of the buffer holding the vertex data.
    pub vertex_buffer: u64,
    /// Raw handle of the buffer holding the index data.
    pub index_buffer: u64,
    /// Offset of the mesh's first vertex, in vertices.
    pub vertex_offset: i32,
    /// Offset of the mesh's first index, in indices.
    pub first_index: u32,
    /// Raw index-type value of the mesh's indices.
    pub index_type: i32,
    /// Number of indices to draw.
    pub index_count: u32,
    /// Raw primitive-topology value the mesh is drawn with.
    pub primitive_topology: i32,
}

/// One draw command, ready to be forwarded to the pipeline.
#[derive(Clone, Copy, Debug, PartialEq, Eq, Structural)]
pub struct DrawTask {
    /// Raw handle of the buffer holding the vertex data.
    pub vertex_buffer: u64,
    /// Raw handle of the buffer holding the index data.
    pub index_buffer: u64,
    /// Offset of the first vertex, in vertices.
    pub vertex_offset: i32,
    /// Offset of the first index, in indices.
    pub first_index: u32,
    /// Raw index-type value of the indices.
    pub index_type: i32,
    /// Number of indices to draw.
    pub index_count: u32,
    /// Identifier of the shader to draw with.
    pub shader: u64,
    /// Raw primitive-topology value to draw with.
    pub primitive_topology: i32,
    /// Whether the draw writes the depth buffer.
    pub depth_write_enable: bool,
}

/// The abstract state of a [`PassRecorder`].
pub struct PassRecorderView {
    /// Raw number of the pass being recorded.
    pub id: u64,
    /// Identifiers of the shaders the pass uses, in first-use order.
    pub used_shaders: Seq<u64>,
    /// Identifiers of the global images the pass uses, in first-use order.
    pub used_global_images: Seq<u64>,
    /// The pass's immediate mesh table.
    pub immediate_meshes: Seq<ImmediateMeshInfo>,
}

/// `ids` extended by `id` if it is not yet present, `ids` unchanged
/// otherwise.
pub open spec fn marked_used(ids: Seq<u64>, id: u64) -> Seq<u64> {
    if ids.contains(id) {
        ids
    } else {
        ids.push(id)
    }
}

/// The draw command for mesh `m` with shader `shader`.
pub open spec fn draw_task_for(m: ImmediateMeshInfo, shader: u64, depth_write_enable: bool) -> DrawTask {
    DrawTask {
        vertex_buffer: m.vertex_buffer,
        index_buffer: m.index_buffer,
        vertex_offset: m.vertex_offset,
        first_index: m.first_index,
        index_type: m.index_type,
        index_count: m.index_count,
        shader,
        primitive_topology: m.primitive_topology,
        depth_write_enable,
    }
}

/// The mesh-table record for data placed at byte offset `vertex_offset_bytes`
/// (vertices of `vertex_stride` bytes) and `index_offset_bytes` (indices of
/// `index_size` bytes).
pub open spec fn immediate_mesh_record(
    vertex_buffer: u64,
    vertex_offset_bytes: u64,
    vertex_stride: u64,
    index_buffer: u64,
    index_offset_bytes: u64,
    index_size: u64,
    index_type: i32,
    index_count: u32,
    primitive_topology: i32,
) -> ImmediateMeshInfo
    recommends
        vertex_stride > 0,
        index_size > 0,
{
    ImmediateMeshInfo {
        vertex_buffer,
        index_buffer,
        vertex_offset: (vertex_offset_bytes / vertex_stride) as i32,
        first_index: (index_offset_bytes / index_size) as u32,
        index_type,
        index_count,
        primitive_topology,
    }
}

/// Returns whether `ids` holds `id`.
fn contains_id(ids: &Vec<u64>, id: u64) -> (found: bool)
    ensures
        found == ids@.contains(id),
{
    let mut i: usize = 0;
    while i < ids.len()
        invariant
            i <= ids@.len(),
            forall|j: int| 0 <= j < i ==> ids@[j] != id,
        decreases ids@.len() - i,
    {
        if ids[i] == id {
            return true;
        }
        i += 1;
    }
    false
}

/// Bookkeeping for one pass while it is recorded.
///
/// The recorder tracks which shaders and global images the pass already
/// uses and the table of uploaded immediate meshes. Every operation returns
/// what the caller must still do — announce a first use, forward a draw —
/// while the recorder only updates its records.
pub struct PassRecorder {
    id: PassId,
    used_shaders: Vec<u64>,
    used_global_images: Vec<u64>,
    immediate_meshes: Vec<ImmediateMeshInfo>,
}

impl View for PassRecorder {
    type V = PassRecorderView;

    closed spec fn view(&self) -> PassRecorderView {
        PassRecorderView {
            id: self.id@,
            used_shaders: self.used_shaders@,
            used_global_images: self.used_global_images@,
            immediate_meshes: self.immediate_meshes@,
        }
    }
}

impl PassRecorder {
    /// Starts recording the pass named `id`, with nothing used yet.
    pub fn new(id: PassId) -> (recorder: Self)
        ensures
            recorder@ == (PassRecorderView {
                id: id@,
                used_shaders: Seq::<u64>::empty(),
                used_global_images: Seq::<u64>::empty(),
                immediate_meshes: Seq::<ImmediateMeshInfo>::empty(),
            }),
    {
        Self {
            id,
            used_shaders: Vec::new(),
            used_global_images: Vec::new(),
            immediate_meshes: Vec::new(),
        }
    }

    /// Marks `shader` as used by the pass. Returns true iff this is the
    /// first use, in which case the caller must announce the shader to the
    /// pipeline before drawing with it.
    pub fn use_shader(&mut self, shader: u64) -> (newly_used: bool)
        ensures
            newly_used == !old(self)@.used_shaders.contains(shader),
            final(self)@ == (PassRecorderView {
                used_shaders: marked_used(old(self)@.used_shaders, shader),
                ..old(self)@
            }),
    {
        if contains_id(&self.used_shaders, shader) {
            false
        } else {
            self.used_shaders.push(shader);
            true
        }
    }

    /// Records a uniform update for `shader`, marking the shader as used.
    /// Returns true iff this is the shader's first use; the caller forwards
    /// the update itself in either case.
    pub fn update_uniform(&mut self, shader: u64) -> (newly_used: bool)
        ensures
            newly_used == !old(self)@.used_shaders.contains(shader),
            final(self)@ == (PassRecorderView {
                used_shaders: marked_used(old(self)@.used_shaders, shader),
                ..old(self)@
            }),
    {
        self.use_shader(shader)
    }

    /// Records a texture binding of global image `image_id` for `shader`.
    /// Returns whether the shader, and whether the image, is used for the
    /// first time; for each first use the caller must announce it before
    /// forwarding the binding.
    pub fn update_texture(&mut self, image_id: u64, shader: u64) -> (newly_used: (bool, bool))
        ensures
            newly_used.0 == !old(self)@.used_shaders.contains(shader),
            newly_used.1 == !old(self)@.used_global_images.contains(image_id),
            final(self)@ == (PassRecorderView {
                used_shaders: marked_used(old(self)@.used_shaders, shader),
                used_global_images: marked_used(old(self)@.used_global_images, image_id),
                ..old(self)@
            }),
    {
        let shader_newly_used = self.use_shader(shader);
        let image_newly_used = if contains_id(&self.used_global_images, image_id) {
            false
        } else {
            self.used_global_images.push(image_id);
            true
        };
        (shader_newly_used, image_newly_used)
    }

    /// Appends a mesh to the immediate mesh table and returns its
    /// identifier: the table index the mesh was stored under.
    ///
    /// The mesh's vertex data was placed at byte offset
    /// `vertex_offset_bytes` in `vertex_buffer`, its index data at
    /// `index_offset_bytes` in `index_buffer`; the stored record counts both
    /// in whole elements.
    pub fn upload_immediate(
        &mut self,
        vertex_buffer: u64,
        vertex_offset_bytes: u64,
        vertex_stride: u64,
        index_buffer: u64,
        index_offset_bytes: u64,
        index_size: u64,
        index_type: i32,
        index_count: u32,
        primitive_topology: i32,
    ) -> (id: ImmediateMeshId)
        requires
            vertex_stride > 0,
            index_size > 0,
            vertex_offset_bytes / vertex_stride <= i32::MAX,
            index_offset_bytes / index_size <= u32::MAX,
            old(self)@.immediate_meshes.len() < u32::MAX,
        ensures
            id@ == old(self)@.immediate_meshes.len(),
            final(self)@ == (PassRecorderView {
                immediate_meshes: old(self)@.immediate_meshes.push(
                    immediate_mesh_record(
                        vertex_buffer,
                        vertex_offset_bytes,
                        vertex_stride,
                        index_buffer,
                        index_offset_bytes,
                        index_size,
                        index_type,
                        index_count,
                        primitive_topology,
                    ),
                ),
                ..old(self)@
            }),
    {
        let id = self.immediate_meshes.len() as u32;
        self.immediate_meshes.push(
            ImmediateMeshInfo {
                vertex_buffer,
                index_buffer,
                vertex_offset: (vertex_offset_bytes / vertex_stride) as i32,
                first_index: (index_offset_bytes / index_size) as u32,
                index_type,
                index_count,
                primitive_topology,
            },
        );
        ImmediateMeshId::form_raw(id)
    }

    /// Builds the draw command for immediate mesh `id` with `shader`,
    /// marking the shader as used. Returns whether the shader is used for
    /// the first time, and the draw command the caller must forward.
    pub fn draw_immediate(&mut self, id: ImmediateMeshId, shader: u64, depth_write_enable: bool) -> (r: (bool, DrawTask))
        requires
            id@ < old(self)@.immediate_meshes.len(),
        ensures
            r.0 == !old(self)@.used_shaders.contains(shader),
            r.1 == draw_task_for(old(self)@.immediate_meshes[id@ as int], shader, depth_write_enable),
            final(self)@ == (PassRecorderView {
                used_shaders: marked_used(old(self)@.used_shaders, shader),
                ..old(self)@
            }),
    {
        let newly_used = self.use_shader(shader);
        let m = self.immediate_meshes[id.get_raw() as usize];
        let task = DrawTask {
            vertex_buffer: m.vertex_buffer,
            index_buffer: m.index_buffer,
            vertex_offset: m.vertex_offset,
            first_index: m.first_index,
            index_type: m.index_type,
            index_count: m.index_count,
            shader,
            primitive_topology: m.primitive_topology,
            depth_write_enable,
        };
        (newly_used, task)
    }

    /// Builds the draw command for a global mesh whose vertex and index data
    /// share `buffer`, marking the shader as used. Returns whether the
    /// shader is used for the first time, and the draw command the caller
    /// must forward.
    pub fn draw_global(
        &mut self,
        buffer: u64,
        first_index: u32,
        index_type: i32,
        index_count: u32,
        primitive_topology: i32,
        shader: u64,
        depth_write_enable: bool,
    ) -> (r: (bool, DrawTask))
        ensures
            r.0 == !old(self)@.used_shaders.contains(shader),
            r.1 == (DrawTask {
                vertex_buffer: buffer,
                index_buffer: buffer,
                vertex_offset: 0,
                first_index,
                index_type,
                index_count,
                shader,
                primitive_topology,
                depth_write_enable,
            }),
            final(self)@ == (PassRecorderView {
                used_shaders: marked_used(old(self)@.used_shaders, shader),
                ..old(self)@
            }),
    {
        let newly_used = self.use_shader(shader);
        let task = DrawTask {
            vertex_buffer: buffer,
            index_buffer: buffer,
            vertex_offset: 0,
            first_index,
            index_type,
            index_count,
            shader,
            primitive_topology,
            depth_write_enable,
        };
        (newly_used, task)
    }

    /// Returns the identifier of the pass being recorded.
    pub fn get_id(&self) -> (id: PassId)
        ensures
            id@ == self@.id,
    {
        self.id
    }
}

} // verus!
