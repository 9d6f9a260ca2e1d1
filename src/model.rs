use vstd::prelude::*;

use std::ops::Range;

verus! {

/// Bytes in one model vertex: a position of three 32-bit floats, then a
/// color of three more.
pub const MODEL_VERTEX_SIZE: u64 = 24;

/// Bytes in one instance record: a 4x4 matrix of 32-bit floats.
pub const INSTANCE_RAW_SIZE: u64 = 64;

/// Bytes in the camera uniform: a 4x4 matrix of 32-bit floats, column-major.
pub const CAMERA_UNIFORM_SIZE: u64 = 64;

/// The shader location of the first column of the instance matrix.
pub const INSTANCE_FIRST_LOCATION: u32 = 5;

/// The element format of one vertex attribute.
#[derive(Clone, Copy, Debug, PartialEq, Eq, Structural)]
pub enum VertexFormat {
    Float32x3,
    Float32x4,
}

impl VertexFormat {
    /// Size of one element of this format, in bytes.
    pub open spec fn size(self) -> int {
        match self {
            VertexFormat::Float32x3 => 12,
            VertexFormat::Float32x4 => 16,
        }
    }

    /// Size of one element of this format, in bytes.
    pub fn byte_size(&self) -> (r: u64)
        ensures
            r == self.size(),
    {
        match self {
            VertexFormat::Float32x3 => 12,
            VertexFormat::Float32x4 => 16,
        }
    }
}

/// Whether a buffer advances once per vertex or once per instance.
#[derive(Clone, Copy, Debug, PartialEq, Eq, Structural)]
pub enum VertexStepMode {
    Vertex,
    Instance,
}

/// One attribute of a vertex buffer: where it sits in an element and which
/// shader input receives it.
#[derive(Clone, Copy, Debug, PartialEq, Eq, Structural)]
pub struct VertexAttribute {
    pub offset: u64,
    pub shader_location: u32,
    pub format: VertexFormat,
}

/// How the pipeline reads one vertex buffer.
pub struct VertexLayout {
    pub array_stride: u64,
    pub step_mode: VertexStepMode,
    pub attributes: Vec<VertexAttribute>,
}

/// Every attribute lies inside one element of `stride` bytes, no two
/// attributes share a byte, and no two share a shader location.
pub open spec fn attributes_fit(stride: int, attrs: Seq<VertexAttribute>) -> bool {
    &&& forall|i: int| 0 <= i < attrs.len() ==> #[trigger] attrs[i].offset + attrs[i].format.size() <= stride
    &&& forall|i: int, j: int|
        0 <= i < j < attrs.len() ==> {
            ||| #[trigger] attrs[i].offset + attrs[i].format.size() <= #[trigger] attrs[j].offset
            ||| attrs[j].offset + attrs[j].format.size() <= attrs[i].offset
        }
    &&& forall|i: int, j: int|
        0 <= i < j < attrs.len() ==> #[trigger] attrs[i].shader_location
            != #[trigger] attrs[j].shader_location
}

/// The attributes of a model vertex: the position at location 0 and the
/// color at location 1, each three floats.
pub open spec fn model_vertex_attributes() -> Seq<VertexAttribute> {
    seq![
        VertexAttribute { offset: 0, shader_location: 0, format: VertexFormat::Float32x3 },
        VertexAttribute { offset: 12, shader_location: 1, format: VertexFormat::Float32x3 },
    ]
}

/// The attributes of an instance record: the four columns of its matrix,
/// at four consecutive locations starting from `INSTANCE_FIRST_LOCATION`.
pub open spec fn instance_attributes() -> Seq<VertexAttribute> {
    Seq::new(
        4,
        |i: int|
            VertexAttribute {
                offset: (16 * i) as u64,
                shader_location: (INSTANCE_FIRST_LOCATION + i) as u32,
                format: VertexFormat::Float32x4,
            },
    )
}

/// The layout of the model vertex buffer, which the pipeline's vertex
/// stage reads once per vertex.
pub fn model_vertex_layout() -> (r: VertexLayout)
    ensures
        r.array_stride == MODEL_VERTEX_SIZE,
        r.step_mode == VertexStepMode::Vertex,
        r.attributes@ == model_vertex_attributes(),
        attributes_fit(r.array_stride as int, r.attributes@),
{
    let attributes = vec![
        VertexAttribute { offset: 0, shader_location: 0, format: VertexFormat::Float32x3 },
        VertexAttribute { offset: 12, shader_location: 1, format: VertexFormat::Float32x3 },
    ];
    assert(attributes@ =~= model_vertex_attributes());
    VertexLayout { array_stride: MODEL_VERTEX_SIZE, step_mode: VertexStepMode::Vertex, attributes }
}

/// The layout of the instance buffer, which the pipeline reads once per
/// instance: one matrix, one column per attribute.
pub fn instance_layout() -> (r: VertexLayout)
    ensures
        r.array_stride == INSTANCE_RAW_SIZE,
        r.step_mode == VertexStepMode::Instance,
        r.attributes@ == instance_attributes(),
        attributes_fit(r.array_stride as int, r.attributes@),
{
    let mut attributes: Vec<VertexAttribute> = Vec::new();
    let mut i: u32 = 0;
    while i < 4
        invariant
            i <= 4,
            attributes@ == instance_attributes().subrange(0, i as int),
        decreases 4 - i,
    {
        attributes.push(
            VertexAttribute {
                offset: 16 * i as u64,
                shader_location: INSTANCE_FIRST_LOCATION + i,
                format: VertexFormat::Float32x4,
            },
        );
        i = i + 1;
        assert(attributes@ =~= instance_attributes().subrange(0, i as int));
    }
    assert(instance_attributes().subrange(0, 4) =~= instance_attributes());
    VertexLayout {
        array_stride: INSTANCE_RAW_SIZE,
        step_mode: VertexStepMode::Instance,
        attributes,
    }
}

/// Geometry uploaded once: a vertex buffer and an index buffer of 32-bit
/// indices, held as handles of type `B`, and how many indices to draw.
pub struct Mesh<B> {
    pub name: String,
    pub vertex_buffer: B,
    pub index_buffer: B,
    pub num_indices: u32,
}

impl<B> Mesh<B> {
    /// A mesh over the given buffers, whose index buffer holds `indices`.
    pub fn new(name: String, vertex_buffer: B, index_buffer: B, indices: &Vec<u32>) -> (r: Mesh<B>)
        requires
            indices@.len() <= u32::MAX,
        ensures
            r.name@ == name@,
            r.vertex_buffer == vertex_buffer,
            r.index_buffer == index_buffer,
            r.num_indices == indices@.len(),
    {
        Mesh { name, vertex_buffer, index_buffer, num_indices: indices.len() as u32 }
    }
}

/// Meshes drawn in order, first to last.
pub struct Model<B> {
    pub meshes: Vec<Mesh<B>>,
}

/// The width of the indices in an index buffer.
#[derive(Clone, Copy, Debug, PartialEq, Eq, Structural)]
pub enum IndexFormat {
    Uint16,
    Uint32,
}

/// One command recorded into a render pass. A mesh is named by its position
/// in the model being drawn.
#[derive(Clone, Copy, Debug, PartialEq, Eq, Structural)]
pub enum PassCommand {
    /// Bind the mesh's vertex buffer at `slot`.
    SetVertexBuffer { slot: u32, mesh: usize },
    /// Bind the mesh's index buffer, read as `format`.
    SetIndexBuffer { mesh: usize, format: IndexFormat },
    /// Bind the camera uniform's bind group at `index`.
    SetCameraBindGroup { index: u32 },
    /// Draw the indices `index_start..index_end`, offset by `base_vertex`,
    /// for each instance in `instance_start..instance_end`.
    DrawIndexed {
        index_start: u32,
        index_end: u32,
        base_vertex: i32,
        instance_start: u32,
        instance_end: u32,
    },
}

/// The commands that draw one mesh: its vertex buffer at slot 0, its index
/// buffer as 32-bit indices, the camera at bind group 0, and one indexed
/// draw over all its indices for the instances `start..end`.
pub open spec fn mesh_commands(mesh: usize, num_indices: u32, start: u32, end: u32) -> Seq<
    PassCommand,
> {
    seq![
        PassCommand::SetVertexBuffer { slot: 0, mesh },
        PassCommand::SetIndexBuffer { mesh, format: IndexFormat::Uint32 },
        PassCommand::SetCameraBindGroup { index: 0 },
        PassCommand::DrawIndexed {
            index_start: 0,
            index_end: num_indices,
            base_vertex: 0,
            instance_start: start,
            instance_end: end,
        },
    ]
}

/// The commands that draw every mesh of `meshes` in order, all for the
/// same instances.
pub open spec fn model_commands<B>(meshes: Seq<Mesh<B>>, start: u32, end: u32) -> Seq<PassCommand>
    decreases meshes.len(),
{
    if meshes.len() == 0 {
        seq![]
    } else {
        model_commands(meshes.drop_last(), start, end) + mesh_commands(
            (meshes.len() - 1) as usize,
            meshes.last().num_indices,
            start,
            end,
        )
    }
}

/// The indexed draws among `cmds`, in order.
pub open spec fn draw_calls(cmds: Seq<PassCommand>) -> Seq<PassCommand>
    decreases cmds.len(),
{
    if cmds.len() == 0 {
        seq![]
    } else {
        let rest = draw_calls(cmds.drop_last());
        if cmds.last() is DrawIndexed {
            rest.push(cmds.last())
        } else {
            rest
        }
    }
}

/// The indexed draw that covers all of a mesh's indices for the instances
/// `start..end`.
pub open spec fn full_draw(num_indices: u32, start: u32, end: u32) -> PassCommand {
    PassCommand::DrawIndexed {
        index_start: 0,
        index_end: num_indices,
        base_vertex: 0,
        instance_start: start,
        instance_end: end,
    }
}

proof fn lemma_draw_calls_append(a: Seq<PassCommand>, b: Seq<PassCommand>)
    ensures
        draw_calls(a + b) == draw_calls(a) + draw_calls(b),
    decreases b.len(),
{
    if b.len() == 0 {
        assert(a + b =~= a);
        assert(draw_calls(a) + draw_calls(b) =~= draw_calls(a));
    } else {
        lemma_draw_calls_append(a, b.drop_last());
        assert((a + b).drop_last() =~= a + b.drop_last());
        assert((a + b).last() == b.last());
        if b.last() is DrawIndexed {
            assert(draw_calls(a) + draw_calls(b.drop_last()).push(b.last()) =~= (draw_calls(a)
                + draw_calls(b.drop_last())).push(b.last()));
        }
    }
}

/// Drawing a model issues exactly one indexed draw per mesh, in the order
/// of the meshes, each over all of that mesh's indices and over the
/// instances asked for. A model of one mesh thus gets one draw, whose index
/// count is that mesh's.
pub proof fn lemma_one_draw_per_mesh<B>(meshes: Seq<Mesh<B>>, start: u32, end: u32)
    ensures
        draw_calls(model_commands(meshes, start, end)) == Seq::new(
            meshes.len(),
            |k: int| full_draw(meshes[k].num_indices, start, end),
        ),
    decreases meshes.len(),
{
    let want = Seq::new(meshes.len(), |k: int| full_draw(meshes[k].num_indices, start, end));
    if meshes.len() == 0 {
        assert(draw_calls(model_commands(meshes, start, end)) =~= want);
    } else {
        let init = meshes.drop_last();
        let n = meshes.len() - 1;
        let one = mesh_commands(n as usize, meshes.last().num_indices, start, end);
        lemma_one_draw_per_mesh(init, start, end);
        lemma_draw_calls_append(model_commands(init, start, end), one);
        let s3 = one.drop_last();
        let s2 = s3.drop_last();
        let s1 = s2.drop_last();
        assert(s1.drop_last() =~= Seq::<PassCommand>::empty());
        assert(s1.last() is SetVertexBuffer);
        assert(s2.last() is SetIndexBuffer);
        assert(s3.last() is SetCameraBindGroup);
        assert(draw_calls(s1.drop_last()) =~= Seq::<PassCommand>::empty());
        assert(draw_calls(s1) =~= Seq::<PassCommand>::empty());
        assert(draw_calls(s2) =~= Seq::<PassCommand>::empty());
        assert(draw_calls(s3) =~= Seq::<PassCommand>::empty());
        assert(draw_calls(one) =~= seq![full_draw(meshes.last().num_indices, start, end)]);
        assert(draw_calls(model_commands(meshes, start, end)) =~= want);
    }
}

/// The commands of one render pass, in the order they are to be recorded.
pub struct RenderPassPlan {
    commands: Vec<PassCommand>,
}

impl View for RenderPassPlan {
    type V = Seq<PassCommand>;

    closed spec fn view(&self) -> Seq<PassCommand> {
        self.commands@
    }
}

impl RenderPassPlan {
    /// A pass with nothing recorded yet.
    pub fn new() -> (r: RenderPassPlan)
        ensures
            r@ == Seq::<PassCommand>::empty(),
    {
        RenderPassPlan { commands: Vec::new() }
    }

    /// The recorded commands, first to last.
    pub fn commands(&self) -> (r: &Vec<PassCommand>)
        ensures
            r@ == self@,
    {
        &self.commands
    }

    /// Records the drawing of one mesh, the one at `mesh_index` of its
    /// model, for the instances in `instances`.
    pub fn draw_mesh_instanced<B>(&mut self, mesh_index: usize, mesh: &Mesh<B>, instances: Range<u32>)
        ensures
            final(self)@ == old(self)@ + mesh_commands(
                mesh_index,
                mesh.num_indices,
                instances.start,
                instances.end,
            ),
    {
        self.commands.push(PassCommand::SetVertexBuffer { slot: 0, mesh: mesh_index });
        self.commands.push(PassCommand::SetIndexBuffer { mesh: mesh_index, format: IndexFormat::Uint32 });
        self.commands.push(PassCommand::SetCameraBindGroup { index: 0 });
        self.commands.push(
            PassCommand::DrawIndexed {
                index_start: 0,
                index_end: mesh.num_indices,
                base_vertex: 0,
                instance_start: instances.start,
                instance_end: instances.end,
            },
        );
        assert(self@ =~= old(self)@ + mesh_commands(
            mesh_index,
            mesh.num_indices,
            instances.start,
            instances.end,
        ));
    }

    /// Records the drawing of one mesh for the single instance 0.
    pub fn draw_mesh<B>(&mut self, mesh_index: usize, mesh: &Mesh<B>)
        ensures
            final(self)@ == old(self)@ + mesh_commands(mesh_index, mesh.num_indices, 0, 1),
    {
        self.draw_mesh_instanced(mesh_index, mesh, 0..1);
    }

    /// Records the drawing of every mesh of `model`, in order, all for the
    /// instances in `instances`.
    pub fn draw_model_instanced<B>(&mut self, model: &Model<B>, instances: Range<u32>)
        ensures
            final(self)@ == old(self)@ + model_commands(
                model.meshes@,
                instances.start,
                instances.end,
            ),
    {
        let start = instances.start;
        let end = instances.end;
        let mut i: usize = 0;
        while i < model.meshes.len()
            invariant
                i <= model.meshes@.len(),
                self@ == old(self)@ + model_commands(model.meshes@.subrange(0, i as int), start, end),
            decreases model.meshes@.len() - i,
        {
            let ghost before = self@;
            self.draw_mesh_instanced(i, &model.meshes[i], start..end);
            proof {
                let done = model.meshes@.subrange(0, i + 1);
                assert(done.drop_last() =~= model.meshes@.subrange(0, i as int));
                assert(self@ =~= old(self)@ + model_commands(done, start, end));
            }
            i = i + 1;
        }
        assert(model.meshes@.subrange(0, i as int) =~= model.meshes@);
    }

    /// Records the drawing of every mesh of `model` for the single instance 0.
    pub fn draw_model<B>(&mut self, model: &Model<B>)
        ensures
            final(self)@ == old(self)@ + model_commands(model.meshes@, 0, 1),
    {
        self.draw_model_instanced(model, 0..1);
    }
}

} // verus!
