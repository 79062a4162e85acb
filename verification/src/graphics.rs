//! The renderer's state and frame lifecycle, over plain values.
//!
//! [`Graphics`] holds what the renderer decides on: the size of the surface,
//! the descriptions of the buffers that depend on it, the camera's aspect
//! ratio and the input state. The graphics backend creates, configures and
//! draws what these values describe.

use crate::camera::controller::{CameraCommand, CameraController, HeldButtons, InputEvent};
use crate::sphere::{get_sphere_vertices, GridVertex, SphereConfig};
use crate::surface::{AspectRatio, PhysicalSize, SurfaceConfiguration};
use crate::texture::{
    attachment_descriptor,
    Texture,
    TextureDescriptor,
    TextureError,
    TextureFormat,
};
use crate::vertex::{desc, packed_attributes, vertex_formats, VertexBufferLayout};
use vstd::prelude::*;

verus! {

/// The number of samples taken per pixel: 1 (no multisampling) or 4.
pub const MSAA_SAMPLE_COUNT: u32 = 1;

/// Byte `k` of `value`, counted from its low end.
pub open spec fn u32_byte(value: u32, k: int) -> u8 {
    if k == 0 {
        (value % 256) as u8
    } else if k == 1 {
        (value / 256 % 256) as u8
    } else if k == 2 {
        (value / 65536 % 256) as u8
    } else {
        (value / 16777216) as u8
    }
}

/// The indices laid out as bytes, four for each, low byte first or high
/// byte first.
pub open spec fn index_bytes(indices: Seq<u32>, big_endian: bool) -> Seq<u8> {
    Seq::new(
        4 * indices.len(),
        |i: int|
            u32_byte(
                indices[i / 4],
                if big_endian {
                    3 - i % 4
                } else {
                    i % 4
                },
            ),
    )
}

/// `bytemuck::cast_slice` from `u32` to `u8`, copied into a vector: the
/// memory of the indices read as bytes, which is each index in the byte order
/// of the machine.
#[verifier::external_body]
fn cast_indices(indices: &Vec<u32>) -> (bytes: Vec<u8>)
    ensures
        bytes@ == index_bytes(indices@, false) || bytes@ == index_bytes(indices@, true),
{
    bytemuck::cast_slice::<u32, u8>(indices).to_vec()
}

/// The sphere as the vertex and index buffers are filled from it.
#[derive(Debug)]
pub struct Mesh {
    pub vertices: Vec<GridVertex>,
    pub index_bytes: Vec<u8>,
    pub num_indices: u32,
}

impl Mesh {
    /// The mesh is the sphere of `config`: its vertices, the bytes of its
    /// indices in one of the two byte orders, and their number.
    pub open spec fn is_sphere(&self, config: SphereConfig) -> bool {
        &&& self.vertices@ == config.vertices()
        &&& self.index_bytes@ == index_bytes(config.indices(), false) || self.index_bytes@
            == index_bytes(config.indices(), true)
        &&& self.num_indices == config.index_count()
    }
}

/// Generates the sphere and lays its indices out for the index buffer.
pub fn create_verts(config: &SphereConfig) -> (mesh: Mesh)
    requires
        config.valid(),
        config.index_count() <= u32::MAX,
    ensures
        mesh.is_sphere(*config),
        mesh.index_bytes@.len() == 4 * mesh.num_indices,
{
    let (vertices, indices) = get_sphere_vertices(config);
    let index_bytes = cast_indices(&indices);
    let num_indices: u32 = indices.len() as u32;
    Mesh { vertices, index_bytes, num_indices }
}

/// The camera's first aspect ratio, from the window's size as it is, and
/// a controller with no button held.
pub fn create_camera(size: PhysicalSize) -> (camera: (AspectRatio, CameraController))
    ensures
        camera.0 == size.aspect(),
        camera.1@ == (HeldButtons { drag_rotate: false, left: false, right: false }),
{
    (size.aspect_ratio(), CameraController::new())
}

/// Decodes the diffuse texture and describes the depth buffer of the surface.
pub fn create_texture(config: &SurfaceConfiguration, image_bytes: &[u8]) -> (result: Result<
    (TextureDescriptor, Texture),
    TextureError,
>)
    ensures
        result matches Ok(textures) ==> (textures.0 == attachment_descriptor(
            *config,
            MSAA_SAMPLE_COUNT,
            TextureFormat::Depth32Float,
        ) && textures.1.wf()),
        result matches Err(error) ==> (error == TextureError::Decode || error
            == TextureError::RowTooLong),
{
    match Texture::from_bytes(image_bytes) {
        Ok(diffuse_texture) => {
            let depth_texture = Texture::create_depth_texture(config, MSAA_SAMPLE_COUNT);
            Ok((depth_texture, diffuse_texture))
        },
        Err(error) => Err(error),
    }
}

/// Where the colour of a render pass goes.
#[derive(Clone, Copy, Debug, PartialEq, Eq, Structural)]
pub enum ColorTarget {
    /// Straight to the image of the surface.
    Surface,
    /// To the multisample colour buffer.
    MultisampledFramebuffer,
}

/// The groups of resources that the shader reads.
#[derive(Clone, Copy, Debug, PartialEq, Eq, Structural)]
pub enum BindGroup {
    /// The diffuse texture and its sampler.
    Diffuse,
    /// The camera's uniform.
    Camera,
    /// The light's uniform.
    Light,
}

/// One command of the render pass.
#[derive(Clone, Copy, Debug, PartialEq, Eq, Structural)]
pub enum DrawCommand {
    SetPipeline,
    SetBindGroup { slot: u32, group: BindGroup },
    /// Binds the whole vertex buffer.
    SetVertexBuffer { slot: u32 },
    /// Binds the whole index buffer, of 32-bit indices.
    SetIndexBuffer,
    /// Draws the indices from `first_index` up to `end_index`, once for each
    /// instance from `first_instance` up to `end_instance`.
    DrawIndexed {
        first_index: u32,
        end_index: u32,
        base_vertex: i32,
        first_instance: u32,
        end_instance: u32,
    },
}

/// A uniform buffer that is written anew for each frame.
#[derive(Clone, Copy, Debug, PartialEq, Eq, Structural)]
pub enum UniformBuffer {
    /// The camera's position and its view-projection matrix.
    Camera,
    /// The light, which stands where the camera does.
    Light,
}

/// One write of a whole uniform into its buffer, from byte `offset` on.
#[derive(Clone, Copy, Debug, PartialEq, Eq, Structural)]
pub struct UniformWrite {
    pub buffer: UniformBuffer,
    pub offset: u64,
}

/// The writes of a frame's update: the camera's uniform first, then the
/// light's, whose position is taken from the camera's.
pub open spec fn frame_updates() -> Seq<UniformWrite> {
    seq![
        UniformWrite { buffer: UniformBuffer::Camera, offset: 0 },
        UniformWrite { buffer: UniformBuffer::Light, offset: 0 },
    ]
}

/// The one render pass of a frame. Colour and depth are cleared when it
/// begins and stored when it ends.
#[derive(Debug)]
pub struct RenderPass {
    pub color_target: ColorTarget,
    pub commands: Vec<DrawCommand>,
}

/// The colour target for a sample count: the surface itself without
/// multisampling, else the multisample buffer.
pub open spec fn color_target(sample_count: u32) -> ColorTarget {
    if sample_count == 1 {
        ColorTarget::Surface
    } else {
        ColorTarget::MultisampledFramebuffer
    }
}

/// The commands of a frame that draws `num_indices` indices: the pipeline,
/// the texture, camera and light in slots 0, 1 and 2, the two buffers, and
/// one indexed draw over all indices.
pub open spec fn frame_commands(num_indices: u32) -> Seq<DrawCommand> {
    seq![
        DrawCommand::SetPipeline,
        DrawCommand::SetBindGroup { slot: 0, group: BindGroup::Diffuse },
        DrawCommand::SetBindGroup { slot: 1, group: BindGroup::Camera },
        DrawCommand::SetBindGroup { slot: 2, group: BindGroup::Light },
        DrawCommand::SetVertexBuffer { slot: 0 },
        DrawCommand::SetIndexBuffer,
        DrawCommand::DrawIndexed {
            first_index: 0,
            end_index: num_indices,
            base_vertex: 0,
            first_instance: 0,
            end_instance: 1,
        },
    ]
}

/// Computes [`color_target`].
pub fn color_target_for(sample_count: u32) -> (target: ColorTarget)
    ensures
        target == color_target(sample_count),
{
    if sample_count == 1 {
        ColorTarget::Surface
    } else {
        ColorTarget::MultisampledFramebuffer
    }
}

/// How vertices are put together into primitives.
#[derive(Clone, Copy, Debug, PartialEq, Eq, Structural)]
pub enum PrimitiveTopology {
    PointList,
    LineList,
    LineStrip,
    TriangleList,
    TriangleStrip,
}

/// The winding of a triangle that faces the viewer.
#[derive(Clone, Copy, Debug, PartialEq, Eq, Structural)]
pub enum FrontFace {
    Ccw,
    Cw,
}

/// A side of a triangle.
#[derive(Clone, Copy, Debug, PartialEq, Eq, Structural)]
pub enum Face {
    Front,
    Back,
}

/// The test that a fragment's depth has to pass against the stored one.
#[derive(Clone, Copy, Debug, PartialEq, Eq, Structural)]
pub enum CompareFunction {
    Never,
    Less,
    Equal,
    LessEqual,
    Greater,
    NotEqual,
    GreaterEqual,
    Always,
}

/// The fixed state of the render pipeline, besides its layouts.
#[derive(Clone, Copy, Debug, PartialEq, Eq, Structural)]
pub struct PipelineState {
    pub topology: PrimitiveTopology,
    pub front_face: FrontFace,
    pub cull_mode: Option<Face>,
    pub target_format: TextureFormat,
    pub depth_format: TextureFormat,
    pub depth_write_enabled: bool,
    pub depth_compare: CompareFunction,
    pub sample_count: u32,
}

/// The description from which the graphics backend creates the render
/// pipeline.
#[derive(Debug)]
pub struct PipelineDescriptor {
    /// The bind group that each slot takes, slot 0 first.
    pub bind_groups: Vec<BindGroup>,
    pub vertex_layout: VertexBufferLayout,
    pub state: PipelineState,
}

/// The pipeline's state: lists of triangles, counter-clockwise ones facing
/// the viewer and the others culled, drawn in the surface's format where
/// they are nearer than what the depth buffer holds.
pub open spec fn pipeline_state(sample_count: u32) -> PipelineState {
    PipelineState {
        topology: PrimitiveTopology::TriangleList,
        front_face: FrontFace::Ccw,
        cull_mode: Some(Face::Back),
        target_format: TextureFormat::Surface,
        depth_format: TextureFormat::Depth32Float,
        depth_write_enabled: true,
        depth_compare: CompareFunction::Less,
        sample_count,
    }
}

/// The bind groups of the pipeline, by slot: texture, camera, light.
pub open spec fn pipeline_bind_groups() -> Seq<BindGroup> {
    seq![BindGroup::Diffuse, BindGroup::Camera, BindGroup::Light]
}

/// Describes the render pipeline.
pub fn create_pipeline(sample_count: u32) -> (pipeline: PipelineDescriptor)
    ensures
        pipeline.bind_groups@ == pipeline_bind_groups(),
        pipeline.vertex_layout.array_stride == 32,
        pipeline.vertex_layout.attributes@ == packed_attributes(vertex_formats()),
        pipeline.state == pipeline_state(sample_count),
{
    let mut bind_groups: Vec<BindGroup> = Vec::new();
    bind_groups.push(BindGroup::Diffuse);
    bind_groups.push(BindGroup::Camera);
    bind_groups.push(BindGroup::Light);
    assert(bind_groups@ =~= pipeline_bind_groups());
    PipelineDescriptor {
        bind_groups,
        vertex_layout: desc(),
        state: PipelineState {
            topology: PrimitiveTopology::TriangleList,
            front_face: FrontFace::Ccw,
            cull_mode: Some(Face::Back),
            target_format: TextureFormat::Surface,
            depth_format: TextureFormat::Depth32Float,
            depth_write_enabled: true,
            depth_compare: CompareFunction::Less,
            sample_count,
        },
    }
}

/// The renderer's state, as contracts see it.
pub struct GraphicsView {
    pub surface_config: SurfaceConfiguration,
    pub depth_texture: TextureDescriptor,
    pub multisampled_framebuffer: TextureDescriptor,
    pub num_indices: u32,
    pub camera_aspect: AspectRatio,
    pub held: HeldButtons,
}

impl GraphicsView {
    /// The surface is not empty, and the depth and multisample buffers are
    /// described at its size.
    pub open spec fn wf(self) -> bool {
        &&& self.surface_config.non_empty()
        &&& self.depth_texture == attachment_descriptor(
            self.surface_config,
            MSAA_SAMPLE_COUNT,
            TextureFormat::Depth32Float,
        )
        &&& self.multisampled_framebuffer == attachment_descriptor(
            self.surface_config,
            MSAA_SAMPLE_COUNT,
            TextureFormat::Surface,
        )
    }

    /// The state after initialization for a window of `size`.
    pub open spec fn initial(size: PhysicalSize, num_indices: u32) -> GraphicsView {
        GraphicsView {
            surface_config: size.surface(),
            depth_texture: attachment_descriptor(
                size.surface(),
                MSAA_SAMPLE_COUNT,
                TextureFormat::Depth32Float,
            ),
            multisampled_framebuffer: attachment_descriptor(
                size.surface(),
                MSAA_SAMPLE_COUNT,
                TextureFormat::Surface,
            ),
            num_indices,
            camera_aspect: size.aspect(),
            held: HeldButtons { drag_rotate: false, left: false, right: false },
        }
    }

    /// The state after the window was resized to `new_size`.
    pub open spec fn resized(self, new_size: PhysicalSize) -> GraphicsView {
        GraphicsView {
            surface_config: new_size.surface(),
            depth_texture: attachment_descriptor(
                new_size.surface(),
                MSAA_SAMPLE_COUNT,
                TextureFormat::Depth32Float,
            ),
            multisampled_framebuffer: attachment_descriptor(
                new_size.surface(),
                MSAA_SAMPLE_COUNT,
                TextureFormat::Surface,
            ),
            camera_aspect: new_size.surface().aspect(),
            ..self
        }
    }

    /// The state after an input event.
    pub open spec fn after_input(self, event: InputEvent) -> GraphicsView {
        GraphicsView { held: self.held.after(event), ..self }
    }
}

/// The renderer's state.
#[derive(Debug)]
pub struct Graphics {
    surface_config: SurfaceConfiguration,
    depth_texture: TextureDescriptor,
    multisampled_framebuffer: TextureDescriptor,
    num_indices: u32,
    camera_aspect: AspectRatio,
    camera_controller: CameraController,
}

impl View for Graphics {
    type V = GraphicsView;

    closed spec fn view(&self) -> GraphicsView {
        GraphicsView {
            surface_config: self.surface_config,
            depth_texture: self.depth_texture,
            multisampled_framebuffer: self.multisampled_framebuffer,
            num_indices: self.num_indices,
            camera_aspect: self.camera_aspect,
            held: self.camera_controller@,
        }
    }
}

/// What initialization hands to the graphics backend besides the state:
/// the diffuse texture and the sphere.
#[derive(Debug)]
pub struct Resources {
    pub diffuse_texture: Texture,
    pub mesh: Mesh,
}

/// Puts the renderer's first state together for a window of `size` that
/// draws `num_indices` indices.
pub fn assemble_graphics(size: PhysicalSize, num_indices: u32) -> (graphics: Graphics)
    ensures
        graphics@ == GraphicsView::initial(size, num_indices),
        graphics@.wf(),
{
    let surface_config = size.surface_configuration();
    let depth_texture = Texture::create_depth_texture(&surface_config, MSAA_SAMPLE_COUNT);
    let (camera_aspect, camera_controller) = create_camera(size);
    let multisampled_framebuffer = Texture::create_multisampled_framebuffer(
        &surface_config,
        MSAA_SAMPLE_COUNT,
    );
    Graphics {
        surface_config,
        depth_texture,
        multisampled_framebuffer,
        num_indices,
        camera_aspect,
        camera_controller,
    }
}

/// Initializes the renderer for a window of `size`: decodes the diffuse
/// texture from `image_bytes`, generates the sphere of `sphere`, and sets up
/// the state.
///
/// Fails only where the texture cannot be made.
pub fn create_graphics(size: PhysicalSize, image_bytes: &[u8], sphere: &SphereConfig) -> (result:
    Result<(Graphics, Resources), TextureError>)
    requires
        sphere.valid(),
        sphere.index_count() <= u32::MAX,
    ensures
        result matches Ok(made) ==> (made.0@ == GraphicsView::initial(
            size,
            sphere.index_count() as u32,
        ) && made.0@.wf() && made.1.diffuse_texture.wf() && made.1.mesh.is_sphere(*sphere)),
        result matches Err(error) ==> (error == TextureError::Decode || error
            == TextureError::RowTooLong),
{
    let surface_config = size.surface_configuration();
    match create_texture(&surface_config, image_bytes) {
        Ok((depth_texture, diffuse_texture)) => {
            let (camera_aspect, camera_controller) = create_camera(size);
            let multisampled_framebuffer = Texture::create_multisampled_framebuffer(
                &surface_config,
                MSAA_SAMPLE_COUNT,
            );
            let mesh = create_verts(sphere);
            let graphics = Graphics {
                surface_config,
                depth_texture,
                multisampled_framebuffer,
                num_indices: mesh.num_indices,
                camera_aspect,
                camera_controller,
            };
            Ok((graphics, Resources { diffuse_texture, mesh }))
        },
        Err(error) => Err(error),
    }
}

impl Graphics {
    #[verifier::type_invariant]
    spec fn well_formed(self) -> bool {
        self@.wf()
    }

    /// The size at which the surface is configured.
    pub fn surface_config(&self) -> (config: SurfaceConfiguration)
        ensures
            config == self@.surface_config,
            self@.wf(),
    {
        proof {
            use_type_invariant(self);
        }
        self.surface_config
    }

    /// The depth buffer to create for the current surface.
    pub fn depth_texture(&self) -> (descriptor: TextureDescriptor)
        ensures
            descriptor == self@.depth_texture,
            self@.wf(),
    {
        proof {
            use_type_invariant(self);
        }
        self.depth_texture
    }

    /// The multisample colour buffer to create for the current surface.
    pub fn multisampled_framebuffer(&self) -> (descriptor: TextureDescriptor)
        ensures
            descriptor == self@.multisampled_framebuffer,
            self@.wf(),
    {
        proof {
            use_type_invariant(self);
        }
        self.multisampled_framebuffer
    }

    /// The number of indices that a frame draws.
    pub fn num_indices(&self) -> (count: u32)
        ensures
            count == self@.num_indices,
    {
        self.num_indices
    }

    /// The camera's aspect ratio.
    pub fn camera_aspect(&self) -> (aspect: AspectRatio)
        ensures
            aspect == self@.camera_aspect,
    {
        self.camera_aspect
    }

    /// The input state of the camera.
    pub fn camera_controller(&self) -> (controller: &CameraController)
        ensures
            controller@ == self@.held,
    {
        &self.camera_controller
    }

    /// Takes a new window size: the surface, the depth buffer and the
    /// multisample buffer follow it, each side at least one pixel, and the
    /// camera's aspect ratio becomes that of the surface.
    pub fn resize(&mut self, new_size: PhysicalSize)
        ensures
            final(self)@ == old(self)@.resized(new_size),
            final(self)@.wf(),
    {
        let surface_config = new_size.surface_configuration();
        let depth_texture = Texture::create_depth_texture(&surface_config, MSAA_SAMPLE_COUNT);
        let multisampled_framebuffer = Texture::create_multisampled_framebuffer(
            &surface_config,
            MSAA_SAMPLE_COUNT,
        );
        *self = Graphics {
            surface_config,
            depth_texture,
            multisampled_framebuffer,
            num_indices: self.num_indices,
            camera_aspect: surface_config.aspect_ratio(),
            camera_controller: self.camera_controller,
        };
    }

    /// Plans the frame's update: which uniforms are computed and written,
    /// in which order. The state is left as it is.
    pub fn update(&self) -> (writes: Vec<UniformWrite>)
        ensures
            writes@ == frame_updates(),
    {
        let mut writes: Vec<UniformWrite> = Vec::new();
        writes.push(UniformWrite { buffer: UniformBuffer::Camera, offset: 0 });
        writes.push(UniformWrite { buffer: UniformBuffer::Light, offset: 0 });
        assert(writes@ =~= frame_updates());
        writes
    }

    /// Plans the frame's render pass. The state is left as it is.
    pub fn draw(&self) -> (pass: RenderPass)
        ensures
            pass.color_target == color_target(MSAA_SAMPLE_COUNT),
            pass.commands@ == frame_commands(self@.num_indices),
    {
        let mut commands: Vec<DrawCommand> = Vec::new();
        commands.push(DrawCommand::SetPipeline);
        commands.push(DrawCommand::SetBindGroup { slot: 0, group: BindGroup::Diffuse });
        commands.push(DrawCommand::SetBindGroup { slot: 1, group: BindGroup::Camera });
        commands.push(DrawCommand::SetBindGroup { slot: 2, group: BindGroup::Light });
        commands.push(DrawCommand::SetVertexBuffer { slot: 0 });
        commands.push(DrawCommand::SetIndexBuffer);
        commands.push(
            DrawCommand::DrawIndexed {
                first_index: 0,
                end_index: self.num_indices,
                base_vertex: 0,
                first_instance: 0,
                end_instance: 1,
            },
        );
        assert(commands@ =~= frame_commands(self@.num_indices));
        RenderPass { color_target: color_target_for(MSAA_SAMPLE_COUNT), commands }
    }

    /// Hands an input event to the camera's controller.
    pub fn process_camera_event(&mut self, event: &InputEvent) -> (command: CameraCommand)
        ensures
            final(self)@ == old(self)@.after_input(*event),
            final(self)@.wf(),
            command == old(self)@.held.command(*event),
    {
        proof {
            use_type_invariant(&*self);
        }
        let mut camera_controller = self.camera_controller;
        let command = camera_controller.process_events(event);
        *self = Graphics {
            surface_config: self.surface_config,
            depth_texture: self.depth_texture,
            multisampled_framebuffer: self.multisampled_framebuffer,
            num_indices: self.num_indices,
            camera_aspect: self.camera_aspect,
            camera_controller,
        };
        command
    }
}

/// Resizing twice to the same size leaves the state as the first resize
/// left it: the surface configuration, the buffers and the camera's aspect
/// ratio.
pub proof fn lemma_resize_idempotent(state: GraphicsView, size: PhysicalSize)
    ensures
        state.resized(size).resized(size) == state.resized(size),
        state.resized(size).wf(),
{
}

/// A frame binds to each slot the group that the pipeline expects there,
/// and ends with the one draw over all indices.
pub proof fn lemma_frame_matches_pipeline(num_indices: u32, i: int)
    requires
        0 <= i < frame_commands(num_indices).len(),
    ensures
        frame_commands(num_indices).len() == 7,
        frame_commands(num_indices)[0] == DrawCommand::SetPipeline,
        frame_commands(num_indices)[i] matches DrawCommand::SetBindGroup { slot, group } ==> slot
            < pipeline_bind_groups().len() && pipeline_bind_groups()[slot as int] == group,
        frame_commands(num_indices)[i] is DrawIndexed <==> i == 6,
        frame_commands(num_indices)[6] matches DrawCommand::DrawIndexed {
            first_index,
            end_index,
            ..
        } && first_index == 0 && end_index == num_indices,
{
}

/// The depth buffer and the multisample buffer of a well-formed state fit
/// the pipeline: the same sample count, the depth format it tests against,
/// and the surface's size.
pub proof fn lemma_attachments_match_pipeline(state: GraphicsView)
    requires
        state.wf(),
    ensures
        state.depth_texture.format == pipeline_state(MSAA_SAMPLE_COUNT).depth_format,
        state.depth_texture.sample_count == pipeline_state(MSAA_SAMPLE_COUNT).sample_count,
        state.multisampled_framebuffer.format == pipeline_state(MSAA_SAMPLE_COUNT).target_format,
        state.multisampled_framebuffer.sample_count == pipeline_state(
            MSAA_SAMPLE_COUNT,
        ).sample_count,
        state.depth_texture.width == state.surface_config.width,
        state.depth_texture.height == state.surface_config.height,
        state.multisampled_framebuffer.width == state.surface_config.width,
        state.multisampled_framebuffer.height == state.surface_config.height,
        state.depth_texture.width >= 1 && state.depth_texture.height >= 1,
{
}

/// Initialization, a resize and an input event each lead to a well-formed
/// state: the surface is never empty, and the depth and multisample buffers
/// are as large as it.
pub proof fn lemma_states_well_formed(state: GraphicsView, size: PhysicalSize, event: InputEvent)
    requires
        state.wf(),
    ensures
        GraphicsView::initial(size, state.num_indices).wf(),
        state.resized(size).wf(),
        state.after_input(event).wf(),
{
}

} // verus!
