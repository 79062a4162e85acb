use image::{DynamicImage, ImageFormat, RgbaImage};
use sitelen::camera::controller::{CameraCommand, InputEvent};
use sitelen::graphics::{
    assemble_graphics, color_target_for, create_camera, create_graphics, create_pipeline,
    create_texture, create_verts, BindGroup, ColorTarget, CompareFunction, DrawCommand, Face,
    FrontFace, PrimitiveTopology, UniformBuffer, UniformWrite, MSAA_SAMPLE_COUNT,
};
use sitelen::sphere::{get_sphere_vertices, SphereConfig};
use sitelen::surface::{AspectRatio, PhysicalSize, SurfaceConfiguration};
use sitelen::texture::{TextureError, TextureFormat};
use std::io::Cursor;

fn size(width: u32, height: u32) -> PhysicalSize {
    PhysicalSize { width, height }
}

fn small_png() -> Vec<u8> {
    let rgba = RgbaImage::from_raw(2, 1, vec![1, 2, 3, 4, 5, 6, 7, 8]).unwrap();
    let mut bytes = Vec::new();
    DynamicImage::ImageRgba8(rgba)
        .write_to(&mut Cursor::new(&mut bytes), ImageFormat::Png)
        .unwrap();
    bytes
}

#[test]
fn no_multisampling_by_default() {
    assert_eq!(MSAA_SAMPLE_COUNT, 1);
    assert_eq!(color_target_for(1), ColorTarget::Surface);
    assert_eq!(color_target_for(4), ColorTarget::MultisampledFramebuffer);
    assert_eq!(color_target_for(0), ColorTarget::MultisampledFramebuffer);
}

#[test]
fn index_bytes_are_the_indices_in_memory() {
    let config = SphereConfig { h_segments: 2, v_segments: 2 };
    let mesh = create_verts(&config);
    let (vertices, indices) = get_sphere_vertices(&config);
    assert_eq!(mesh.vertices, vertices);
    assert_eq!(mesh.num_indices, 12);
    let expected: Vec<u8> = indices.iter().flat_map(|index| index.to_ne_bytes()).collect();
    assert_eq!(mesh.index_bytes, expected);
    assert_eq!(mesh.index_bytes.len(), 48);
    assert_eq!(&mesh.index_bytes[..4], &8u32.to_ne_bytes());
}

#[test]
fn index_bytes_keep_the_high_bytes() {
    let config = SphereConfig { h_segments: 300, v_segments: 300 };
    let mesh = create_verts(&config);
    let (_, indices) = get_sphere_vertices(&config);
    assert!(indices.iter().any(|&index| index > 0xffff));
    let read: Vec<u32> = mesh
        .index_bytes
        .chunks(4)
        .map(|chunk| u32::from_ne_bytes([chunk[0], chunk[1], chunk[2], chunk[3]]))
        .collect();
    assert_eq!(read, indices);
    assert_eq!(mesh.num_indices as usize, indices.len());
}

#[test]
fn default_sphere_fills_the_buffers() {
    let mesh = create_verts(&SphereConfig::default());
    assert_eq!(mesh.vertices.len(), 170_841);
    assert_eq!(mesh.num_indices, 1_017_000);
    assert_eq!(mesh.index_bytes.len(), 4_068_000);
}

#[test]
fn camera_starts_with_the_window_aspect() {
    let (aspect, controller) = create_camera(size(800, 600));
    assert_eq!(aspect, AspectRatio { width: 800, height: 600 });
    assert!(!controller.is_drag_rotate());
    assert!(!controller.is_left_down());
    assert!(!controller.is_right_down());
    let (flat, _) = create_camera(size(640, 0));
    assert_eq!(flat, AspectRatio { width: 640, height: 0 });
}

#[test]
fn surface_is_never_empty() {
    assert_eq!(size(0, 0).surface_configuration(), SurfaceConfiguration { width: 1, height: 1 });
    assert_eq!(size(0, 7).surface_configuration(), SurfaceConfiguration { width: 1, height: 7 });
    assert_eq!(size(9, 0).surface_configuration(), SurfaceConfiguration { width: 9, height: 1 });
    assert_eq!(
        size(800, 600).surface_configuration(),
        SurfaceConfiguration { width: 800, height: 600 }
    );
    assert_eq!(
        size(u32::MAX, 1).surface_configuration(),
        SurfaceConfiguration { width: u32::MAX, height: 1 }
    );
}

#[test]
fn first_state_follows_the_window() {
    let graphics = assemble_graphics(size(800, 600), 1_017_000);
    assert_eq!(graphics.surface_config(), SurfaceConfiguration { width: 800, height: 600 });
    assert_eq!(graphics.camera_aspect(), AspectRatio { width: 800, height: 600 });
    assert_eq!(graphics.num_indices(), 1_017_000);
    let depth = graphics.depth_texture();
    assert_eq!((depth.width, depth.height), (800, 600));
    assert_eq!(depth.format, TextureFormat::Depth32Float);
    assert_eq!(depth.sample_count, 1);
    let buffer = graphics.multisampled_framebuffer();
    assert_eq!((buffer.width, buffer.height), (800, 600));
    assert_eq!(buffer.format, TextureFormat::Surface);
    assert_eq!(buffer.sample_count, 1);
    assert!(!graphics.camera_controller().is_drag_rotate());
}

#[test]
fn first_state_of_an_empty_window() {
    let graphics = assemble_graphics(size(0, 0), 0);
    assert_eq!(graphics.surface_config(), SurfaceConfiguration { width: 1, height: 1 });
    assert_eq!(graphics.camera_aspect(), AspectRatio { width: 0, height: 0 });
    assert_eq!(graphics.depth_texture().width, 1);
    assert_eq!(graphics.depth_texture().height, 1);
}

#[test]
fn resize_recreates_what_depends_on_the_size() {
    let mut graphics = assemble_graphics(size(800, 600), 12);
    graphics.resize(size(400, 600));
    assert_eq!(graphics.surface_config(), SurfaceConfiguration { width: 400, height: 600 });
    assert_eq!(graphics.camera_aspect(), AspectRatio { width: 400, height: 600 });
    assert_eq!(graphics.depth_texture().width, 400);
    assert_eq!(graphics.depth_texture().height, 600);
    assert_eq!(graphics.multisampled_framebuffer().width, 400);
    assert_eq!(graphics.multisampled_framebuffer().height, 600);
    assert_eq!(graphics.num_indices(), 12);
}

#[test]
fn resize_keeps_every_side_at_least_one() {
    let mut graphics = assemble_graphics(size(800, 600), 12);
    graphics.resize(size(0, 0));
    assert_eq!(graphics.surface_config(), SurfaceConfiguration { width: 1, height: 1 });
    assert_eq!(graphics.camera_aspect(), AspectRatio { width: 1, height: 1 });
    assert_eq!(graphics.depth_texture().width, 1);
    graphics.resize(size(300, 0));
    assert_eq!(graphics.surface_config(), SurfaceConfiguration { width: 300, height: 1 });
    assert_eq!(graphics.camera_aspect(), AspectRatio { width: 300, height: 1 });
}

#[test]
fn resize_twice_is_resize_once() {
    let mut graphics = assemble_graphics(size(800, 600), 12);
    graphics.process_camera_event(&InputEvent::Button { button: 2, pressed: true });
    graphics.resize(size(1024, 0));
    let config = graphics.surface_config();
    let aspect = graphics.camera_aspect();
    let depth = graphics.depth_texture();
    let buffer = graphics.multisampled_framebuffer();
    graphics.resize(size(1024, 0));
    assert_eq!(graphics.surface_config(), config);
    assert_eq!(graphics.camera_aspect(), aspect);
    assert_eq!(graphics.depth_texture(), depth);
    assert_eq!(graphics.multisampled_framebuffer(), buffer);
    assert_eq!(graphics.num_indices(), 12);
    assert!(graphics.camera_controller().is_drag_rotate());
}

#[test]
fn update_writes_the_camera_before_the_light() {
    let graphics = assemble_graphics(size(800, 600), 12);
    assert_eq!(
        graphics.update(),
        vec![
            UniformWrite { buffer: UniformBuffer::Camera, offset: 0 },
            UniformWrite { buffer: UniformBuffer::Light, offset: 0 },
        ]
    );
}

#[test]
fn draw_issues_one_indexed_draw_over_all_indices() {
    let graphics = assemble_graphics(size(800, 600), 1_017_000);
    let pass = graphics.draw();
    assert_eq!(pass.color_target, ColorTarget::Surface);
    assert_eq!(
        pass.commands,
        vec![
            DrawCommand::SetPipeline,
            DrawCommand::SetBindGroup { slot: 0, group: BindGroup::Diffuse },
            DrawCommand::SetBindGroup { slot: 1, group: BindGroup::Camera },
            DrawCommand::SetBindGroup { slot: 2, group: BindGroup::Light },
            DrawCommand::SetVertexBuffer { slot: 0 },
            DrawCommand::SetIndexBuffer,
            DrawCommand::DrawIndexed {
                first_index: 0,
                end_index: 1_017_000,
                base_vertex: 0,
                first_instance: 0,
                end_instance: 1,
            },
        ]
    );
}

#[test]
fn draw_leaves_the_state_alone() {
    let graphics = assemble_graphics(size(800, 600), 12);
    let first = graphics.draw();
    let second = graphics.draw();
    assert_eq!(first.commands, second.commands);
    assert_eq!(graphics.surface_config(), SurfaceConfiguration { width: 800, height: 600 });
    assert_eq!(graphics.camera_aspect(), AspectRatio { width: 800, height: 600 });
}

#[test]
fn camera_events_reach_the_controller() {
    let mut graphics = assemble_graphics(size(800, 600), 12);
    assert_eq!(graphics.process_camera_event(&InputEvent::MouseMotion), CameraCommand::Idle);
    graphics.process_camera_event(&InputEvent::Button { button: 2, pressed: true });
    assert!(graphics.camera_controller().is_drag_rotate());
    assert_eq!(
        graphics.process_camera_event(&InputEvent::MouseMotion),
        CameraCommand::Orbit { yaw_factor: -1, pitch_factor: 1 }
    );
    assert_eq!(graphics.surface_config(), SurfaceConfiguration { width: 800, height: 600 });
    assert_eq!(graphics.num_indices(), 12);
}

#[test]
fn pipeline_is_set_up_for_lit_textured_triangles() {
    let pipeline = create_pipeline(MSAA_SAMPLE_COUNT);
    assert_eq!(
        pipeline.bind_groups,
        vec![BindGroup::Diffuse, BindGroup::Camera, BindGroup::Light]
    );
    assert_eq!(pipeline.vertex_layout.array_stride, 32);
    assert_eq!(pipeline.vertex_layout.attributes.len(), 3);
    assert_eq!(pipeline.state.topology, PrimitiveTopology::TriangleList);
    assert_eq!(pipeline.state.front_face, FrontFace::Ccw);
    assert_eq!(pipeline.state.cull_mode, Some(Face::Back));
    assert_eq!(pipeline.state.target_format, TextureFormat::Surface);
    assert_eq!(pipeline.state.depth_format, TextureFormat::Depth32Float);
    assert!(pipeline.state.depth_write_enabled);
    assert_eq!(pipeline.state.depth_compare, CompareFunction::Less);
    assert_eq!(pipeline.state.sample_count, 1);
    assert_eq!(create_pipeline(4).state.sample_count, 4);
}

#[test]
fn pipeline_fits_the_attachments() {
    let mut graphics = assemble_graphics(size(800, 600), 12);
    graphics.resize(size(17, 0));
    let pipeline = create_pipeline(MSAA_SAMPLE_COUNT);
    assert_eq!(graphics.depth_texture().format, pipeline.state.depth_format);
    assert_eq!(graphics.depth_texture().sample_count, pipeline.state.sample_count);
    assert_eq!(graphics.multisampled_framebuffer().sample_count, pipeline.state.sample_count);
}

#[test]
fn textures_are_created_for_the_surface() {
    let config = SurfaceConfiguration { width: 800, height: 600 };
    let (depth, diffuse) = create_texture(&config, &small_png()).unwrap();
    assert_eq!((depth.width, depth.height), (800, 600));
    assert_eq!(depth.format, TextureFormat::Depth32Float);
    assert_eq!(depth.sample_count, MSAA_SAMPLE_COUNT);
    assert_eq!((diffuse.descriptor.width, diffuse.descriptor.height), (2, 1));
    assert_eq!(diffuse.pixels, vec![1, 2, 3, 4, 5, 6, 7, 8]);
    assert_eq!(create_texture(&config, b"junk").unwrap_err(), TextureError::Decode);
}

#[test]
fn initialization_sets_everything_up() {
    let sphere = SphereConfig { h_segments: 4, v_segments: 3 };
    let (graphics, resources) = create_graphics(size(800, 600), &small_png(), &sphere).unwrap();
    assert_eq!(graphics.surface_config(), SurfaceConfiguration { width: 800, height: 600 });
    assert_eq!(graphics.camera_aspect(), AspectRatio { width: 800, height: 600 });
    assert_eq!(graphics.num_indices(), 6 * 4 * 2);
    assert_eq!(resources.mesh.num_indices, 48);
    assert_eq!(resources.mesh.vertices.len(), 5 * 4);
    assert_eq!(resources.mesh.index_bytes.len(), 4 * 48);
    assert_eq!(resources.diffuse_texture.descriptor.width, 2);
    assert_eq!(resources.diffuse_texture.descriptor.height, 1);
    assert_eq!(resources.diffuse_texture.pixels, vec![1, 2, 3, 4, 5, 6, 7, 8]);
}

#[test]
fn initialization_fails_without_the_texture() {
    let sphere = SphereConfig { h_segments: 4, v_segments: 3 };
    let error = create_graphics(size(800, 600), b"junk", &sphere).unwrap_err();
    assert_eq!(error, TextureError::Decode);
}
