use sitelen::sphere::{get_sphere_vertices, GridVertex, SphereConfig};

fn config(h_segments: u32, v_segments: u32) -> SphereConfig {
    SphereConfig { h_segments, v_segments }
}

#[test]
fn default_tessellation_counts() {
    let config = SphereConfig::default();
    assert_eq!(config.h_segments, 500);
    assert_eq!(config.v_segments, 340);
    assert!(config.is_valid());
    assert!(config.fits_index_buffer());
    let (vertices, indices) = get_sphere_vertices(&config);
    assert_eq!(vertices.len(), 501 * 341);
    assert_eq!(vertices.len(), 170_841);
    assert_eq!(indices.len(), 6 * 500 * 339);
    assert_eq!(indices.len(), 1_017_000);
}

#[test]
fn default_indices_come_in_threes_and_name_vertices() {
    let (vertices, indices) = get_sphere_vertices(&SphereConfig::default());
    assert_eq!(indices.len() % 3, 0);
    let count = vertices.len() as u32;
    assert!(indices.iter().all(|&index| index < count));
}

#[test]
fn two_by_two_grid_is_exact() {
    let (vertices, indices) = get_sphere_vertices(&config(2, 2));
    let expected_vertices = vec![
        GridVertex { ix: 0, iy: 0, u_half_steps: 1 },
        GridVertex { ix: 1, iy: 0, u_half_steps: 1 },
        GridVertex { ix: 2, iy: 0, u_half_steps: 1 },
        GridVertex { ix: 0, iy: 1, u_half_steps: 0 },
        GridVertex { ix: 1, iy: 1, u_half_steps: 0 },
        GridVertex { ix: 2, iy: 1, u_half_steps: 0 },
        GridVertex { ix: 0, iy: 2, u_half_steps: -1 },
        GridVertex { ix: 1, iy: 2, u_half_steps: -1 },
        GridVertex { ix: 2, iy: 2, u_half_steps: -1 },
    ];
    assert_eq!(vertices, expected_vertices);
    assert_eq!(indices, vec![8, 4, 5, 7, 3, 4, 5, 4, 1, 4, 3, 0]);
}

#[test]
fn three_rings_give_both_triangles_in_the_middle() {
    let (vertices, indices) = get_sphere_vertices(&config(1, 3));
    assert_eq!(vertices.len(), 2 * 4);
    // Generated: ring 0 gives (b, c, d) = (0, 2, 3); ring 1 gives (a, b, d) = (3, 2, 5)
    // and (b, c, d) = (2, 4, 5); ring 2 gives (a, b, d) = (5, 4, 7). Then back to front.
    assert_eq!(indices, vec![7, 4, 5, 5, 4, 2, 5, 2, 3, 3, 2, 0]);
}

#[test]
fn one_vertical_segment_gives_no_triangle() {
    let (vertices, indices) = get_sphere_vertices(&config(4, 1));
    assert_eq!(vertices.len(), 5 * 2);
    assert!(indices.is_empty());
    assert_eq!(vertices[0].u_half_steps, 1);
    assert_eq!(vertices[5].u_half_steps, -1);
}

#[test]
fn pole_rings_are_offset_and_inner_rings_are_not() {
    let config = config(7, 5);
    let (vertices, _) = get_sphere_vertices(&config);
    for iy in 0..=5u32 {
        for ix in 0..=7u32 {
            let vertex = vertices[(iy * 8 + ix) as usize];
            assert_eq!(vertex.ix, ix);
            assert_eq!(vertex.iy, iy);
            let expected = if iy == 0 {
                1
            } else if iy == 5 {
                -1
            } else {
                0
            };
            assert_eq!(vertex.u_half_steps, expected);
        }
    }
}

#[test]
fn pole_offset_is_half_a_step_of_the_texture() {
    let config = config(500, 340);
    let (vertices, _) = get_sphere_vertices(&config);
    let h = config.h_segments as f32;
    let u = |vertex: &GridVertex| vertex.ix as f32 / h + vertex.u_half_steps as f32 * 0.5 / h;
    let first = &vertices[3];
    assert_eq!(u(first), 3.0 / h + 0.5 / h);
    let last = &vertices[340 * 501 + 3];
    assert_eq!(u(last), 3.0 / h - 0.5 / h);
    let inner = &vertices[170 * 501 + 3];
    assert_eq!(u(inner), 3.0 / h);
}

#[test]
fn index_counts_follow_the_formula() {
    for (h, v) in [(1u32, 1u32), (1, 2), (3, 2), (5, 4), (16, 9)] {
        let (vertices, indices) = get_sphere_vertices(&config(h, v));
        assert_eq!(vertices.len() as u32, (h + 1) * (v + 1));
        assert_eq!(indices.len() as u32, 6 * h * (v - 1));
        assert_eq!(indices.len() % 3, 0);
        assert!(indices.iter().all(|&index| (index as usize) < vertices.len()));
    }
}

#[test]
fn triangles_span_neighbouring_rings() {
    let config = config(6, 5);
    let (vertices, indices) = get_sphere_vertices(&config);
    for triangle in indices.chunks(3) {
        let rings: Vec<u32> = triangle.iter().map(|&i| vertices[i as usize].iy).collect();
        let low = *rings.iter().min().unwrap();
        let high = *rings.iter().max().unwrap();
        assert_eq!(high, low + 1);
        assert_ne!(triangle[0], triangle[1]);
        assert_ne!(triangle[1], triangle[2]);
        assert_ne!(triangle[0], triangle[2]);
    }
}

#[test]
fn degenerate_and_oversized_tessellations_are_not_valid() {
    assert!(!config(0, 340).is_valid());
    assert!(!config(500, 0).is_valid());
    assert!(!config(0, 0).is_valid());
    assert!(config(1, 1).is_valid());
    assert!(config(65_534, 65_535).is_valid());
    assert!(!config(65_535, 65_535).is_valid());
    assert!(!config(u32::MAX, u32::MAX).is_valid());
    assert!(!config(u32::MAX, 1).is_valid());
}

#[test]
fn index_buffer_limit_is_exact() {
    // 6 * h * (v - 1) against 4_294_967_295.
    assert!(config(715_827, 1_001).fits_index_buffer());
    assert!(config(65_534, 10_923).fits_index_buffer());
    assert!(!config(65_534, 10_925).fits_index_buffer());
    assert!(config(1, 1).fits_index_buffer());
    assert!(config(u32::MAX, 0).fits_index_buffer());
    assert!(config(u32::MAX, 1).fits_index_buffer());
    assert!(!config(u32::MAX, u32::MAX).fits_index_buffer());
    assert!(config(715_827_882, 2).fits_index_buffer());
    assert!(!config(715_827_883, 2).fits_index_buffer());
}
