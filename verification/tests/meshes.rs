use glcookbook::objects::{cube, frustum, plane, quad, skybox, sphere, teapot, teapot_patch, torus};

#[test]
fn torus_indices_small() {
    let indices = torus::generate_indices(3, 1);
    assert_eq!(
        indices,
        vec![0, 3, 4, 0, 4, 1, 1, 4, 5, 1, 5, 2, 2, 5, 3, 2, 3, 0]
    );
    assert_eq!(torus::vertex_count(3, 1), 6);
    assert!(indices.iter().all(|&i| (i as usize) < torus::vertex_count(3, 1)));
}

#[test]
fn torus_indices_count_and_range() {
    let indices = torus::generate_indices(8, 5);
    assert_eq!(indices.len(), 6 * 8 * 5);
    assert!(indices.iter().all(|&i| (i as usize) < torus::vertex_count(8, 5)));
    assert!(torus::generate_indices(0, 4).is_empty());
}

#[test]
fn plane_indices_small() {
    let indices = plane::generate_indices(2, 1);
    assert_eq!(indices, vec![0, 3, 4, 0, 4, 1, 1, 4, 5, 1, 5, 2]);
    assert_eq!(plane::vertex_count(2, 1), 6);
    let big = plane::generate_indices(7, 3);
    assert_eq!(big.len(), 7 * 3 * 6);
    assert!(big.iter().all(|&i| (i as usize) < plane::vertex_count(7, 3)));
}

#[test]
fn sphere_indices_small() {
    let indices = sphere::generate_indices(1, 3);
    // stack_start = 0, next_stack_start = 3
    assert_eq!(indices, vec![0, 1, 4, 1, 2, 5, 4, 1, 5, 2, 3, 5]);
    assert_eq!(indices.len(), 1 * 2 * (3 - 1) * 3);
}

#[test]
fn sphere_indices_count_and_range() {
    let indices = sphere::generate_indices(16, 8);
    assert_eq!(indices.len(), 16 * 2 * 7 * 3);
    assert!(indices.iter().all(|&i| (i as usize) < sphere::vertex_count(16, 8)));
    assert!(sphere::generate_indices(0, 1).is_empty());
}

#[test]
fn cube_and_skybox_faces() {
    let c = cube::generate_indices();
    let s = skybox::generate_indices();
    assert_eq!(&c[6..12], &[4, 5, 6, 4, 6, 7]);
    assert_eq!(&s[6..12], &[4, 6, 5, 4, 7, 6]);
    for t in 0..12 {
        assert_eq!(s[3 * t], c[3 * t]);
        assert_eq!(s[3 * t + 1], c[3 * t + 2]);
        assert_eq!(s[3 * t + 2], c[3 * t + 1]);
    }
}

#[test]
fn frustum_lines() {
    let l = frustum::line_indices();
    assert_eq!(&l[0..8], &[0, 5, 0, 6, 0, 7, 0, 8]);
    assert_eq!(&l[14..16], &[4, 1]);
    assert!(l.iter().all(|&i| i < 9));
}

#[test]
fn teapot_builds_order() {
    let builds = teapot::generate_patch_builds();
    assert_eq!(builds.len(), 32);
    let first = builds[0];
    assert_eq!(first.patch_num, 0);
    assert!(first.invert_normal && !first.reverse_v && !first.reflect_x && !first.reflect_y);
    let x = builds[1];
    assert!(x.reverse_v && x.reflect_x && !x.reflect_y && !x.invert_normal);
    let both = builds[3];
    assert!(!both.reverse_v && both.reflect_x && both.reflect_y && both.invert_normal);
    assert_eq!(builds[24].patch_num, 6);
    assert!(!builds[24].reflect_x);
    assert!(builds[25].reflect_y && builds[25].reverse_v);
    let lid: Vec<usize> = (0..32).filter(|&k| builds[k].patch_num == 3 || builds[k].patch_num == 4).collect();
    assert_eq!(lid, (12..20).collect::<Vec<usize>>());
}

#[test]
fn teapot_lid_range_and_indices() {
    assert_eq!(teapot::lid_vertex_range(2), (108, 180));
    assert_eq!(teapot::vertex_count(2), 288);
    let indices = teapot::generate_indices(2);
    assert_eq!(indices.len(), 32 * 2 * 2 * 6);
    assert_eq!(&indices[0..6], &[0, 4, 3, 0, 1, 4]);
    // the second copy starts at vertex 9
    assert_eq!(&indices[24..30], &[9, 13, 12, 9, 10, 13]);
    assert!(indices.iter().all(|&i| (i as usize) < teapot::vertex_count(2)));
}

#[test]
fn teapot_patch_slots() {
    assert_eq!(teapot::patch_slot(1, 0, false), 4);
    assert_eq!(teapot::patch_slot(1, 0, true), 7);
    let mut seen = [false; 16];
    for u in 0..4 {
        for v in 0..4 {
            let s = teapot::patch_slot(u, v, true);
            assert!(!seen[s]);
            seen[s] = true;
        }
    }
}

#[test]
fn teapot_patch_point_builds() {
    let builds = teapot_patch::generate_patch_builds();
    assert_eq!(builds.len() * teapot_patch::POINTS_PER_PATCH, 32 * 16);
    assert!(builds[0].reverse_v && !builds[0].reflect_x);
    assert!(!builds[1].reverse_v && builds[1].reflect_x);
    assert!(builds[3].reverse_v && builds[3].reflect_x && builds[3].reflect_y);
}

#[test]
fn cube_corners_lie_on_their_faces() {
    let corners = cube::generate_vertex_layout();
    let sky = skybox::generate_vertex_layout();
    for (k, c) in corners.iter().enumerate() {
        let p = [c.position.0, c.position.1, c.position.2];
        let n = [c.normal.0, c.normal.1, c.normal.2];
        for axis in 0..3 {
            assert!(p[axis] == 1 || p[axis] == -1);
            if n[axis] != 0 {
                assert_eq!(p[axis], n[axis]);
            }
        }
        assert_eq!(sky[k], c.position);
    }
    assert_eq!(corners[6].texcoord, (1, 1));
    assert!(cube::generate_indices().iter().all(|&i| i < 24));
}

#[test]
fn quad_texcoords_follow_positions() {
    let corners = quad::generate_vertex_layout();
    assert_eq!(corners[5].position, (-1, 1));
    for c in corners.iter() {
        assert_eq!(2 * c.texcoord.0 as i8 - 1, c.position.0);
        assert_eq!(2 * c.texcoord.1 as i8 - 1, c.position.1);
    }
}
