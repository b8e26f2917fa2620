use glcookbook::objects::objmesh::{parse_obj, post_processing, ObjMeshConfiguration, Span};

fn token<'a>(text: &'a str, sp: Span) -> &'a str {
    &text[sp.start..sp.end]
}

#[test]
fn obj_positions_only() {
    let text = "# a triangle\nv 0 0 0\nv 1.5 0 0\nv 0 1 -2\nf 1 2 3\n";
    let data = parse_obj(text.as_bytes()).expect("valid text");
    assert_eq!(data.vertices.len(), 3);
    assert_eq!(data.indices, vec![0, 1, 2]);
    assert_eq!(token(text, data.vertices[1].x), "1.5");
    assert_eq!(token(text, data.vertices[2].z), "-2");
    assert!(data.vertices.iter().all(|v| v.normal.is_none() && v.texcoord.is_none()));
}

#[test]
fn obj_faces_attach_texcoords_and_normals() {
    let text = "v 0 0 0\nv 1 0 0\nv 0 1 0\nvt 0 0\nvt 1 0\nvn 0 0 1\nvn 0 1 0\nf 1/1/2 2/2/1 3/1/1\n";
    let data = parse_obj(text.as_bytes()).expect("valid text");
    assert_eq!(data.texcoords.len(), 2);
    assert_eq!(data.normals.len(), 2);
    assert_eq!(data.vertices[0].texcoord, Some(0));
    assert_eq!(data.vertices[0].normal, Some(1));
    assert_eq!(data.vertices[1].texcoord, Some(1));
    assert_eq!(data.vertices[1].normal, Some(0));
    assert_eq!(token(text, data.normals[1].y), "1");
    assert_eq!(token(text, data.texcoords[1].u), "1");
}

#[test]
fn obj_normals_without_texcoords_use_second_field() {
    let text = "v 0 0 0\nv 1 0 0\nv 0 1 0\nvn 0 0 1\nf 1/1 2/1 3/1\n";
    let data = parse_obj(text.as_bytes()).expect("valid text");
    assert_eq!(data.vertices[2].normal, Some(0));
    assert_eq!(data.vertices[2].texcoord, None);
    // `p//n` has an empty second field, which is not a number.
    let bad = "v 0 0 0\nv 1 0 0\nv 0 1 0\nvn 0 0 1\nf 1//1 2//1 3//1\n";
    assert!(parse_obj(bad.as_bytes()).is_none());
}

#[test]
fn obj_later_face_overwrites_attributes() {
    let text = "v 0 0 0\nv 1 0 0\nv 0 1 0\nvt 0 0\nvt 1 1\nf 1/1 2/1 3/1\nf 1/2 2/2 3/2\n";
    let data = parse_obj(text.as_bytes()).expect("valid text");
    assert_eq!(data.indices, vec![0, 1, 2, 0, 1, 2]);
    assert!(data.vertices.iter().all(|v| v.texcoord == Some(1)));
}

#[test]
fn obj_invalid_inputs() {
    // a face index of zero
    assert!(parse_obj(b"v 0 0 0\nf 0 1 1\n").is_none());
    // a vertex line with two coordinates
    assert!(parse_obj(b"v 0 0\n").is_none());
    // a face with two corners
    assert!(parse_obj(b"f 1 2\n").is_none());
    // a face naming a missing normal
    assert!(parse_obj(b"v 0 0 0\nvn 0 0 1\nf 1/2 1/1 1/1\n").is_none());
    // a face naming a missing vertex when normals exist
    assert!(parse_obj(b"v 0 0 0\nvn 0 0 1\nf 2/1 1/1 1/1\n").is_none());
    // a non-numeric face index
    assert!(parse_obj(b"f a 1 1\n").is_none());
}

#[test]
fn obj_unlooked_vertices_and_plus_sign() {
    // Without texture coordinates or normals the vertices are not looked up.
    let data = parse_obj(b"f +7 8 9 extra\n").expect("valid text");
    assert_eq!(data.indices, vec![6, 7, 8]);
    assert!(data.vertices.is_empty());
}

#[test]
fn obj_whitespace_and_unknown_lines() {
    let text = "\r\n  o name\r\nv\t1 2 3\r\ns off\n\nv 4 5 6";
    let data = parse_obj(text.as_bytes()).expect("valid text");
    assert_eq!(data.vertices.len(), 2);
    assert_eq!(token(text, data.vertices[0].x), "1");
    assert_eq!(token(text, data.vertices[1].z), "6");
    assert!(parse_obj(b"").expect("empty text").vertices.is_empty());
}

#[test]
fn obj_post_processing() {
    let config = ObjMeshConfiguration {
        is_with_adjacency: false,
        is_gen_tangents: true,
        is_center: true,
        is_print_load_message: false,
    };
    let plan = post_processing(&config, false).expect("supported");
    assert!(plan.generate_normals && plan.generate_tangents && plan.center && !plan.print_load_message);
    let plan = post_processing(&config, true).expect("supported");
    assert!(!plan.generate_normals);
    let adjacency = ObjMeshConfiguration { is_with_adjacency: true, ..config };
    assert!(post_processing(&adjacency, true).is_none());
}
