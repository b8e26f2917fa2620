use glcookbook::error::{GLError, GLErrorKind};
use glcookbook::texture::{
    check_face_dimension, check_faces_dimension, check_png_flip, cubemap_face_path, cubemap_face_step,
    load_png_pixels, png_content_from_decoded, CubeMapFaceExtension, PngColor,
};
use glcookbook::utils::{message_type_label, severity_label, source_label, DebugMessageType, DebugSeverity, DebugSource};

#[test]
fn face_paths() {
    let ext = CubeMapFaceExtension::Png.file_extension();
    assert_eq!(cubemap_face_path("media/texture/cube/pisa", ext, 0), "media/texture/cube/pisa_posx.png");
    assert_eq!(cubemap_face_path("sky", CubeMapFaceExtension::Hdr.file_extension(), 5), "sky_negz.hdr");
    assert_eq!(cubemap_face_path("a", "png", 3), "a_negy.png");
}

#[test]
fn face_dimension_checks() {
    assert!(check_face_dimension(64, 64).is_ok());
    match check_face_dimension(64, 32).unwrap_err().kind() {
        GLErrorKind::Custom { description } => {
            assert_eq!(description, "The cubemap face must share the same width and height.")
        }
        _ => panic!("wrong kind"),
    }
    assert!(check_faces_dimension(&vec![(8, 8); 6]).is_ok());
    let mut dims = vec![(8, 8); 6];
    dims[4] = (16, 16);
    match check_faces_dimension(&dims).unwrap_err().kind() {
        GLErrorKind::Custom { description } => {
            assert_eq!(description, "The image dimension is different among cubemap faces.")
        }
        _ => panic!("wrong kind"),
    }
}

#[test]
fn png_flip() {
    assert!(check_png_flip(false).is_ok());
    match check_png_flip(true).unwrap_err().kind() {
        GLErrorKind::Unimplemented { function } => assert_eq!(function, "Load png image with flipping."),
        _ => panic!("wrong kind"),
    }
}

#[test]
fn error_constructors() {
    match GLError::path("media/bs_ears.obj").kind() {
        GLErrorKind::Path { path } => assert_eq!(path, "media/bs_ears.obj"),
        _ => panic!("wrong kind"),
    }
    match GLError::device("Unable to create OpenGL context.").kind() {
        GLErrorKind::Device { ops_description } => assert_eq!(*ops_description, "Unable to create OpenGL context."),
        _ => panic!("wrong kind"),
    }
    assert!(matches!(GLError::unsupported("Tessellation").kind(), GLErrorKind::UnSupport { feature: "Tessellation" }));
    assert!(matches!(GLError::window("w").kind(), GLErrorKind::Window { .. }));
    assert!(matches!(GLError::custom("c").kind(), GLErrorKind::Custom { .. }));
}

#[test]
fn debug_labels() {
    assert_eq!(source_label(DebugSource::Api), "OpenGL");
    assert_eq!(source_label(DebugSource::ThirdParty), "3rdParty");
    assert_eq!(message_type_label(DebugMessageType::PushGroup), "PushGrp");
    assert_eq!(message_type_label(DebugMessageType::DeprecatedBehavior), "Deprecated");
    assert_eq!(severity_label(DebugSeverity::Medium), "MED");
    assert_eq!(severity_label(DebugSeverity::Notification), "NOTIFY");
}

fn encode_png(width: u32, height: u32, color: png::ColorType, pixels: &[u8]) -> Vec<u8> {
    let mut bytes = Vec::new();
    {
        let mut encoder = png::Encoder::new(&mut bytes, width, height);
        encoder.set_color(color);
        encoder.set_depth(png::BitDepth::Eight);
        let mut writer = encoder.write_header().unwrap();
        writer.write_image_data(pixels).unwrap();
    }
    bytes
}

#[test]
fn png_decoding_rgb() {
    let pixels = [255u8, 0, 0, 0, 255, 0, 0, 0, 255, 10, 20, 30];
    let bytes = encode_png(2, 2, png::ColorType::RGB, &pixels);
    let content = load_png_pixels(&bytes, false).unwrap();
    assert_eq!((content.width, content.height), (2, 2));
    assert_eq!(content.color_type, PngColor::Rgb);
    assert!(content.color_type.is_rgb_or_rgba());
    assert_eq!(content.buffer, pixels.to_vec());
}

#[test]
fn png_decoding_gray_and_rgba() {
    let gray = encode_png(3, 1, png::ColorType::Grayscale, &[1, 2, 3]);
    let content = load_png_pixels(&gray, false).unwrap();
    assert_eq!(content.color_type, PngColor::Grayscale);
    assert!(!content.color_type.is_rgb_or_rgba());
    assert_eq!(content.buffer, vec![1, 2, 3]);
    let rgba = encode_png(1, 1, png::ColorType::RGBA, &[9, 8, 7, 6]);
    let content = load_png_pixels(&rgba, false).unwrap();
    assert_eq!((content.width, content.height, content.color_type), (1, 1, PngColor::Rgba));
    assert_eq!(content.buffer, vec![9, 8, 7, 6]);
}

#[test]
fn png_decoding_errors() {
    let bytes = encode_png(1, 1, png::ColorType::RGB, &[1, 2, 3]);
    // flipping is refused before the bytes are looked at
    match load_png_pixels(&bytes, true).unwrap_err().kind() {
        GLErrorKind::Unimplemented { function } => assert_eq!(function, "Load png image with flipping."),
        _ => panic!("wrong kind"),
    }
    assert!(matches!(load_png_pixels(b"not a png file", false).unwrap_err().kind(), GLErrorKind::Custom { .. }));
    // a file cut short after its header
    assert!(matches!(load_png_pixels(&bytes[..bytes.len() / 2], false).unwrap_err().kind(), GLErrorKind::Custom { .. }));
    match png_content_from_decoded(Err("bad".to_string())).unwrap_err().kind() {
        GLErrorKind::Custom { description } => assert_eq!(description, "bad"),
        _ => panic!("wrong kind"),
    }
    let c = png_content_from_decoded(Ok((4, 5, PngColor::Indexed, vec![7]))).unwrap();
    assert_eq!((c.width, c.height, c.color_type, c.buffer), (4, 5, PngColor::Indexed, vec![7]));
}

#[test]
fn cubemap_steps() {
    let mut sizes = Vec::new();
    for _ in 0..5 {
        assert_eq!(cubemap_face_step(&sizes, 16, 16).unwrap(), false);
        sizes.push((16, 16));
    }
    assert_eq!(cubemap_face_step(&sizes, 16, 16).unwrap(), true);
    match cubemap_face_step(&sizes, 32, 32).unwrap_err().kind() {
        GLErrorKind::Custom { description } => {
            assert_eq!(description, "The image dimension is different among cubemap faces.")
        }
        _ => panic!("wrong kind"),
    }
    match cubemap_face_step(&vec![(16, 16)], 16, 8).unwrap_err().kind() {
        GLErrorKind::Custom { description } => {
            assert_eq!(description, "The cubemap face must share the same width and height.")
        }
        _ => panic!("wrong kind"),
    }
}

#[test]
fn error_messages() {
    assert_eq!(GLError::args("no recipe").message(), "Something wrong when parsing command line arguments: \n\tno recipe");
    assert_eq!(
        GLError::unsupported("Tessellation").message(),
        "Feature Tessellation is not supported in current OpenGL Device."
    );
    assert_eq!(GLError::device("Unable to create OpenGL context.").message(), "Invalid Operation: Unable to create OpenGL context.");
    assert_eq!(GLError::window("closed").message(), "Failed to interact with Window: closed.");
    assert_eq!(GLError::path("media/a b.obj").message(), "Failed to locate file at: \"media/a b.obj\"");
    assert_eq!(GLError::path("say \"hi\"").message(), "Failed to locate file at: \"say \\\"hi\\\"\"");
    assert_eq!(GLError::unimplemented("Flip").message(), "Flip is not implemented yet.");
    assert_eq!(GLError::custom("plain").message(), "plain");
    let e = GLError::create_program(glium::program::ProgramCreationError::LinkingError("bad link".to_string()));
    assert!(matches!(e.kind(), GLErrorKind::CreateProgram(_)));
    let m = e.message();
    assert!(m.starts_with("Failed to create program: "));
    assert!(m.contains("bad link"));
}
