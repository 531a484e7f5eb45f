use glow_repro::shader::{nul_terminated, require_location, MissingUniform, Stage, Uniform};

#[test]
fn source_gets_one_trailing_nul() {
    let source = String::from("void main() {}\n");
    assert_eq!(nul_terminated(source), "void main() {}\n\0");
}

#[test]
fn empty_source_becomes_a_single_nul() {
    assert_eq!(nul_terminated(String::new()), "\0");
}

#[test]
fn source_with_nul_is_kept_and_terminated() {
    let terminated = nul_terminated(String::from("a\0b\0"));
    assert_eq!(terminated, "a\0b\0\0");
    assert_eq!(terminated.chars().count(), 5);
}

#[test]
fn non_ascii_source_is_kept() {
    let terminated = nul_terminated(String::from("// größe λ\n"));
    assert_eq!(terminated, "// größe λ\n\0");
    assert_eq!(terminated.chars().last(), Some('\0'));
}

#[test]
fn found_location_is_handed_on() {
    assert_eq!(require_location(Uniform::View, Some(3u32)), Ok(3u32));
    assert_eq!(require_location(Uniform::Projection, Some(0u32)), Ok(0u32));
}

#[test]
fn found_location_of_any_type_is_handed_on() {
    let location = String::from("slot");
    assert_eq!(require_location(Uniform::View, Some(location)), Ok(String::from("slot")));
}

#[test]
fn missing_view_is_an_error() {
    assert_eq!(
        require_location::<u32>(Uniform::View, None),
        Err(MissingUniform { uniform: Uniform::View })
    );
}

#[test]
fn missing_projection_is_an_error() {
    assert_eq!(
        require_location::<u32>(Uniform::Projection, None),
        Err(MissingUniform { uniform: Uniform::Projection })
    );
}

#[test]
fn uniform_names() {
    assert_eq!(Uniform::View.name(), "view");
    assert_eq!(Uniform::Projection.name(), "projection");
}

#[test]
fn stage_paths() {
    assert_eq!(Stage::Vertex.path(), "shaders/grid_v.glsl");
    assert_eq!(Stage::Fragment.path(), "shaders/grid_f.glsl");
}

#[test]
fn stage_file_names() {
    assert_eq!(Stage::Vertex.file_name(), "grid_v.glsl");
    assert_eq!(Stage::Fragment.file_name(), "grid_f.glsl");
}

#[test]
fn stage_labels() {
    assert_eq!(Stage::Vertex.label(), "vertex");
    assert_eq!(Stage::Fragment.label(), "frag");
}

#[test]
fn path_is_file_name_inside_shaders() {
    for stage in [Stage::Vertex, Stage::Fragment] {
        assert_eq!(stage.path(), format!("shaders/{}", stage.file_name()));
        assert!(!stage.file_name().contains('/'));
    }
}
