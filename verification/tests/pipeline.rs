use hala_pathtracer::manifest::Variant;
use hala_pathtracer::output::variant_directory;
use hala_pathtracer::pipeline::{
    image_save_path, required_features, scene_name, shader_directory, shader_file,
};
use hala_pathtracer::session::Profile;

#[test]
fn features_follow_the_scene() {
    assert_eq!(required_features(false, false), vec!["PATH_TRACER"]);
    assert_eq!(required_features(true, false), vec!["PATH_TRACER", "MEDIUM", "VOL_MIS"]);
    assert_eq!(required_features(false, true), vec!["PATH_TRACER", "TRANSPARENT"]);
    assert_eq!(
        required_features(true, true),
        vec!["PATH_TRACER", "MEDIUM", "VOL_MIS", "TRANSPARENT"]
    );
}

#[test]
fn shader_directory_is_keyed_by_profile_and_features() {
    let features = required_features(true, true);
    assert_eq!(
        shader_directory(Profile::Debug, &features),
        "shaders/output/debug/hala-pathtracer/PATH_TRACER#MEDIUM#VOL_MIS#TRANSPARENT"
    );
    assert_eq!(
        shader_directory(Profile::Release, &required_features(false, false)),
        "shaders/output/release/hala-pathtracer/PATH_TRACER"
    );
    assert_eq!(
        shader_file("shaders/output/debug/hala-pathtracer/PATH_TRACER", "lights.rint.spv"),
        "shaders/output/debug/hala-pathtracer/PATH_TRACER/lights.rint.spv"
    );
}

#[test]
fn renderer_reads_where_the_build_writes() {
    let features = required_features(true, false);
    let variant = Variant {
        project: "hala-pathtracer".to_string(),
        global_macros: Vec::new(),
        optional_macros: features.clone(),
    };
    assert_eq!(
        shader_directory(Profile::Debug, &features),
        format!("shaders/{}", variant_directory(Profile::Debug, &variant))
    );
}

#[test]
fn images_are_saved_under_the_scene_name() {
    assert_eq!(scene_name("scenes/cornell_box.yaml"), "cornell_box");
    assert_eq!(scene_name("cornell_box.yaml"), "cornell_box");
    assert_eq!(scene_name("scenes/archive.tar.gz"), "archive.tar");
    assert_eq!(scene_name("scenes/plain"), "plain");
    assert_eq!(scene_name("scenes/.hidden"), ".hidden");
    assert_eq!(scene_name(""), "");
    assert_eq!(image_save_path("./assets/scenes/dragon.yaml"), "./out/dragon");
}
