use hala_pathtracer::error::{manifest_path, BuildError};
use hala_pathtracer::manifest::{ShaderManifest, ShaderProject, Variant};
use hala_pathtracer::output::{artifact_directory, artifact_path, plan_variant, variant_directory};
use hala_pathtracer::resolver::{
    fallback_candidate, include_directory, is_under_source_root, primary_candidate,
    resolve_include,
};
use hala_pathtracer::session::{
    define_global, define_optional, entry_point, macro_definitions, session_options,
    OptimizationLevel, Profile, TARGET_SPIRV_VERSION, TARGET_VULKAN_VERSION,
};
use hala_pathtracer::source::{has_source_extension, plan_unit, project_directory};
use hala_pathtracer::stage::{classify_stem, classify_suffix, ShaderStage};

fn strings(items: &[&str]) -> Vec<String> {
    items.iter().map(|s| s.to_string()).collect()
}

fn project(name: &str, global: &[&str], combinations: &[&[&str]]) -> ShaderProject {
    ShaderProject {
        name: name.to_string(),
        global_macros: strings(global),
        optional_macro_combinations: combinations.iter().map(|c| strings(c)).collect(),
    }
}

fn macro_pairs(variant: &Variant) -> Vec<(String, String)> {
    macro_definitions(variant).into_iter().map(|m| (m.name, m.value)).collect()
}

#[test]
fn project_without_combinations_has_one_variant_with_empty_segment() {
    let p = project("demo", &["BASE"], &[]);
    let variants = p.variants();
    assert_eq!(variants.len(), 1);
    assert_eq!(variants[0].project, "demo");
    assert_eq!(variants[0].global_macros, strings(&["BASE"]));
    assert!(variants[0].optional_macros.is_empty());
    assert_eq!(variants[0].macro_segment(), "");
    assert_eq!(variant_directory(Profile::Debug, &variants[0]), "output/debug/demo/");
}

#[test]
fn project_with_combinations_has_one_variant_per_combination() {
    let p = project("demo", &[], &[&["A"], &["A", "B"], &["C", "B", "A"]]);
    let variants = p.variants();
    assert_eq!(variants.len(), 3);
    assert_eq!(variants[0].macro_segment(), "A");
    assert_eq!(variants[1].macro_segment(), "A#B");
    assert_eq!(variants[2].macro_segment(), "C#B#A");
    assert_eq!(variant_directory(Profile::Release, &variants[1]), "output/release/demo/A#B");
}

#[test]
fn manifest_variants_keep_declaration_order() {
    let manifest = ShaderManifest {
        projects: vec![
            project("first", &["G"], &[&["X"], &["Y"]]),
            project("second", &[], &[]),
            project("third", &[], &[&["Z", "X"]]),
        ],
    };
    let variants = manifest.variants();
    let seen: Vec<(String, String)> =
        variants.iter().map(|v| (v.project.clone(), v.macro_segment())).collect();
    let expected: Vec<(String, String)> = vec![
        ("first".to_string(), "X".to_string()),
        ("first".to_string(), "Y".to_string()),
        ("second".to_string(), "".to_string()),
        ("third".to_string(), "Z#X".to_string()),
    ];
    assert_eq!(seen, expected);
    assert_eq!(variants[0].global_macros, strings(&["G"]));
}

#[test]
fn empty_manifest_has_no_variants() {
    let manifest = ShaderManifest { projects: Vec::new() };
    assert!(manifest.variants().is_empty());
}

#[test]
fn stage_table_is_complete() {
    assert_eq!(classify_suffix("comp"), Some(ShaderStage::Compute));
    assert_eq!(classify_suffix("frag"), Some(ShaderStage::Fragment));
    assert_eq!(classify_suffix("vert"), Some(ShaderStage::Vertex));
    assert_eq!(classify_suffix("rgen"), Some(ShaderStage::RayGeneration));
    assert_eq!(classify_suffix("rahit"), Some(ShaderStage::AnyHit));
    assert_eq!(classify_suffix("rchit"), Some(ShaderStage::ClosestHit));
    assert_eq!(classify_suffix("rmiss"), Some(ShaderStage::Miss));
    assert_eq!(classify_suffix("rint"), Some(ShaderStage::Intersection));
    assert_eq!(classify_suffix("rcall"), Some(ShaderStage::Callable));
    assert_eq!(classify_suffix("glsl"), None);
    assert_eq!(classify_suffix(""), None);
    assert_eq!(classify_suffix("COMP"), None);
}

#[test]
fn every_stage_is_found_under_its_suffix() {
    let stages = [
        ShaderStage::Compute,
        ShaderStage::Fragment,
        ShaderStage::Vertex,
        ShaderStage::RayGeneration,
        ShaderStage::AnyHit,
        ShaderStage::ClosestHit,
        ShaderStage::Miss,
        ShaderStage::Intersection,
        ShaderStage::Callable,
    ];
    for stage in stages {
        assert_eq!(classify_suffix(stage.suffix()), Some(stage));
    }
}

#[test]
fn stage_is_read_off_the_last_segment_of_the_stem() {
    assert_eq!(classify_stem("foo.rgen"), Some(ShaderStage::RayGeneration));
    assert_eq!(classify_stem("foo.xyz"), None);
    assert_eq!(classify_stem("foo.comp.rmiss"), Some(ShaderStage::Miss));
    assert_eq!(classify_stem("rgen.foo"), None);
    assert_eq!(classify_stem("foo"), None);
    assert_eq!(classify_stem("frag"), Some(ShaderStage::Fragment));
    assert_eq!(classify_stem("foo."), None);
}

#[test]
fn ray_generation_file_is_a_unit_and_unknown_suffix_is_passed_over() {
    let unit = plan_unit("proj", "src/proj/foo.rgen.glsl").unwrap();
    assert_eq!(unit.stage, ShaderStage::RayGeneration);
    assert_eq!(unit.stem, "foo");
    assert_eq!(unit.relative_subpath, "");
    assert_eq!(unit.path, "src/proj/foo.rgen.glsl");
    assert!(plan_unit("proj", "src/proj/foo.xyz.glsl").is_none());
}

#[test]
fn units_are_taken_from_the_project_and_one_level_below() {
    let unit = plan_unit("proj", "src/proj/sub/hit.rchit.glsl").unwrap();
    assert_eq!(unit.stage, ShaderStage::ClosestHit);
    assert_eq!(unit.stem, "hit");
    assert_eq!(unit.relative_subpath, "sub");
    assert!(plan_unit("proj", "src/proj/sub/deeper/hit.rchit.glsl").is_none());
    assert!(plan_unit("proj", "src/other/hit.rchit.glsl").is_none());
    assert!(plan_unit("proj", "src/project/hit.rchit.glsl").is_none());
    assert!(plan_unit("proj", "hit.rchit.glsl").is_none());
}

#[test]
fn only_shader_sources_are_units() {
    assert!(plan_unit("proj", "src/proj/hit.rchit.txt").is_none());
    assert!(plan_unit("proj", "src/proj/hit.rchit").is_none());
    assert!(plan_unit("proj", "src/proj/.glsl").is_none());
    assert!(plan_unit("proj", "src/proj/common.glsl").is_none());
    let unit = plan_unit("proj", "src/proj/comp.glsl").unwrap();
    assert_eq!(unit.stage, ShaderStage::Compute);
    assert_eq!(unit.stem, "comp");
    let unit = plan_unit("proj", "src/proj/a.b.vert.glsl").unwrap();
    assert_eq!(unit.stem, "a.b");
    assert_eq!(unit.stage, ShaderStage::Vertex);
}

#[test]
fn source_extension_needs_a_name_before_it() {
    assert!(has_source_extension("a.glsl"));
    assert!(has_source_extension("a.comp.glsl"));
    assert!(!has_source_extension(".glsl"));
    assert!(!has_source_extension("glsl"));
    assert!(!has_source_extension("a.glsl.bak"));
    assert!(!has_source_extension(""));
    assert_eq!(project_directory("demo"), "src/demo");
}

#[test]
fn include_is_taken_from_beside_the_including_file_first() {
    let found = resolve_include("src/proj/sub/a.glsl", "common.glsl", true, true);
    assert_eq!(found.unwrap(), "src/proj/sub/common.glsl");
    let found = resolve_include("src/proj/sub/a.glsl", "common.glsl", true, false);
    assert_eq!(found.unwrap(), "src/proj/sub/common.glsl");
}

#[test]
fn include_falls_back_to_the_source_root() {
    let found = resolve_include("src/proj/sub/a.glsl", "common.glsl", false, true);
    assert_eq!(found.unwrap(), "src/common.glsl");
}

#[test]
fn include_failure_names_the_last_attempt() {
    let failure = resolve_include("src/proj/sub/a.glsl", "common.glsl", false, false).unwrap_err();
    match &failure {
        BuildError::IncludeNotFound { path } => assert_eq!(path, "src/common.glsl"),
        other => panic!("unexpected failure: {:?}", other),
    }
    assert_eq!(failure.message(), "Failed to read file: src/common.glsl");
}

#[test]
fn include_from_outside_the_root_is_placed_below_it() {
    assert_eq!(primary_candidate("proj/sub/a.glsl", "common.glsl"), "src/proj/sub/common.glsl");
    assert_eq!(primary_candidate("srcs/a.glsl", "common.glsl"), "src/srcs/common.glsl");
    assert_eq!(primary_candidate("src/a.glsl", "common.glsl"), "src/common.glsl");
    assert_eq!(primary_candidate("a.glsl", "common.glsl"), "src//common.glsl");
    assert_eq!(fallback_candidate("inc/common.glsl"), "src/inc/common.glsl");
}

#[test]
fn directory_of_an_including_file() {
    assert_eq!(include_directory("src/proj/sub/a.glsl"), "src/proj/sub");
    assert_eq!(include_directory("a.glsl"), "");
    assert_eq!(include_directory("/a.glsl"), "");
    assert!(is_under_source_root("src"));
    assert!(is_under_source_root("src/proj"));
    assert!(!is_under_source_root("srcs"));
    assert!(!is_under_source_root("proj/src"));
    assert!(!is_under_source_root(""));
}

#[test]
fn optional_tokens_get_a_prefix_and_global_macros_do_not() {
    let optional = define_optional("MEDIUM");
    assert_eq!(optional.name, "USE_MEDIUM");
    assert_eq!(optional.value, "1");
    let global = define_global("PATH_TRACER");
    assert_eq!(global.name, "PATH_TRACER");
    assert_eq!(global.value, "1");
}

#[test]
fn macros_come_global_first_then_optional() {
    let variant = Variant {
        project: "demo".to_string(),
        global_macros: strings(&["G1", "G2"]),
        optional_macros: strings(&["A", "B"]),
    };
    let expected: Vec<(String, String)> = vec![
        ("G1".to_string(), "1".to_string()),
        ("G2".to_string(), "1".to_string()),
        ("USE_A".to_string(), "1".to_string()),
        ("USE_B".to_string(), "1".to_string()),
    ];
    assert_eq!(macro_pairs(&variant), expected);
}

#[test]
fn profile_is_debug_only_for_its_own_name() {
    assert_eq!(Profile::from_name("debug"), Profile::Debug);
    assert_eq!(Profile::from_name("release"), Profile::Release);
    assert_eq!(Profile::from_name("bench"), Profile::Release);
    assert_eq!(Profile::from_name("Debug"), Profile::Release);
    assert_eq!(Profile::from_name(""), Profile::Release);
    assert_eq!(Profile::Debug.directory(), "debug");
    assert_eq!(Profile::Release.directory(), "release");
}

#[test]
fn profiles_differ_in_optimization_and_debug_information_only() {
    let variant = Variant {
        project: "demo".to_string(),
        global_macros: strings(&["BASE"]),
        optional_macros: strings(&["A"]),
    };
    let debug = session_options(Profile::Debug, &variant);
    let release = session_options(Profile::Release, &variant);
    assert_eq!(debug.optimization, OptimizationLevel::Zero);
    assert!(debug.debug_info);
    assert_eq!(release.optimization, OptimizationLevel::Performance);
    assert!(!release.debug_info);
    assert_eq!(debug.target_vulkan_version, release.target_vulkan_version);
    assert_eq!(debug.target_spirv_version, release.target_spirv_version);
    assert_eq!(debug.macros.len(), 2);
    assert_eq!(release.macros.len(), 2);
    assert_eq!(debug.macros[1].name, release.macros[1].name);
    assert_eq!(entry_point(), "main");
}

#[test]
fn targets_are_vulkan_1_3_and_spirv_1_6() {
    assert_eq!(TARGET_VULKAN_VERSION, (1u32 << 22) | (3u32 << 12));
    assert_eq!(TARGET_VULKAN_VERSION, 4206592);
    assert_eq!(TARGET_SPIRV_VERSION, 0x0001_0600);
}

#[test]
fn artifact_goes_below_the_variant_directory() {
    let unit = plan_unit("demo", "src/demo/sub/x.comp.glsl").unwrap();
    assert_eq!(artifact_directory("output/debug/demo/A", &unit), "output/debug/demo/A/sub");
    assert_eq!(artifact_path("output/debug/demo/A", &unit), "output/debug/demo/A/sub/x.spv");
    let unit = plan_unit("demo", "src/demo/x.comp.glsl").unwrap();
    assert_eq!(artifact_directory("output/debug/demo/A", &unit), "output/debug/demo/A");
    assert_eq!(artifact_path("output/debug/demo/A", &unit), "output/debug/demo/A/x.spv");
}

#[test]
fn demo_project_compiles_to_two_variant_directories() {
    let manifest = ShaderManifest { projects: vec![project("demo", &["BASE"], &[&["A"], &["A", "B"]])] };
    let variants = manifest.variants();
    assert_eq!(variants.len(), 2);
    let discovered = strings(&["src/demo/x.comp.glsl"]);

    let first = plan_variant(Profile::Debug, &variants[0], &discovered);
    assert_eq!(first.directory, "output/debug/demo/A");
    assert_eq!(first.artifacts.len(), 1);
    assert_eq!(first.artifacts[0].path, "output/debug/demo/A/x.spv");
    assert_eq!(first.artifacts[0].directory, "output/debug/demo/A");
    assert_eq!(first.artifacts[0].unit.stage, ShaderStage::Compute);
    let names: Vec<&str> = first.options.macros.iter().map(|m| m.name.as_str()).collect();
    assert_eq!(names, vec!["BASE", "USE_A"]);

    let second = plan_variant(Profile::Debug, &variants[1], &discovered);
    assert_eq!(second.directory, "output/debug/demo/A#B");
    assert_eq!(second.artifacts.len(), 1);
    assert_eq!(second.artifacts[0].path, "output/debug/demo/A#B/x.spv");
    let names: Vec<&str> = second.options.macros.iter().map(|m| m.name.as_str()).collect();
    assert_eq!(names, vec!["BASE", "USE_A", "USE_B"]);
}

#[test]
fn plan_passes_over_files_that_are_no_units() {
    let variant = Variant {
        project: "demo".to_string(),
        global_macros: Vec::new(),
        optional_macros: Vec::new(),
    };
    let discovered = strings(&[
        "src/demo/common.glsl",
        "src/demo/a.vert.glsl",
        "src/demo/notes.txt",
        "src/demo/rt/b.rint.glsl",
        "src/demo/rt/deep/c.rint.glsl",
        "src/demo/d.frag.glsl",
    ]);
    let plan = plan_variant(Profile::Release, &variant, &discovered);
    assert_eq!(plan.directory, "output/release/demo/");
    let paths: Vec<&str> = plan.artifacts.iter().map(|a| a.path.as_str()).collect();
    assert_eq!(
        paths,
        vec![
            "output/release/demo//a.spv",
            "output/release/demo//rt/b.spv",
            "output/release/demo//d.spv",
        ]
    );
    let stages: Vec<ShaderStage> = plan.artifacts.iter().map(|a| a.unit.stage).collect();
    assert_eq!(stages, vec![ShaderStage::Vertex, ShaderStage::Intersection, ShaderStage::Fragment]);
    assert!(plan.options.macros.is_empty());
}

#[test]
fn planning_twice_gives_the_same_plan() {
    let p = project("demo", &["BASE"], &[&["A", "B"]]);
    let discovered = strings(&["src/demo/x.comp.glsl", "src/demo/sub/y.rgen.glsl"]);
    let once = plan_variant(Profile::Debug, &p.variants()[0], &discovered);
    let twice = plan_variant(Profile::Debug, &p.variants()[0], &discovered);
    assert_eq!(format!("{:?}", once), format!("{:?}", twice));
}

#[test]
fn every_failure_has_its_message() {
    assert_eq!(BuildError::ManifestMissing.message(), "The make_shaders.yaml file is not found.");
    assert_eq!(
        BuildError::ManifestParse { detail: "missing field `name`".to_string() }.message(),
        "Failed to parse src/make_shaders.yaml file: missing field `name`"
    );
    assert_eq!(
        BuildError::ProjectDirectoryMissing { project: "demo".to_string() }.message(),
        "The shader project directory is not found: src/demo"
    );
    assert_eq!(BuildError::CompilerInit.message(), "Failed to initialize the shader compiler.");
    assert_eq!(
        BuildError::IncludeNotFound { path: "src/common.glsl".to_string() }.message(),
        "Failed to read file: src/common.glsl"
    );
    assert_eq!(
        BuildError::Compile {
            file: "src/demo/x.comp.glsl".to_string(),
            diagnostic: "syntax error".to_string()
        }
        .message(),
        "Failed to compile src/demo/x.comp.glsl: syntax error"
    );
    assert_eq!(
        BuildError::Io { path: "output/debug/demo/A".to_string() }.message(),
        "Failed to access: output/debug/demo/A"
    );
    assert_eq!(manifest_path(), "src/make_shaders.yaml");
}

#[test]
fn failure_report_names_project_combination_and_file() {
    let variant = Variant {
        project: "demo".to_string(),
        global_macros: strings(&["BASE"]),
        optional_macros: strings(&["A", "B"]),
    };
    let failure = BuildError::Compile {
        file: "src/demo/x.comp.glsl".to_string(),
        diagnostic: "syntax error".to_string(),
    };
    assert_eq!(
        failure.report(&variant),
        "demo [A#B]: Failed to compile src/demo/x.comp.glsl: syntax error"
    );
    let plain = Variant {
        project: "demo".to_string(),
        global_macros: Vec::new(),
        optional_macros: Vec::new(),
    };
    assert_eq!(
        BuildError::CompilerInit.report(&plain),
        "demo []: Failed to initialize the shader compiler."
    );
}
