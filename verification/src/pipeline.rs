//! What the renderer asks of the compiled shaders: which features a scene
//! needs and, from them, the directory that holds the matching variant.

use vstd::prelude::*;
use vstd::string::*;
use crate::manifest::VariantModel;
use crate::output::variant_directory_text;
use crate::session::Profile;
use crate::text::{
    after_last,
    find_last,
    join,
    joined,
    last_index_of,
    lemma_last_index_of,
    text_after_last,
    views,
};

verus! {

/// The features that a scene needs, in the order in which the shader
/// variants name them: path tracing always; participating media, with
/// multiple importance sampling of volumes, where the scene has a medium;
/// transparency where it has a transparent material.
pub open spec fn feature_list(has_medium: bool, has_transparent: bool) -> Seq<Seq<char>> {
    seq!["PATH_TRACER"@] + (if has_medium {
        seq!["MEDIUM"@, "VOL_MIS"@]
    } else {
        Seq::empty()
    }) + (if has_transparent {
        seq!["TRANSPARENT"@]
    } else {
        Seq::empty()
    })
}

/// The directory from which the renderer loads the variant compiled for
/// `features`.
pub open spec fn shader_directory_text(profile: Profile, features: Seq<Seq<char>>) -> Seq<char> {
    "shaders/output/"@ + profile.directory_text() + "/hala-pathtracer/"@ + joined(features, "#"@)
}

/// The name under which a scene's images are saved: the scene file's name
/// without its directory and without its last extension. A leading dot
/// starts no extension.
pub open spec fn scene_name_of(scene_file: Seq<char>) -> Seq<char> {
    let file_name = after_last(scene_file, '/');
    if last_index_of(file_name, '.') <= 0 {
        file_name
    } else {
        file_name.subrange(0, last_index_of(file_name, '.'))
    }
}

/// The features that a scene needs.
pub fn required_features(has_medium: bool, has_transparent: bool) -> (features: Vec<String>)
    ensures
        views(features@) == feature_list(has_medium, has_transparent),
{
    let mut features: Vec<String> = Vec::new();
    features.push(String::from_str("PATH_TRACER"));
    if has_medium {
        features.push(String::from_str("MEDIUM"));
        features.push(String::from_str("VOL_MIS"));
    }
    if has_transparent {
        features.push(String::from_str("TRANSPARENT"));
    }
    assert(views(features@) =~= feature_list(has_medium, has_transparent));
    features
}

/// The directory from which the renderer loads the variant compiled for
/// `features`.
pub fn shader_directory(profile: Profile, features: &Vec<String>) -> (dir: String)
    ensures
        dir@ == shader_directory_text(profile, views(features@)),
{
    let mut dir = String::from_str("shaders/output/");
    dir.append(profile.directory());
    dir.append("/hala-pathtracer/");
    let segment = join(features, "#");
    dir.append(segment.as_str());
    dir
}

/// The path of a compiled shader in a variant's directory.
pub fn shader_file(directory: &str, file_name: &str) -> (path: String)
    ensures
        path@ == directory@ + "/"@ + file_name@,
{
    let mut path = String::from_str(directory);
    path.append("/");
    path.append(file_name);
    path
}

/// The name under which a scene's images are saved.
pub fn scene_name(scene_file: &str) -> (name: &str)
    ensures
        name@ == scene_name_of(scene_file@),
{
    let file_name = text_after_last(scene_file, '/');
    match find_last(file_name, '.') {
        None => file_name,
        Some(at) => {
            if at == 0 {
                file_name
            } else {
                proof {
                    lemma_last_index_of(file_name@, '.');
                }
                file_name.substring_char(0, at)
            }
        },
    }
}

/// The path under which a scene's images are saved.
pub fn image_save_path(scene_file: &str) -> (path: String)
    ensures
        path@ == "./out/"@ + scene_name_of(scene_file@),
{
    let mut path = String::from_str("./out/");
    path.append(scene_name(scene_file));
    path
}

/// The renderer looks for a variant where the build, run in the directory
/// `shaders`, has put it: the features are joined as the build joins a
/// variant's macros.
pub proof fn lemma_renderer_reads_what_the_build_writes(
    profile: Profile,
    global: Seq<Seq<char>>,
    features: Seq<Seq<char>>,
)
    ensures
        shader_directory_text(profile, features) == "shaders/"@ + variant_directory_text(
            profile,
            VariantModel {
                project: "hala-pathtracer"@,
                global_macros: global,
                optional_macros: features,
            },
        ),
{
    reveal_strlit("shaders/output/");
    reveal_strlit("/hala-pathtracer/");
    reveal_strlit("shaders/");
    reveal_strlit("output");
    reveal_strlit("/");
    reveal_strlit("hala-pathtracer");
    let built = variant_directory_text(
        profile,
        VariantModel {
            project: "hala-pathtracer"@,
            global_macros: global,
            optional_macros: features,
        },
    );
    assert("shaders/output/"@ =~= "shaders/"@ + "output"@ + "/"@);
    assert("/hala-pathtracer/"@ =~= "/"@ + "hala-pathtracer"@ + "/"@);
    assert(shader_directory_text(profile, features) =~= "shaders/"@ + built);
}

} // verus!
