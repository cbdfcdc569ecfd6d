//! Which files of a project are compilation units, and what the build reads
//! off their paths: the directory below the project, the stem and the stage.

use vstd::prelude::*;
use vstd::string::*;
use crate::resolver::{directory_of, include_directory, source_root_text};
use crate::stage::{
    ShaderStage,
    classify_stem,
    lemma_stage_of_suffixed_stem,
    stage_of_stem,
    stage_of_suffix,
};
use crate::text::{
    after_last,
    before_last,
    ends_with,
    find_last,
    has_prefix,
    has_suffix,
    last_index_of,
    lemma_last_index_is,
    lemma_last_index_of_absent,
    starts_with,
    text_after_last,
    text_before_last,
};

verus! {

/// A source file that is compiled on its own.
#[derive(Debug)]
pub struct CompilationUnit {
    /// The path of the file, as it was discovered.
    pub path: String,
    /// The file's name without its stage suffix and its extension.
    pub stem: String,
    /// The pipeline stage that the file is compiled for.
    pub stage: ShaderStage,
    /// The directory of the file below its project's directory; empty for a
    /// file that lies directly in the project's directory.
    pub relative_subpath: String,
}

/// A compilation unit as plain values.
pub struct UnitModel {
    pub path: Seq<char>,
    pub stem: Seq<char>,
    pub stage: ShaderStage,
    pub relative_subpath: Seq<char>,
}

impl View for CompilationUnit {
    type V = UnitModel;

    open spec fn view(&self) -> UnitModel {
        UnitModel {
            path: self.path@,
            stem: self.stem@,
            stage: self.stage,
            relative_subpath: self.relative_subpath@,
        }
    }
}

/// The extension of shader sources, with its dot.
pub open spec fn source_extension() -> Seq<char> {
    ".glsl"@
}

/// Whether a file name is that of a shader source: it ends in the source
/// extension and has something before it.
pub open spec fn is_shader_source(file_name: Seq<char>) -> bool {
    file_name.len() > source_extension().len() && has_suffix(file_name, source_extension())
}

/// A shader source's file name without its extension.
pub open spec fn file_stem_of(file_name: Seq<char>) -> Seq<char> {
    file_name.subrange(0, file_name.len() - source_extension().len())
}

/// A file stem without its stage suffix: what stands before its last dot,
/// or all of it where it has no dot.
pub open spec fn unit_stem_of(file_stem: Seq<char>) -> Seq<char> {
    before_last(file_stem, '.')
}

/// The directory of a project's sources.
pub open spec fn project_directory_text(project: Seq<char>) -> Seq<char> {
    source_root_text() + "/"@ + project
}

/// The compilation unit at `path`, if the file there is one of `project`:
/// it lies in the project's directory or in a directory directly below it,
/// it is a shader source, and its suffix names a stage.
pub open spec fn unit_of(project: Seq<char>, path: Seq<char>) -> Option<UnitModel> {
    let prefix = project_directory_text(project) + "/"@;
    let rest = path.subrange(prefix.len() as int, path.len() as int);
    let file_name = after_last(rest, '/');
    if !has_prefix(path, prefix) {
        None
    } else if last_index_of(directory_of(rest), '/') >= 0 {
        None
    } else if !is_shader_source(file_name) {
        None
    } else {
        match stage_of_stem(file_stem_of(file_name)) {
            None => None,
            Some(stage) => Some(
                UnitModel {
                    path: path,
                    stem: unit_stem_of(file_stem_of(file_name)),
                    stage: stage,
                    relative_subpath: directory_of(rest),
                },
            ),
        }
    }
}

/// Whether a file name is that of a shader source.
pub fn has_source_extension(file_name: &str) -> (yes: bool)
    ensures
        yes == is_shader_source(file_name@),
{
    proof {
        reveal_strlit(".glsl");
    }
    file_name.unicode_len() > 5 && ends_with(file_name, ".glsl")
}

/// The directory of a project's sources.
pub fn project_directory(project: &str) -> (dir: String)
    ensures
        dir@ == project_directory_text(project@),
{
    let mut dir = String::from_str("src");
    dir.append("/");
    dir.append(project);
    dir
}

/// Reads a compilation unit off the path of a discovered file. `None` marks
/// a file that the build passes over.
pub fn plan_unit(project: &str, path: &str) -> (unit: Option<CompilationUnit>)
    ensures
        match unit {
            Some(u) => unit_of(project@, path@) == Some(u@),
            None => unit_of(project@, path@) is None,
        },
{
    let mut prefix = project_directory(project);
    prefix.append("/");
    if !starts_with(path, prefix.as_str()) {
        return None;
    }
    let rest = path.substring_char(prefix.as_str().unicode_len(), path.unicode_len());
    let relative = include_directory(rest);
    if find_last(relative, '/').is_some() {
        return None;
    }
    let file_name = text_after_last(rest, '/');
    if !has_source_extension(file_name) {
        return None;
    }
    proof {
        reveal_strlit(".glsl");
    }
    let file_stem = file_name.substring_char(0, file_name.unicode_len() - 5);
    match classify_stem(file_stem) {
        None => None,
        Some(stage) => Some(
            CompilationUnit {
                path: String::from_str(path),
                stem: String::from_str(text_before_last(file_stem, '.')),
                stage,
                relative_subpath: String::from_str(relative),
            },
        ),
    }
}

/// The name of a stage's source file: the stem, a dot, the stage's suffix,
/// and the source extension.
pub open spec fn stage_file_name(stem: Seq<char>, suffix: Seq<char>) -> Seq<char> {
    stem + "."@ + suffix + source_extension()
}

/// The path of a file in a project: directly in the project's directory
/// where `relative` is empty, else in the directory `relative` below it.
pub open spec fn path_in_project(
    project: Seq<char>,
    relative: Seq<char>,
    file_name: Seq<char>,
) -> Seq<char> {
    if relative.len() == 0 {
        project_directory_text(project) + "/"@ + file_name
    } else {
        project_directory_text(project) + "/"@ + relative + "/"@ + file_name
    }
}

/// Whether a text is a single path segment: it holds no `/`.
pub open spec fn is_segment(text: Seq<char>) -> bool {
    forall|j: int| 0 <= j < text.len() ==> text[j] != '/'
}

/// A file named `<stem>.<suffix>.glsl`, in a project's directory or one
/// level below it, is a compilation unit exactly of the stage that the
/// suffix names, with that stem and that directory; and it is none where
/// the suffix names no stage.
pub proof fn lemma_unit_of_stage_file(
    project: Seq<char>,
    relative: Seq<char>,
    stem: Seq<char>,
    suffix: Seq<char>,
)
    requires
        is_segment(relative),
        is_segment(stem),
        is_segment(suffix),
        forall|j: int| 0 <= j < suffix.len() ==> suffix[j] != '.',
    ensures
        unit_of(project, path_in_project(project, relative, stage_file_name(stem, suffix)))
            == match stage_of_suffix(suffix) {
            None => None,
            Some(stage) => Some(
                UnitModel {
                    path: path_in_project(project, relative, stage_file_name(stem, suffix)),
                    stem: stem,
                    stage: stage,
                    relative_subpath: relative,
                },
            ),
        },
{
    reveal_strlit(".glsl");
    reveal_strlit(".");
    reveal_strlit("/");
    let file_name = stage_file_name(stem, suffix);
    let prefix = project_directory_text(project) + "/"@;
    let path = path_in_project(project, relative, file_name);
    let rest = path.subrange(prefix.len() as int, path.len() as int);
    assert(is_segment(file_name)) by {
        assert forall|j: int| 0 <= j < file_name.len() implies file_name[j] != '/' by {
            if j < stem.len() {
                assert(file_name[j] == stem[j]);
            } else if j == stem.len() {
                assert(file_name[j] == '.');
            } else if j < stem.len() + 1 + suffix.len() {
                assert(file_name[j] == suffix[j - stem.len() - 1]);
            } else {
                assert(file_name[j] == ".glsl"@[j - stem.len() - 1 - suffix.len()]);
            }
        }
    }
    assert(path.subrange(0, prefix.len() as int) =~= prefix);
    if relative.len() == 0 {
        assert(rest =~= file_name);
        lemma_last_index_of_absent(rest, '/');
        assert(rest.subrange(0, rest.len() as int) =~= rest);
        assert(directory_of(rest) =~= relative);
    } else {
        assert(rest =~= relative + "/"@ + file_name);
        assert(rest[relative.len() as int] == '/');
        assert forall|j: int| relative.len() < j < rest.len() implies rest[j] != '/' by {
            assert(rest[j] == file_name[j - relative.len() - 1]);
        }
        lemma_last_index_is(rest, '/', relative.len() as int);
        assert(rest.subrange(0, relative.len() as int) =~= relative);
        assert(rest.subrange(relative.len() as int + 1, rest.len() as int) =~= file_name);
    }
    assert(after_last(rest, '/') == file_name);
    assert(directory_of(rest) == relative);
    lemma_last_index_of_absent(relative, '/');
    assert(file_name.subrange(file_name.len() - 5, file_name.len() as int) =~= ".glsl"@);
    let file_stem = stem + "."@ + suffix;
    assert(file_name.subrange(0, file_name.len() - 5) =~= file_stem);
    lemma_stage_of_suffixed_stem(stem, suffix);
    assert(file_stem[stem.len() as int] == '.');
    assert forall|j: int| stem.len() < j < file_stem.len() implies file_stem[j] != '.' by {
        assert(file_stem[j] == suffix[j - stem.len() - 1]);
    }
    lemma_last_index_is(file_stem, '.', stem.len() as int);
    assert(file_stem.subrange(0, stem.len() as int) =~= stem);
}

} // verus!
