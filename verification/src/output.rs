//! Where compiled binaries go, and the plan of one variant's compilation.

use vstd::prelude::*;
use vstd::string::*;
use crate::manifest::{ProjectModel, Variant, VariantModel, macro_segment, project_variants};
use crate::text::joined;
use crate::session::{Profile, SessionOptions, SessionModel, session_for, session_options};
use crate::source::{CompilationUnit, UnitModel, unit_of, plan_unit};

verus! {

/// The name of the output root.
pub open spec fn output_root_text() -> Seq<char> {
    "output"@
}

/// The extension of compiled binaries, with its dot.
pub open spec fn binary_extension() -> Seq<char> {
    ".spv"@
}

/// The output directory of a variant: below the output root the profile,
/// below that the project, below that the variant's macros joined by `#`.
pub open spec fn variant_directory_text(profile: Profile, variant: VariantModel) -> Seq<char> {
    output_root_text() + "/"@ + profile.directory_text() + "/"@ + variant.project + "/"@
        + macro_segment(variant.optional_macros)
}

/// The directory of a unit's binary: the variant's directory, and below it
/// the unit's directory below its project, where it has one.
pub open spec fn artifact_directory_text(variant_dir: Seq<char>, unit: UnitModel) -> Seq<char> {
    if unit.relative_subpath.len() == 0 {
        variant_dir
    } else {
        variant_dir + "/"@ + unit.relative_subpath
    }
}

/// The path of a unit's binary: in the unit's output directory, the stem
/// with the extension of binaries.
pub open spec fn artifact_path_text(variant_dir: Seq<char>, unit: UnitModel) -> Seq<char> {
    artifact_directory_text(variant_dir, unit) + "/"@ + unit.stem + binary_extension()
}

/// A unit to compile, with the place of its binary.
#[derive(Debug)]
pub struct PlannedArtifact {
    pub unit: CompilationUnit,
    /// The directory to create before the binary is written.
    pub directory: String,
    /// The file to write the binary to.
    pub path: String,
}

/// A planned artifact as plain values.
pub struct ArtifactModel {
    pub unit: UnitModel,
    pub directory: Seq<char>,
    pub path: Seq<char>,
}

impl View for PlannedArtifact {
    type V = ArtifactModel;

    open spec fn view(&self) -> ArtifactModel {
        ArtifactModel { unit: self.unit@, directory: self.directory@, path: self.path@ }
    }
}

/// The models of a sequence of planned artifacts.
pub open spec fn artifact_views(artifacts: Seq<PlannedArtifact>) -> Seq<ArtifactModel> {
    Seq::new(artifacts.len(), |i: int| artifacts[i]@)
}

/// The artifact planned for a unit of a variant.
pub open spec fn artifact_of(variant_dir: Seq<char>, unit: UnitModel) -> ArtifactModel {
    ArtifactModel {
        unit: unit,
        directory: artifact_directory_text(variant_dir, unit),
        path: artifact_path_text(variant_dir, unit),
    }
}

/// The artifacts of a variant, given the paths discovered below its
/// project: one for each path that is a compilation unit, in the order of
/// discovery. The other paths are passed over.
pub open spec fn planned_artifacts(
    variant_dir: Seq<char>,
    project: Seq<char>,
    paths: Seq<Seq<char>>,
) -> Seq<ArtifactModel>
    decreases paths.len(),
{
    if paths.len() == 0 {
        Seq::empty()
    } else {
        let earlier = planned_artifacts(variant_dir, project, paths.drop_last());
        match unit_of(project, paths.last()) {
            None => earlier,
            Some(unit) => earlier.push(artifact_of(variant_dir, unit)),
        }
    }
}

/// Everything that the compilation of one variant is configured with.
#[derive(Debug)]
pub struct VariantPlan {
    /// The variant's output directory.
    pub directory: String,
    /// The options of the variant's compiler session.
    pub options: SessionOptions,
    /// The units to compile, in order.
    pub artifacts: Vec<PlannedArtifact>,
}

/// A variant's plan as plain values.
pub struct PlanModel {
    pub directory: Seq<char>,
    pub options: SessionModel,
    pub artifacts: Seq<ArtifactModel>,
}

impl View for VariantPlan {
    type V = PlanModel;

    open spec fn view(&self) -> PlanModel {
        PlanModel {
            directory: self.directory@,
            options: self.options@,
            artifacts: artifact_views(self.artifacts@),
        }
    }
}

/// The plan of `variant` under `profile`, given the paths discovered below
/// its project.
pub open spec fn plan_for(
    profile: Profile,
    variant: VariantModel,
    paths: Seq<Seq<char>>,
) -> PlanModel {
    PlanModel {
        directory: variant_directory_text(profile, variant),
        options: session_for(profile, variant),
        artifacts: planned_artifacts(
            variant_directory_text(profile, variant),
            variant.project,
            paths,
        ),
    }
}

/// The output directory of a variant.
pub fn variant_directory(profile: Profile, variant: &Variant) -> (dir: String)
    ensures
        dir@ == variant_directory_text(profile, variant@),
{
    let mut dir = String::from_str("output");
    dir.append("/");
    dir.append(profile.directory());
    dir.append("/");
    dir.append(variant.project.as_str());
    dir.append("/");
    let segment = variant.macro_segment();
    dir.append(segment.as_str());
    dir
}

/// The directory of a unit's binary below the variant's directory.
pub fn artifact_directory(variant_dir: &str, unit: &CompilationUnit) -> (dir: String)
    ensures
        dir@ == artifact_directory_text(variant_dir@, unit@),
{
    let mut dir = String::from_str(variant_dir);
    if unit.relative_subpath.as_str().unicode_len() > 0 {
        dir.append("/");
        dir.append(unit.relative_subpath.as_str());
    }
    dir
}

/// The path of a unit's binary below the variant's directory.
pub fn artifact_path(variant_dir: &str, unit: &CompilationUnit) -> (path: String)
    ensures
        path@ == artifact_path_text(variant_dir@, unit@),
{
    let mut path = artifact_directory(variant_dir, unit);
    path.append("/");
    path.append(unit.stem.as_str());
    path.append(".spv");
    path
}

/// Plans the compilation of one variant: its output directory, the options
/// of its compiler session, and for each discovered path that is a
/// compilation unit the place of its binary.
pub fn plan_variant(profile: Profile, variant: &Variant, paths: &Vec<String>) -> (plan:
    VariantPlan)
    ensures
        plan@ == plan_for(profile, variant@, crate::text::views(paths@)),
{
    let directory = variant_directory(profile, variant);
    let options = session_options(profile, variant);
    let mut artifacts: Vec<PlannedArtifact> = Vec::new();
    let ghost texts = crate::text::views(paths@);
    let mut i: usize = 0;
    assert(artifact_views(artifacts@) =~= Seq::<ArtifactModel>::empty());
    while i < paths.len()
        invariant
            i <= paths.len(),
            texts == crate::text::views(paths@),
            artifact_views(artifacts@) == planned_artifacts(
                directory@,
                variant@.project,
                texts.subrange(0, i as int),
            ),
        decreases paths.len() - i,
    {
        proof {
            let upto = texts.subrange(0, i + 1);
            assert(upto.drop_last() =~= texts.subrange(0, i as int));
            assert(upto.last() == paths@[i as int]@);
        }
        let ghost before = artifacts@;
        match plan_unit(variant.project.as_str(), paths[i].as_str()) {
            None => {},
            Some(unit) => {
                let dir = artifact_directory(directory.as_str(), &unit);
                let path = artifact_path(directory.as_str(), &unit);
                artifacts.push(PlannedArtifact { unit, directory: dir, path });
                assert(artifact_views(artifacts@) =~= artifact_views(before).push(
                    artifacts@[before.len() as int]@,
                ));
            },
        }
        i = i + 1;
    }
    assert(texts.subrange(0, texts.len() as int) =~= texts);
    VariantPlan { directory, options, artifacts }
}

/// A project that declares no combination gets exactly one output
/// directory: its own directory below the profile's, with an empty name
/// for the variant below it.
pub proof fn lemma_single_output_directory(profile: Profile, project: ProjectModel)
    requires
        project.combinations.len() == 0,
    ensures
        project_variants(project).len() == 1,
        variant_directory_text(profile, project_variants(project)[0]) == output_root_text() + "/"@
            + profile.directory_text() + "/"@ + project.name + "/"@,
{
    let dir = output_root_text() + "/"@ + profile.directory_text() + "/"@ + project.name + "/"@;
    assert(macro_segment(project_variants(project)[0].optional_macros) =~= Seq::<char>::empty());
    assert(dir + Seq::<char>::empty() =~= dir);
}

/// A project that declares combinations gets one output directory for each
/// of them, named by the combination's macros joined with `#` in declared
/// order.
pub proof fn lemma_output_directory_per_combination(
    profile: Profile,
    project: ProjectModel,
    i: int,
)
    requires
        0 <= i < project.combinations.len(),
    ensures
        project_variants(project).len() == project.combinations.len(),
        variant_directory_text(profile, project_variants(project)[i]) == output_root_text() + "/"@
            + profile.directory_text() + "/"@ + project.name + "/"@ + joined(
            project.combinations[i],
            "#"@,
        ),
{
}

/// Two variants of one project whose macros join to different names are
/// written to different directories.
pub proof fn lemma_distinct_segments_give_distinct_directories(
    profile: Profile,
    first: VariantModel,
    second: VariantModel,
)
    requires
        first.project == second.project,
        macro_segment(first.optional_macros) != macro_segment(second.optional_macros),
    ensures
        variant_directory_text(profile, first) != variant_directory_text(profile, second),
{
    let head = output_root_text() + "/"@ + profile.directory_text() + "/"@ + first.project + "/"@;
    let a = macro_segment(first.optional_macros);
    let b = macro_segment(second.optional_macros);
    assert((head + a).subrange(head.len() as int, (head + a).len() as int) =~= a);
    assert((head + b).subrange(head.len() as int, (head + b).len() as int) =~= b);
}

/// Which units are compiled, and for which stage, does not depend on where
/// the binaries go: the plans of one project under two profiles, or two
/// combinations, hold the same units in the same order.
pub proof fn lemma_units_do_not_depend_on_directory(
    first_dir: Seq<char>,
    second_dir: Seq<char>,
    project: Seq<char>,
    paths: Seq<Seq<char>>,
)
    ensures
        planned_artifacts(first_dir, project, paths).len() == planned_artifacts(
            second_dir,
            project,
            paths,
        ).len(),
        forall|i: int|
            0 <= i < planned_artifacts(first_dir, project, paths).len() ==> (
            #[trigger] planned_artifacts(first_dir, project, paths)[i]).unit == planned_artifacts(
                second_dir,
                project,
                paths,
            )[i].unit,
    decreases paths.len(),
{
    if paths.len() > 0 {
        lemma_units_do_not_depend_on_directory(first_dir, second_dir, project, paths.drop_last());
    }
}

/// A plan holds at most one artifact for each discovered path.
pub proof fn lemma_plan_is_no_longer_than_discovery(
    variant_dir: Seq<char>,
    project: Seq<char>,
    paths: Seq<Seq<char>>,
)
    ensures
        planned_artifacts(variant_dir, project, paths).len() <= paths.len(),
    decreases paths.len(),
{
    if paths.len() > 0 {
        lemma_plan_is_no_longer_than_discovery(variant_dir, project, paths.drop_last());
    }
}

} // verus!
