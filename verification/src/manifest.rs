//! The build manifest: named shader projects, each with its global macros
//! and its optional macro combinations, and the variants they expand to.

use vstd::prelude::*;
use vstd::string::*;
use crate::text::{views, joined, join};

verus! {

/// One shader project of the manifest. Its name is also the name of its
/// directory below the shader source root.
#[derive(Debug)]
pub struct ShaderProject {
    pub name: String,
    pub global_macros: Vec<String>,
    pub optional_macro_combinations: Vec<Vec<String>>,
}

/// The manifest: the projects in the order in which they were declared.
#[derive(Debug)]
pub struct ShaderManifest {
    pub projects: Vec<ShaderProject>,
}

/// One project compiled under one macro combination.
#[derive(Debug)]
pub struct Variant {
    pub project: String,
    pub global_macros: Vec<String>,
    pub optional_macros: Vec<String>,
}

/// What a project says, as plain text.
pub struct ProjectModel {
    pub name: Seq<char>,
    pub global_macros: Seq<Seq<char>>,
    pub combinations: Seq<Seq<Seq<char>>>,
}

/// What a variant says, as plain text.
pub struct VariantModel {
    pub project: Seq<char>,
    pub global_macros: Seq<Seq<char>>,
    pub optional_macros: Seq<Seq<char>>,
}

/// The views of a sequence of lists of strings.
pub open spec fn nested_views(lists: Seq<Vec<String>>) -> Seq<Seq<Seq<char>>> {
    Seq::new(lists.len(), |i: int| views(lists[i]@))
}

/// The models of a sequence of projects.
pub open spec fn project_views(projects: Seq<ShaderProject>) -> Seq<ProjectModel> {
    Seq::new(projects.len(), |i: int| projects[i]@)
}

/// The models of a sequence of variants.
pub open spec fn variant_views(variants: Seq<Variant>) -> Seq<VariantModel> {
    Seq::new(variants.len(), |i: int| variants[i]@)
}

impl View for ShaderProject {
    type V = ProjectModel;

    open spec fn view(&self) -> ProjectModel {
        ProjectModel {
            name: self.name@,
            global_macros: views(self.global_macros@),
            combinations: nested_views(self.optional_macro_combinations@),
        }
    }
}

impl View for ShaderManifest {
    type V = Seq<ProjectModel>;

    open spec fn view(&self) -> Seq<ProjectModel> {
        project_views(self.projects@)
    }
}

impl View for Variant {
    type V = VariantModel;

    open spec fn view(&self) -> VariantModel {
        VariantModel {
            project: self.project@,
            global_macros: views(self.global_macros@),
            optional_macros: views(self.optional_macros@),
        }
    }
}

/// The variant of `project` under the macro combination `optional`.
pub open spec fn variant_of(project: ProjectModel, optional: Seq<Seq<char>>) -> VariantModel {
    VariantModel {
        project: project.name,
        global_macros: project.global_macros,
        optional_macros: optional,
    }
}

/// The variants of one project: one per declared combination, in declared
/// order, or a single one without optional macros where none is declared.
pub open spec fn project_variants(project: ProjectModel) -> Seq<VariantModel> {
    if project.combinations.len() == 0 {
        seq![variant_of(project, Seq::empty())]
    } else {
        Seq::new(project.combinations.len(), |i: int| variant_of(project, project.combinations[i]))
    }
}

/// The variants of all projects, project after project in declared order.
pub open spec fn manifest_variants(projects: Seq<ProjectModel>) -> Seq<VariantModel>
    decreases projects.len(),
{
    if projects.len() == 0 {
        Seq::empty()
    } else {
        manifest_variants(projects.drop_last()) + project_variants(projects.last())
    }
}

/// The number of variants of a sequence of projects.
pub open spec fn variant_count(projects: Seq<ProjectModel>) -> nat
    decreases projects.len(),
{
    if projects.len() == 0 {
        0
    } else {
        variant_count(projects.drop_last()) + if projects.last().combinations.len() == 0 {
            1nat
        } else {
            projects.last().combinations.len()
        }
    }
}

/// The name of a variant's directory below its project's output directory:
/// the optional macros joined by `#`, in declared order.
pub open spec fn macro_segment(optional: Seq<Seq<char>>) -> Seq<char> {
    joined(optional, "#"@)
}

/// A copy of a list of strings.
fn clone_strings(items: &Vec<String>) -> (copy: Vec<String>)
    ensures
        copy@ == items@,
        views(copy@) == views(items@),
{
    let mut copy: Vec<String> = Vec::new();
    let mut i: usize = 0;
    while i < items.len()
        invariant
            i <= items.len(),
            copy@ == items@.subrange(0, i as int),
        decreases items.len() - i,
    {
        copy.push(items[i].clone());
        assert(copy@ =~= items@.subrange(0, i + 1));
        i = i + 1;
    }
    assert(items@.subrange(0, items@.len() as int) =~= items@);
    copy
}

impl Variant {
    /// The name of this variant's directory: its optional macros joined by
    /// `#`, empty where it has none.
    pub fn macro_segment(&self) -> (segment: String)
        ensures
            segment@ == macro_segment(self@.optional_macros),
    {
        join(&self.optional_macros, "#")
    }
}

impl ShaderProject {
    /// The variants to compile for this project, in the order in which they
    /// are compiled.
    pub fn variants(&self) -> (list: Vec<Variant>)
        ensures
            variant_views(list@) == project_variants(self@),
    {
        let mut list: Vec<Variant> = Vec::new();
        if self.optional_macro_combinations.len() == 0 {
            list.push(
                Variant {
                    project: self.name.clone(),
                    global_macros: clone_strings(&self.global_macros),
                    optional_macros: Vec::new(),
                },
            );
            assert(views(list@[0].optional_macros@) =~= Seq::<Seq<char>>::empty());
            assert(variant_views(list@) =~= project_variants(self@));
            return list;
        }
        let mut i: usize = 0;
        while i < self.optional_macro_combinations.len()
            invariant
                i <= self.optional_macro_combinations.len(),
                list@.len() == i,
                forall|j: int|
                    0 <= j < i ==> (#[trigger] list@[j])@ == variant_of(
                        self@,
                        self@.combinations[j],
                    ),
            decreases self.optional_macro_combinations.len() - i,
        {
            list.push(
                Variant {
                    project: self.name.clone(),
                    global_macros: clone_strings(&self.global_macros),
                    optional_macros: clone_strings(&self.optional_macro_combinations[i]),
                },
            );
            i = i + 1;
        }
        assert(variant_views(list@) =~= project_variants(self@));
        list
    }
}

impl ShaderManifest {
    /// Every variant of the build, in the order in which the build compiles
    /// them: projects in declared order, and within a project its
    /// combinations in declared order.
    pub fn variants(&self) -> (list: Vec<Variant>)
        ensures
            variant_views(list@) == manifest_variants(self@),
    {
        let mut list: Vec<Variant> = Vec::new();
        let mut i: usize = 0;
        assert(variant_views(list@) =~= Seq::<VariantModel>::empty());
        while i < self.projects.len()
            invariant
                i <= self.projects.len(),
                variant_views(list@) == manifest_variants(self@.subrange(0, i as int)),
            decreases self.projects.len() - i,
        {
            let mut more = self.projects[i].variants();
            let ghost before = list@;
            let ghost added = more@;
            list.append(&mut more);
            proof {
                let upto = self@.subrange(0, i + 1);
                assert(upto.drop_last() =~= self@.subrange(0, i as int));
                assert(upto.last() == self.projects@[i as int]@);
                assert(variant_views(before + added) =~= variant_views(before) + variant_views(
                    added,
                ));
            }
            i = i + 1;
        }
        assert(self@.subrange(0, self@.len() as int) =~= self@);
        list
    }
}

/// A project that declares no combination is compiled exactly once, and the
/// directory of that one variant has the empty name.
pub proof fn lemma_no_combination_gives_one_variant(project: ProjectModel)
    requires
        project.combinations.len() == 0,
    ensures
        project_variants(project).len() == 1,
        project_variants(project)[0].project == project.name,
        project_variants(project)[0].global_macros == project.global_macros,
        macro_segment(project_variants(project)[0].optional_macros) == Seq::<char>::empty(),
{
}

/// A project that declares combinations is compiled once per combination,
/// and the directory of each variant is named by that combination's macros,
/// joined by `#` in declared order.
pub proof fn lemma_one_variant_per_combination(project: ProjectModel, i: int)
    requires
        project.combinations.len() > 0,
        0 <= i < project.combinations.len(),
    ensures
        project_variants(project).len() == project.combinations.len(),
        project_variants(project)[i].project == project.name,
        project_variants(project)[i].global_macros == project.global_macros,
        project_variants(project)[i].optional_macros == project.combinations[i],
        macro_segment(project_variants(project)[i].optional_macros) == joined(
            project.combinations[i],
            "#"@,
        ),
{
}

/// The build compiles as many variants as the projects have between them.
pub proof fn lemma_manifest_variant_count(projects: Seq<ProjectModel>)
    ensures
        manifest_variants(projects).len() == variant_count(projects),
    decreases projects.len(),
{
    if projects.len() > 0 {
        lemma_manifest_variant_count(projects.drop_last());
    }
}

} // verus!
