//! Pipeline stages, and the naming convention that assigns one to a source
//! file: the last dot-delimited segment of the file's stem.

use vstd::prelude::*;
use vstd::string::*;
use crate::text::{after_last, lemma_last_index_is, text_after_last, str_eq};

verus! {

/// The role a compiled shader plays in a graphics, compute or ray-tracing
/// pipeline.
#[derive(Clone, Copy, Debug, PartialEq, Eq, Structural)]
pub enum ShaderStage {
    Compute,
    Fragment,
    Vertex,
    RayGeneration,
    AnyHit,
    ClosestHit,
    Miss,
    Intersection,
    Callable,
}

/// The stage that a suffix stands for, if it stands for one.
pub open spec fn stage_of_suffix(suffix: Seq<char>) -> Option<ShaderStage> {
    if suffix == "comp"@ {
        Some(ShaderStage::Compute)
    } else if suffix == "frag"@ {
        Some(ShaderStage::Fragment)
    } else if suffix == "vert"@ {
        Some(ShaderStage::Vertex)
    } else if suffix == "rgen"@ {
        Some(ShaderStage::RayGeneration)
    } else if suffix == "rahit"@ {
        Some(ShaderStage::AnyHit)
    } else if suffix == "rchit"@ {
        Some(ShaderStage::ClosestHit)
    } else if suffix == "rmiss"@ {
        Some(ShaderStage::Miss)
    } else if suffix == "rint"@ {
        Some(ShaderStage::Intersection)
    } else if suffix == "rcall"@ {
        Some(ShaderStage::Callable)
    } else {
        None
    }
}

/// The stage suffix of a stem: what follows its last dot, or the whole stem
/// where it has no dot.
pub open spec fn suffix_of_stem(stem: Seq<char>) -> Seq<char> {
    after_last(stem, '.')
}

/// The stage of a source file with the given stem, if its suffix names one.
pub open spec fn stage_of_stem(stem: Seq<char>) -> Option<ShaderStage> {
    stage_of_suffix(suffix_of_stem(stem))
}

impl ShaderStage {
    /// The suffix that marks a source file as belonging to this stage.
    pub open spec fn suffix_text(self) -> Seq<char> {
        match self {
            ShaderStage::Compute => "comp"@,
            ShaderStage::Fragment => "frag"@,
            ShaderStage::Vertex => "vert"@,
            ShaderStage::RayGeneration => "rgen"@,
            ShaderStage::AnyHit => "rahit"@,
            ShaderStage::ClosestHit => "rchit"@,
            ShaderStage::Miss => "rmiss"@,
            ShaderStage::Intersection => "rint"@,
            ShaderStage::Callable => "rcall"@,
        }
    }

    /// The suffix that marks a source file as belonging to this stage.
    pub fn suffix(self) -> (text: &'static str)
        ensures
            text@ == self.suffix_text(),
    {
        match self {
            ShaderStage::Compute => "comp",
            ShaderStage::Fragment => "frag",
            ShaderStage::Vertex => "vert",
            ShaderStage::RayGeneration => "rgen",
            ShaderStage::AnyHit => "rahit",
            ShaderStage::ClosestHit => "rchit",
            ShaderStage::Miss => "rmiss",
            ShaderStage::Intersection => "rint",
            ShaderStage::Callable => "rcall",
        }
    }
}

/// Looks a suffix up in the table of stages. `None` marks a file that is no
/// stage of its own and is left out of compilation.
pub fn classify_suffix(suffix: &str) -> (stage: Option<ShaderStage>)
    ensures
        stage == stage_of_suffix(suffix@),
{
    if str_eq(suffix, "comp") {
        Some(ShaderStage::Compute)
    } else if str_eq(suffix, "frag") {
        Some(ShaderStage::Fragment)
    } else if str_eq(suffix, "vert") {
        Some(ShaderStage::Vertex)
    } else if str_eq(suffix, "rgen") {
        Some(ShaderStage::RayGeneration)
    } else if str_eq(suffix, "rahit") {
        Some(ShaderStage::AnyHit)
    } else if str_eq(suffix, "rchit") {
        Some(ShaderStage::ClosestHit)
    } else if str_eq(suffix, "rmiss") {
        Some(ShaderStage::Miss)
    } else if str_eq(suffix, "rint") {
        Some(ShaderStage::Intersection)
    } else if str_eq(suffix, "rcall") {
        Some(ShaderStage::Callable)
    } else {
        None
    }
}

/// Classifies a source file by its stem, the file name without its
/// extension: the stem's last dot-delimited segment decides.
pub fn classify_stem(stem: &str) -> (stage: Option<ShaderStage>)
    ensures
        stage == stage_of_stem(stem@),
{
    classify_suffix(text_after_last(stem, '.'))
}

/// Every stage is found again under its own suffix.
pub proof fn lemma_suffix_names_its_stage(stage: ShaderStage)
    ensures
        stage_of_suffix(stage.suffix_text()) == Some(stage),
{
    reveal_strlit("comp");
    reveal_strlit("frag");
    reveal_strlit("vert");
    reveal_strlit("rgen");
    reveal_strlit("rahit");
    reveal_strlit("rchit");
    reveal_strlit("rmiss");
    reveal_strlit("rint");
    reveal_strlit("rcall");
    match stage {
        ShaderStage::Compute => {},
        ShaderStage::Fragment => {
            assert("frag"@[0] != "comp"@[0]);
        },
        ShaderStage::Vertex => {
            assert("vert"@[0] != "comp"@[0]);
            assert("vert"@[0] != "frag"@[0]);
        },
        ShaderStage::RayGeneration => {
            assert("rgen"@[0] != "comp"@[0]);
            assert("rgen"@[0] != "frag"@[0]);
            assert("rgen"@[0] != "vert"@[0]);
        },
        ShaderStage::AnyHit => {
            assert("rahit"@.len() == 5);
        },
        ShaderStage::ClosestHit => {
            assert("rchit"@[1] != "rahit"@[1]);
        },
        ShaderStage::Miss => {
            assert("rmiss"@[1] != "rahit"@[1]);
            assert("rmiss"@[1] != "rchit"@[1]);
        },
        ShaderStage::Intersection => {
            assert("rint"@[1] != "rgen"@[1]);
            assert("rint"@[0] != "comp"@[0]);
            assert("rint"@[0] != "frag"@[0]);
            assert("rint"@[0] != "vert"@[0]);
        },
        ShaderStage::Callable => {
            assert("rcall"@[1] != "rahit"@[1]);
            assert("rcall"@[2] != "rchit"@[2]);
            assert("rcall"@[1] != "rmiss"@[1]);
        },
    }
}

/// Classification is decided by the suffix alone: two stems with the same
/// suffix are classified alike.
pub proof fn lemma_stage_depends_on_suffix_only(first: Seq<char>, second: Seq<char>)
    requires
        suffix_of_stem(first) == suffix_of_stem(second),
    ensures
        stage_of_stem(first) == stage_of_stem(second),
{
}

/// The stage of a file is read off what follows the last dot of its stem:
/// whatever stands before that dot has no part in it.
pub proof fn lemma_stage_of_suffixed_stem(base: Seq<char>, suffix: Seq<char>)
    requires
        forall|j: int| 0 <= j < suffix.len() ==> suffix[j] != '.',
    ensures
        suffix_of_stem(base + "."@ + suffix) == suffix,
        stage_of_stem(base + "."@ + suffix) == stage_of_suffix(suffix),
{
    reveal_strlit(".");
    let stem = base + "."@ + suffix;
    assert(stem[base.len() as int] == '.');
    assert forall|j: int| base.len() < j < stem.len() implies stem[j] != '.' by {
        assert(stem[j] == suffix[j - base.len() - 1]);
    }
    lemma_last_index_is(stem, '.', base.len() as int);
    assert(stem.subrange(base.len() as int + 1, stem.len() as int) =~= suffix);
}

} // verus!
