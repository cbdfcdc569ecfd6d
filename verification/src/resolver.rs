//! Where the text of an included file is looked up: first beside the
//! including file, then directly below the shader source root.

use vstd::prelude::*;
use vstd::string::*;
use crate::error::BuildError;
use crate::text::{
    find_last,
    has_prefix,
    last_index_of,
    lemma_last_index_is,
    lemma_last_index_of,
    starts_with,
    str_eq,
};

verus! {

/// The name of the shader source root.
pub open spec fn source_root_text() -> Seq<char> {
    "src"@
}

/// The directory part of a path: what stands before its last `/`, and
/// nothing where it has none.
pub open spec fn directory_of(path: Seq<char>) -> Seq<char> {
    if last_index_of(path, '/') < 0 {
        Seq::empty()
    } else {
        path.subrange(0, last_index_of(path, '/'))
    }
}

/// Whether a directory is the shader source root or lies below it.
pub open spec fn under_source_root(dir: Seq<char>) -> bool {
    dir == source_root_text() || has_prefix(dir, source_root_text() + "/"@)
}

/// The first place to look for `target`, included from the file `source`:
/// beside that file. A directory that is not yet below the source root is
/// placed below it.
pub open spec fn primary_candidate_text(source: Seq<char>, target: Seq<char>) -> Seq<char> {
    if under_source_root(directory_of(source)) {
        directory_of(source) + "/"@ + target
    } else {
        source_root_text() + "/"@ + directory_of(source) + "/"@ + target
    }
}

/// The second place to look for `target`: directly below the source root.
pub open spec fn fallback_candidate_text(target: Seq<char>) -> Seq<char> {
    source_root_text() + "/"@ + target
}

/// The path that an include resolves to, given which of the two candidates
/// exist: the first if it exists, else the second if it exists, else a
/// failure that carries the second.
pub open spec fn resolved_include(
    source: Seq<char>,
    target: Seq<char>,
    primary_exists: bool,
    fallback_exists: bool,
) -> Result<Seq<char>, Seq<char>> {
    if primary_exists {
        Ok(primary_candidate_text(source, target))
    } else if fallback_exists {
        Ok(fallback_candidate_text(target))
    } else {
        Err(fallback_candidate_text(target))
    }
}

/// The directory part of a path.
pub fn include_directory(source: &str) -> (dir: &str)
    ensures
        dir@ == directory_of(source@),
{
    match find_last(source, '/') {
        Some(i) => {
            proof {
                lemma_last_index_of(source@, '/');
            }
            source.substring_char(0, i)
        },
        None => {
            proof {
                reveal_strlit("");
                assert(""@ =~= Seq::<char>::empty());
            }
            ""
        },
    }
}

/// Whether a directory is the shader source root or lies below it.
pub fn is_under_source_root(dir: &str) -> (yes: bool)
    ensures
        yes == under_source_root(dir@),
{
    proof {
        reveal_strlit("src");
        reveal_strlit("/");
        reveal_strlit("src/");
        assert("src/"@ =~= "src"@ + "/"@);
    }
    str_eq(dir, "src") || starts_with(dir, "src/")
}

/// The first path at which an include is looked up.
pub fn primary_candidate(source: &str, target: &str) -> (path: String)
    ensures
        path@ == primary_candidate_text(source@, target@),
{
    let dir = include_directory(source);
    let mut path = String::new();
    if !is_under_source_root(dir) {
        path.append("src");
        path.append("/");
    }
    path.append(dir);
    path.append("/");
    path.append(target);
    proof {
        if under_source_root(dir@) {
            assert(path@ =~= dir@ + "/"@ + target@);
        } else {
            assert(path@ =~= "src"@ + "/"@ + dir@ + "/"@ + target@);
        }
    }
    path
}

/// The second path at which an include is looked up.
pub fn fallback_candidate(target: &str) -> (path: String)
    ensures
        path@ == fallback_candidate_text(target@),
{
    let mut path = String::new();
    path.append("src");
    path.append("/");
    path.append(target);
    assert(path@ =~= "src"@ + "/"@ + target@);
    path
}

/// Chooses the file to splice in for an include of `target` issued by the
/// file `source`. The caller says which of the two candidate paths exist.
pub fn resolve_include(
    source: &str,
    target: &str,
    primary_exists: bool,
    fallback_exists: bool,
) -> (found: Result<String, BuildError>)
    ensures
        match found {
            Ok(path) => resolved_include(source@, target@, primary_exists, fallback_exists) == Ok::<
                Seq<char>,
                Seq<char>,
            >(path@),
            Err(BuildError::IncludeNotFound { path }) => resolved_include(
                source@,
                target@,
                primary_exists,
                fallback_exists,
            ) == Err::<Seq<char>, Seq<char>>(path@),
            Err(_) => false,
        },
{
    if primary_exists {
        Ok(primary_candidate(source, target))
    } else if fallback_exists {
        Ok(fallback_candidate(target))
    } else {
        Err(BuildError::IncludeNotFound { path: fallback_candidate(target) })
    }
}

/// An include is taken from beside the including file where a file of that
/// name exists there; otherwise from directly below the source root; and
/// where it exists in neither place the failure names the path below the
/// source root, the one tried last.
pub proof fn lemma_include_search_order(
    source: Seq<char>,
    target: Seq<char>,
    primary_exists: bool,
    fallback_exists: bool,
)
    ensures
        primary_exists ==> resolved_include(source, target, primary_exists, fallback_exists) == Ok::<
            Seq<char>,
            Seq<char>,
        >(primary_candidate_text(source, target)),
        !primary_exists && fallback_exists ==> resolved_include(
            source,
            target,
            primary_exists,
            fallback_exists,
        ) == Ok::<Seq<char>, Seq<char>>(source_root_text() + "/"@ + target),
        !primary_exists && !fallback_exists ==> resolved_include(
            source,
            target,
            primary_exists,
            fallback_exists,
        ) == Err::<Seq<char>, Seq<char>>(source_root_text() + "/"@ + target),
{
}

/// An include issued from a file below the source root is first looked up in
/// that file's own directory.
pub proof fn lemma_rooted_include_stays_beside_source(
    dir: Seq<char>,
    name: Seq<char>,
    target: Seq<char>,
)
    requires
        under_source_root(dir),
        forall|i: int| 0 <= i < name.len() ==> name[i] != '/',
    ensures
        primary_candidate_text(dir + "/"@ + name, target) == dir + "/"@ + target,
{
    reveal_strlit("/");
    let source = dir + "/"@ + name;
    assert(source[dir.len() as int] == '/');
    assert forall|j: int| dir.len() < j < source.len() implies source[j] != '/' by {
        assert(source[j] == name[j - dir.len() - 1]);
    }
    lemma_last_index_is(source, '/', dir.len() as int);
    assert(source.subrange(0, dir.len() as int) =~= dir);
}

/// An include issued from a file that does not lie below the source root is
/// first looked up below the source root, in the directory named as that
/// file's own.
pub proof fn lemma_unrooted_include_is_placed_below_root(
    dir: Seq<char>,
    name: Seq<char>,
    target: Seq<char>,
)
    requires
        !under_source_root(dir),
        forall|i: int| 0 <= i < name.len() ==> name[i] != '/',
    ensures
        primary_candidate_text(dir + "/"@ + name, target) == source_root_text() + "/"@ + dir
            + "/"@ + target,
{
    reveal_strlit("/");
    let source = dir + "/"@ + name;
    assert(source[dir.len() as int] == '/');
    assert forall|j: int| dir.len() < j < source.len() implies source[j] != '/' by {
        assert(source[j] == name[j - dir.len() - 1]);
    }
    lemma_last_index_is(source, '/', dir.len() as int);
    assert(source.subrange(0, dir.len() as int) =~= dir);
}

} // verus!
