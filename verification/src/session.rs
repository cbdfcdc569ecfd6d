//! What a compiler session is configured with for one variant: the build
//! profile's optimization settings, the fixed targets, and the macros.

use vstd::prelude::*;
use vstd::string::*;
use crate::manifest::{Variant, VariantModel};
use crate::text::{str_eq, views};

verus! {

/// The Vulkan version that every variant is compiled for: 1.3, packed as
/// the API packs it.
pub const TARGET_VULKAN_VERSION: u32 = 4206592;

/// The SPIR-V version that every variant is compiled to: 1.6, packed as the
/// format's header packs it.
pub const TARGET_SPIRV_VERSION: u32 = 67072;

/// The build profile. It selects the output directory and how the compiler
/// optimizes.
#[derive(Clone, Copy, Debug, PartialEq, Eq, Structural)]
pub enum Profile {
    Debug,
    Release,
}

/// How hard the compiler optimizes.
#[derive(Clone, Copy, Debug, PartialEq, Eq, Structural)]
pub enum OptimizationLevel {
    Zero,
    Performance,
}

/// The profile that a profile name selects: `debug` is the debug profile,
/// every other name the release profile.
pub open spec fn profile_of(name: Seq<char>) -> Profile {
    if name == "debug"@ {
        Profile::Debug
    } else {
        Profile::Release
    }
}

impl Profile {
    /// The profile that a profile name selects.
    pub fn from_name(name: &str) -> (profile: Profile)
        ensures
            profile == profile_of(name@),
    {
        if str_eq(name, "debug") {
            Profile::Debug
        } else {
            Profile::Release
        }
    }

    /// The name of the profile's directory below the output root.
    pub open spec fn directory_text(self) -> Seq<char> {
        match self {
            Profile::Debug => "debug"@,
            Profile::Release => "release"@,
        }
    }

    /// The name of the profile's directory below the output root.
    pub fn directory(self) -> (name: &'static str)
        ensures
            name@ == self.directory_text(),
    {
        match self {
            Profile::Debug => "debug",
            Profile::Release => "release",
        }
    }

    /// The optimization level of the profile: none for debug builds, full
    /// for all others.
    pub open spec fn optimization_of(self) -> OptimizationLevel {
        match self {
            Profile::Debug => OptimizationLevel::Zero,
            Profile::Release => OptimizationLevel::Performance,
        }
    }

    /// The optimization level of the profile.
    pub fn optimization(self) -> (level: OptimizationLevel)
        ensures
            level == self.optimization_of(),
    {
        match self {
            Profile::Debug => OptimizationLevel::Zero,
            Profile::Release => OptimizationLevel::Performance,
        }
    }

    /// Whether the profile asks for debug information: only debug builds do.
    pub fn debug_info(self) -> (wanted: bool)
        ensures
            wanted == (self == Profile::Debug),
    {
        match self {
            Profile::Debug => true,
            Profile::Release => false,
        }
    }
}

/// A macro defined for a compiler session.
#[derive(Debug)]
pub struct MacroDefinition {
    pub name: String,
    pub value: String,
}

/// A macro definition as plain text.
pub struct MacroModel {
    pub name: Seq<char>,
    pub value: Seq<char>,
}

impl View for MacroDefinition {
    type V = MacroModel;

    open spec fn view(&self) -> MacroModel {
        MacroModel { name: self.name@, value: self.value@ }
    }
}

/// The models of a sequence of macro definitions.
pub open spec fn macro_views(macros: Seq<MacroDefinition>) -> Seq<MacroModel> {
    Seq::new(macros.len(), |i: int| macros[i]@)
}

/// The macro that a global macro of a project defines: itself, with the
/// value `1`.
pub open spec fn global_macro(token: Seq<char>) -> MacroModel {
    MacroModel { name: token, value: "1"@ }
}

/// The macro that a token of an optional combination defines: the token
/// behind the prefix `USE_`, with the value `1`.
pub open spec fn optional_macro(token: Seq<char>) -> MacroModel {
    MacroModel { name: "USE_"@ + token, value: "1"@ }
}

/// The macros of a variant: first its global macros, then its optional
/// ones, each list in declared order.
pub open spec fn variant_macros(
    global: Seq<Seq<char>>,
    optional: Seq<Seq<char>>,
) -> Seq<MacroModel> {
    Seq::new(
        global.len() + optional.len(),
        |i: int|
            if i < global.len() {
                global_macro(global[i])
            } else {
                optional_macro(optional[i - global.len()])
            },
    )
}

/// The options of one compiler session.
#[derive(Debug)]
pub struct SessionOptions {
    pub optimization: OptimizationLevel,
    pub debug_info: bool,
    pub target_vulkan_version: u32,
    pub target_spirv_version: u32,
    pub macros: Vec<MacroDefinition>,
}

/// The options of a session as plain values.
pub struct SessionModel {
    pub optimization: OptimizationLevel,
    pub debug_info: bool,
    pub target_vulkan_version: u32,
    pub target_spirv_version: u32,
    pub macros: Seq<MacroModel>,
}

impl View for SessionOptions {
    type V = SessionModel;

    open spec fn view(&self) -> SessionModel {
        SessionModel {
            optimization: self.optimization,
            debug_info: self.debug_info,
            target_vulkan_version: self.target_vulkan_version,
            target_spirv_version: self.target_spirv_version,
            macros: macro_views(self.macros@),
        }
    }
}

/// The options of the session that compiles `variant` under `profile`.
pub open spec fn session_for(profile: Profile, variant: VariantModel) -> SessionModel {
    SessionModel {
        optimization: profile.optimization_of(),
        debug_info: profile == Profile::Debug,
        target_vulkan_version: TARGET_VULKAN_VERSION,
        target_spirv_version: TARGET_SPIRV_VERSION,
        macros: variant_macros(variant.global_macros, variant.optional_macros),
    }
}

/// The name of the entry point of every shader.
pub fn entry_point() -> (name: &'static str)
    ensures
        name@ == "main"@,
{
    "main"
}

/// The macro that a global macro of a project defines.
pub fn define_global(token: &str) -> (definition: MacroDefinition)
    ensures
        definition@ == global_macro(token@),
{
    MacroDefinition { name: String::from_str(token), value: String::from_str("1") }
}

/// The macro that a token of an optional combination defines.
pub fn define_optional(token: &str) -> (definition: MacroDefinition)
    ensures
        definition@ == optional_macro(token@),
{
    let mut name = String::from_str("USE_");
    name.append(token);
    MacroDefinition { name, value: String::from_str("1") }
}

/// The macros to define for a variant, in the order in which they are
/// defined.
pub fn macro_definitions(variant: &Variant) -> (macros: Vec<MacroDefinition>)
    ensures
        macro_views(macros@) == variant_macros(
            variant@.global_macros,
            variant@.optional_macros,
        ),
{
    let mut macros: Vec<MacroDefinition> = Vec::new();
    let mut i: usize = 0;
    while i < variant.global_macros.len()
        invariant
            i <= variant.global_macros.len(),
            macros@.len() == i,
            forall|j: int|
                0 <= j < i ==> (#[trigger] macros@[j])@ == global_macro(
                    variant@.global_macros[j],
                ),
        decreases variant.global_macros.len() - i,
    {
        macros.push(define_global(variant.global_macros[i].as_str()));
        i = i + 1;
    }
    let ghost n = variant@.global_macros.len() as int;
    let mut k: usize = 0;
    while k < variant.optional_macros.len()
        invariant
            k <= variant.optional_macros.len(),
            n == variant.global_macros@.len(),
            macros@.len() == n + k,
            forall|j: int|
                0 <= j < n ==> (#[trigger] macros@[j])@ == global_macro(
                    variant@.global_macros[j],
                ),
            forall|j: int|
                n <= j < n + k ==> (#[trigger] macros@[j])@ == optional_macro(
                    variant@.optional_macros[j - n],
                ),
        decreases variant.optional_macros.len() - k,
    {
        macros.push(define_optional(variant.optional_macros[k].as_str()));
        k = k + 1;
    }
    assert(macro_views(macros@) =~= variant_macros(
        variant@.global_macros,
        variant@.optional_macros,
    ));
    macros
}

/// The options of the session that compiles `variant` under `profile`.
pub fn session_options(profile: Profile, variant: &Variant) -> (options: SessionOptions)
    ensures
        options@ == session_for(profile, variant@),
{
    SessionOptions {
        optimization: profile.optimization(),
        debug_info: profile.debug_info(),
        target_vulkan_version: TARGET_VULKAN_VERSION,
        target_spirv_version: TARGET_SPIRV_VERSION,
        macros: macro_definitions(variant),
    }
}

/// A token of an optional combination is defined under the prefix `USE_`,
/// a global macro under its own name, and both with the value `1`.
pub proof fn lemma_macro_naming(global: Seq<Seq<char>>, optional: Seq<Seq<char>>, i: int)
    requires
        0 <= i < global.len() + optional.len(),
    ensures
        variant_macros(global, optional).len() == global.len() + optional.len(),
        i < global.len() ==> variant_macros(global, optional)[i].name == global[i],
        i >= global.len() ==> variant_macros(global, optional)[i].name == "USE_"@ + optional[i
            - global.len()],
        variant_macros(global, optional)[i].value == "1"@,
{
}

/// The two profiles configure sessions that differ in optimization and in
/// debug information, and in nothing else.
pub proof fn lemma_profiles_differ_in_optimization_only(variant: VariantModel)
    ensures
        session_for(Profile::Debug, variant).optimization == OptimizationLevel::Zero,
        session_for(Profile::Debug, variant).debug_info,
        session_for(Profile::Release, variant).optimization == OptimizationLevel::Performance,
        !session_for(Profile::Release, variant).debug_info,
        session_for(Profile::Debug, variant).macros == session_for(
            Profile::Release,
            variant,
        ).macros,
        session_for(Profile::Debug, variant).target_vulkan_version == session_for(
            Profile::Release,
            variant,
        ).target_vulkan_version,
        session_for(Profile::Debug, variant).target_spirv_version == session_for(
            Profile::Release,
            variant,
        ).target_spirv_version,
{
}

} // verus!
