//! The registry of languages and the recipe of each.

use vstd::prelude::*;
use crate::config::SecurityConfig;
use crate::text::{eq_ignoring_case, same_ignoring_case};

pub mod cpp;
pub mod python;

pub use cpp::Cpp;
pub use python::Python;

verus! {

/// What a recipe is, as plain values.
pub struct RecipeModel {
    pub id: Seq<char>,
    pub image: Seq<char>,
    pub invocation: Seq<char>,
    pub is_compiled: bool,
    pub file_extension: Seq<char>,
}

/// How one language is run inside a sandbox.
#[derive(Clone, Copy, Debug)]
pub struct LanguageRecipe {
    pub id: &'static str,
    pub image: &'static str,
    pub invocation: &'static str,
    pub is_compiled: bool,
    pub file_extension: &'static str,
}

impl View for LanguageRecipe {
    type V = RecipeModel;

    open spec fn view(&self) -> RecipeModel {
        RecipeModel {
            id: self.id@,
            image: self.image@,
            invocation: self.invocation@,
            is_compiled: self.is_compiled,
            file_extension: self.file_extension@,
        }
    }
}

/// A language the engine can run.
pub trait Language {
    spec fn recipe_model(&self) -> RecipeModel;

    fn command(&self) -> (r: &'static str)
        ensures
            r@ == self.recipe_model().invocation,
    ;

    fn docker_image(&self) -> (r: &'static str)
        ensures
            r@ == self.recipe_model().image,
    ;

    fn file_extension(&self) -> (r: &'static str)
        ensures
            r@ == self.recipe_model().file_extension,
    ;

    fn is_compiled(&self) -> (r: bool)
        ensures
            r == self.recipe_model().is_compiled,
    ;

    fn name(&self) -> (r: &'static str)
        ensures
            r@ == self.recipe_model().id,
    ;

    fn security_config(&self) -> (r: SecurityConfig)
        ensures
            r.is_default(),
            r.wf(),
    ;
}

/// The recipe of a language, gathered from its methods.
pub fn recipe_of<L: Language>(lang: &L) -> (r: LanguageRecipe)
    ensures
        r@ == lang.recipe_model(),
{
    LanguageRecipe {
        id: lang.name(),
        image: lang.docker_image(),
        invocation: lang.command(),
        is_compiled: lang.is_compiled(),
        file_extension: lang.file_extension(),
    }
}

/// Every recipe of the registry, in the order in which languages are listed.
pub open spec fn registry() -> Seq<RecipeModel> {
    seq![Cpp.recipe_model(), Python.recipe_model()]
}

/// The recipe whose identifier matches `id` up to ASCII case, if any.
pub open spec fn lookup_spec(id: Seq<char>) -> Option<RecipeModel> {
    if same_ignoring_case(id, Cpp.recipe_model().id) {
        Some(Cpp.recipe_model())
    } else if same_ignoring_case(id, Python.recipe_model().id) {
        Some(Python.recipe_model())
    } else {
        None
    }
}

/// Finds the recipe of a language; the identifier is compared without
/// regard to the case of ASCII letters, and nothing else is tolerated.
pub fn lookup(id: &str) -> (r: Option<LanguageRecipe>)
    ensures
        match r {
            Some(rec) => lookup_spec(id@) == Some(rec@),
            None => lookup_spec(id@).is_none(),
        },
{
    if eq_ignoring_case(id, Cpp.name()) {
        Some(recipe_of(&Cpp))
    } else if eq_ignoring_case(id, Python.name()) {
        Some(recipe_of(&Python))
    } else {
        None
    }
}

/// The identifiers of the registry, in order.
pub fn language_ids() -> (r: Vec<&'static str>)
    ensures
        r@.len() == registry().len(),
        forall|i: int| 0 <= i < r@.len() ==> (#[trigger] r@[i])@ == registry()[i].id,
{
    let mut v: Vec<&'static str> = Vec::new();
    v.push(Cpp.name());
    v.push(Python.name());
    v
}

} // verus!
