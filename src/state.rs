use crate::handlers::AppError;
use crate::templates::{add_template, compiles, new_environment, templates_of, Env};
use vstd::prelude::*;

verus! {

/// Configuration shared read-only by every request: the template environment.
pub struct AppState {
    templates: Env,
}

impl AppState {
    /// The templates that the state holds, by name.
    pub closed spec fn templates(&self) -> Map<Seq<char>, Seq<char>> {
        templates_of(self.templates)
    }

    pub(crate) fn environment(&self) -> (r: &Env)
        ensures
            templates_of(*r) == self.templates(),
    {
        &self.templates
    }

    /// A state with no templates yet.
    pub fn new() -> (r: AppState)
        ensures
            r.templates() =~= Map::empty(),
    {
        AppState { templates: new_environment() }
    }

    /// Loads a template under `name`. A template that does not compile is
    /// refused with an error, and a later request for it fails as for a name
    /// that was never loaded.
    pub fn add_template(&mut self, name: String, source: String) -> (r: Result<(), AppError>)
        ensures
            r is Ok <==> compiles(name@, source@),
            r is Ok ==> final(self).templates() == old(self).templates().insert(name@, source@),
            r is Err ==> final(self).templates().submap_of(old(self).templates()),
            r is Err ==> final(self).templates().remove(name@) == old(self).templates().remove(
                name@,
            ),
    {
        match add_template(&mut self.templates, name, source) {
            Ok(()) => Ok(()),
            Err(e) => Err(AppError::from(e)),
        }
    }
}

} // verus!
