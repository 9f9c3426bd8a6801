use vstd::prelude::*;

verus! {

#[verifier::external_type_specification]
#[verifier::external_body]
pub struct ExEnvironment<'a>(minijinja::Environment<'a>);

#[verifier::external_type_specification]
#[verifier::external_body]
pub struct ExError(minijinja::Error);

/// The environments of this library own their templates' text.
pub type Env = minijinja::Environment<'static>;

/// What a template environment holds: each template's name and its source.
pub uninterp spec fn templates_of(e: Env) -> Map<Seq<char>, Seq<char>>;

/// Relies on minijinja::Environment::new: a fresh environment holds no template.
/// Relies on minijinja::Environment::remove_global to drop the `debug` global,
/// whose output lists the environment's templates in hash-map order; without it
/// a rendering would not be a function of the templates and the context alone.
#[verifier::external_body]
pub(crate) fn new_environment() -> (r: Env)
    ensures
        templates_of(r) =~= Map::empty(),
{
    let mut env = minijinja::Environment::new();
    env.remove_global("debug");
    env
}

/// Whether a template of this name and source compiles.
pub uninterp spec fn compiles(name: Seq<char>, source: Seq<char>) -> bool;

/// What rendering the template called `name`, from an environment of this
/// library holding `templates`, with `username` as the one context variable
/// gives: the text, or
/// `None` where rendering fails.
pub uninterp spec fn rendered(
    templates: Map<Seq<char>, Seq<char>>,
    name: Seq<char>,
    username: Seq<char>,
) -> Option<Seq<char>>;

/// The outcome of rendering `name` with `username`: no template of that name
/// means no page.
pub open spec fn render_outcome(
    templates: Map<Seq<char>, Seq<char>>,
    name: Seq<char>,
    username: Seq<char>,
) -> Option<Seq<char>> {
    if templates.contains_key(name) {
        rendered(templates, name, username)
    } else {
        None
    }
}

/// Relies on minijinja::Environment::add_template_owned: on success the template
/// is stored under its name, replacing any earlier one; a template that does not
/// compile is refused, and templates under other names are left as they were.
/// Whether it compiles depends on the name and the source alone.
#[verifier::external_body]
pub(crate) fn add_template(env: &mut Env, name: String, source: String) -> (r: Result<
    (),
    minijinja::Error,
>)
    ensures
        r is Ok <==> compiles(name@, source@),
        r is Ok ==> templates_of(*final(env)) == templates_of(*old(env)).insert(name@, source@),
        r is Err ==> templates_of(*final(env)).submap_of(templates_of(*old(env))),
        r is Err ==> templates_of(*final(env)).remove(name@) == templates_of(*old(env)).remove(
            name@,
        ),
{
    env.add_template_owned(name, source)
}

/// Relies on minijinja::Environment::get_template, which fails for a name that
/// the environment does not hold (no loader is ever set here), and on
/// minijinja::Template::render with the context `{username: ..}`.
#[verifier::external_body]
pub(crate) fn render_template(env: &Env, name: &str, username: &str) -> (r: Result<
    String,
    minijinja::Error,
>)
    ensures
        !templates_of(*env).contains_key(name@) ==> r is Err,
        templates_of(*env).contains_key(name@) ==> (r is Ok <==> rendered(
            templates_of(*env),
            name@,
            username@,
        ) is Some),
        r is Ok ==> r->Ok_0@ == rendered(templates_of(*env), name@, username@)->Some_0,
{
    match env.get_template(name) {
        Ok(t) => t.render(minijinja::Value::from_iter([("username", username)])),
        Err(e) => Err(e),
    }
}

} // verus!
