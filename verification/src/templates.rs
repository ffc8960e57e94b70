//! What the controller takes from the `tera` crate: JSON values, contexts and templates.
//!
//! What is said here of `tera` is believed, not proved.

use crate::text::shows_as;
use vstd::prelude::*;

verus! {

/// A store of templates.
#[verifier::external_type_specification]
#[verifier::external_body]
pub struct ExTera(tera::Tera);

/// The variables of a template.
#[verifier::external_type_specification]
#[verifier::external_body]
pub struct ExContext(tera::Context);

/// A JSON value, as a context holds it.
#[verifier::external_type_specification]
#[verifier::external_body]
pub struct ExValue(tera::Value);

/// The reason why a context could not be made or a template could not be rendered.
#[verifier::external_type_specification]
#[verifier::external_body]
pub struct ExError(tera::Error);

/// The templates of a store: their names, each with a text that stands for what the store holds
/// under it.
pub uninterp spec fn templates_of(store: tera::Tera) -> Map<Seq<char>, Seq<char>>;

/// The variables of a context: their names, each with its value.
pub uninterp spec fn context_entries(context: tera::Context) -> Map<Seq<char>, tera::Value>;

/// The JSON string with this text.
pub uninterp spec fn text_value(text: Seq<char>) -> tera::Value;

/// The JSON boolean with this truth value.
pub uninterp spec fn flag_value(flag: bool) -> tera::Value;

/// What `Context::from_serialize` says of anything but an object.
pub const NO_OBJECT: &'static str =
    "Creating a Context from a Value/Serialize requires it being a JSON object";

/// Rendering the template of this name over these variables may end in this outcome: a text, an
/// error, or `None`, where it does not return. Several outcomes are possible, because a template
/// can ask for the time, for a random number or for an environment variable, and because a store
/// can be given filters and functions of its own.
pub uninterp spec fn may_render(
    templates: Map<Seq<char>, Seq<char>>,
    name: Seq<char>,
    entries: Map<Seq<char>, tera::Value>,
    outcome: Option<Result<Seq<char>, tera::Error>>,
) -> bool;

/// The outcome of a rendering, with its text as a sequence of characters.
pub open spec fn rendered_text(rendered: Result<String, tera::Error>) -> Result<
    Seq<char>,
    tera::Error,
> {
    match rendered {
        Ok(text) => Ok(text@),
        Err(e) => Err(e),
    }
}

/// What is said of a template that the store does not have.
pub open spec fn not_found(name: Seq<char>) -> Seq<char> {
    "Template '"@ + name + "' not found"@
}

/// Rendering the template of this name over these variables returns. It does where there is no
/// such template.
pub open spec fn returns_from(
    templates: Map<Seq<char>, Seq<char>>,
    name: Seq<char>,
    entries: Map<Seq<char>, tera::Value>,
) -> bool {
    templates.contains_key(name) ==> !may_render(templates, name, entries, None)
}

/// No variables.
pub open spec fn no_entries() -> Map<Seq<char>, tera::Value> {
    Map::empty()
}

/// The names of the fields.
pub open spec fn names_of(fields: Seq<(String, tera::Value)>) -> Seq<Seq<char>> {
    fields.map_values(|field: (String, tera::Value)| field.0@)
}

/// The entries are the fields: the same names, with the same values.
pub open spec fn entries_are(
    entries: Map<Seq<char>, tera::Value>,
    fields: Seq<(String, tera::Value)>,
) -> bool {
    &&& forall|name: Seq<char>| #[trigger]
        entries.contains_key(name) <==> names_of(fields).contains(name)
    &&& forall|i: int|
        0 <= i < fields.len() ==> entries[names_of(fields)[i]] == (#[trigger] fields[i]).1
}

/// `Value::from` makes a JSON string of a text.
pub assume_specification[ <tera::Value as From<String>>::from ](f: String) -> (v: tera::Value)
    ensures
        v == text_value(f@),
;

/// `Value::from` makes a JSON boolean of a truth value.
pub assume_specification[ <tera::Value as From<bool>>::from ](f: bool) -> (v: tera::Value)
    ensures
        v == flag_value(f),
;

/// `Context::new` makes a context without variables.
pub assume_specification[ tera::Context::new ]() -> (c: tera::Context)
    ensures
        context_entries(c) == no_entries(),
;

/// `Context::from_serialize` makes a context of anything that serialises to a JSON object and
/// refuses everything else. A map with text keys serialises to the object with its entries, and
/// an absent value to `null`, which is refused with a text of its own.
#[verifier::external_body]
pub(crate) fn context_from_serialize(
    fields: Option<Vec<(String, tera::Value)>>,
) -> (context: Result<tera::Context, tera::Error>)
    requires
        fields matches Some(f) ==> names_of(f@).no_duplicates(),
    ensures
        context is Ok <==> fields is Some,
        context is Ok ==> entries_are(context_entries(context->Ok_0), fields->Some_0@),
        context is Err ==> shows_as(context->Err_0, NO_OBJECT@),
{
    tera::Context::from_serialize(
        fields.map(|f| f.into_iter().collect::<std::collections::BTreeMap<String, tera::Value>>()),
    )
}

/// `Tera::render` renders a template of the store over the variables of a context, and fails
/// where the store has no template of that name, with a text that names it. Which text comes out,
/// and whether a template that the store has renders at all, is left to `may_render`.
///
/// The call is made only where it returns. It does not where the macros of a template call each
/// other, or its inclusions lead back to it, without end, where a template counts in steps of
/// zero, and where it asks for what `tera` panics on, such as a random number out of an empty
/// range or a sum that no finite float holds.
pub assume_specification[ tera::Tera::render ](
    store: &tera::Tera,
    name: &str,
    context: &tera::Context,
) -> (rendered: Result<String, tera::Error>)
    requires
        returns_from(templates_of(*store), name@, context_entries(*context)),
    ensures
        may_render(
            templates_of(*store),
            name@,
            context_entries(*context),
            Some(rendered_text(rendered)),
        ),
        !templates_of(*store).contains_key(name@) ==> rendered is Err && shows_as(
            rendered->Err_0,
            not_found(name@),
        ),
;

/// `Tera::get_template_names` gives the name of each template of the store once, in no particular
/// order.
#[verifier::external_body]
fn get_template_names(store: &tera::Tera) -> (names: Vec<String>)
    ensures
        crate::text::string_views(names@).no_duplicates(),
        forall|name: Seq<char>| #[trigger]
            crate::text::string_views(names@).contains(name) <==> templates_of(
                *store,
            ).contains_key(name),
{
    store.get_template_names().map(|name| name.to_string()).collect()
}

/// The names are those of the templates, each once.
pub open spec fn are_the_names(
    names: Seq<String>,
    templates: Map<Seq<char>, Seq<char>>,
) -> bool {
    &&& crate::text::string_views(names).no_duplicates()
    &&& forall|name: Seq<char>| #[trigger]
        crate::text::string_views(names).contains(name) <==> templates.contains_key(name)
}

/// The names of the templates that were found, each once.
pub fn template_names(store: &tera::Tera) -> (names: Vec<String>)
    ensures
        are_the_names(names@, templates_of(*store)),
{
    get_template_names(store)
}

/// Every template is named, nothing else is, and no two names are the same.
pub proof fn law_every_template_is_named_once(
    names: Seq<String>,
    templates: Map<Seq<char>, Seq<char>>,
    name: Seq<char>,
)
    requires
        are_the_names(names, templates),
    ensures
        templates.contains_key(name) <==> exists|i: int|
            0 <= i < names.len() && (#[trigger] names[i])@ == name,
        forall|i: int, j: int|
            0 <= i < j < names.len() ==> (#[trigger] names[i])@ != (#[trigger] names[j])@,
{
    let views = crate::text::string_views(names);
    assert forall|i: int| 0 <= i < names.len() implies views[i] == (#[trigger] names[i])@ by {}
    if templates.contains_key(name) {
        assert(views.contains(name));
        let i = choose|i: int| 0 <= i < views.len() && views[i] == name;
        assert(names[i]@ == name);
    }
    if exists|i: int| 0 <= i < names.len() && (#[trigger] names[i])@ == name {
        let i = choose|i: int| 0 <= i < names.len() && (#[trigger] names[i])@ == name;
        assert(views[i] == name);
        assert(views.contains(name));
    }
}

} // verus!
