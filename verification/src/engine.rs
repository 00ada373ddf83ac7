use vstd::prelude::*;
use crate::errors::ScaffoldError;

verus! {

/// The option record a template is rendered against.
pub struct ProjectConfig {
    pub name: String,
    pub typescript: bool,
    pub testing: bool,
    pub navigation: bool,
}

/// What the template engine's rendering call returns for a template and an
/// option record. The engine renders on a default registry with no
/// registered templates or helpers, so the result is a function of the
/// template text and the record alone.
pub uninterp spec fn spec_rendered(
    template: Seq<char>,
    name: Seq<char>,
    typescript: bool,
    testing: bool,
    navigation: bool,
) -> Seq<char>;

/// Relies on handlebars::Handlebars::render_template, called on a freshly
/// created default registry: rendering there is deterministic in the
/// template text and the data handed over, and fails only on a template the
/// engine cannot parse or render.
#[verifier::external_body]
fn render_on_default_registry(
    template: &str,
    name: &str,
    typescript: bool,
    testing: bool,
    navigation: bool,
) -> (r: Result<String, String>)
    ensures
        r matches Ok(s) ==> s@ == spec_rendered(template@, name@, typescript, testing, navigation),
{
    let mut data = serde_json::Map::new();
    data.insert("name".to_string(), serde_json::Value::String(name.to_string()));
    data.insert("typescript".to_string(), serde_json::Value::Bool(typescript));
    data.insert("testing".to_string(), serde_json::Value::Bool(testing));
    data.insert("navigation".to_string(), serde_json::Value::Bool(navigation));
    handlebars::Handlebars::new().render_template(template, &serde_json::Value::Object(data)).map_err(
        |e| e.to_string(),
    )
}

/// The generic template-rendering facility. No command path invokes it; it
/// is kept as the template engine of record for option-driven templates.
///
/// No template is ever registered on it, so each render runs on a fresh
/// default registry and depends on its two arguments alone.
pub struct TemplateEngine {}

impl TemplateEngine {
    pub fn new() -> (r: TemplateEngine) {
        TemplateEngine {  }
    }

    /// Render a template string against an option record. A template the
    /// engine cannot parse or render is reported as a render failure.
    pub fn render_template(&self, template: &str, data: &ProjectConfig) -> (r: Result<
        String,
        ScaffoldError,
    >)
        ensures
            r matches Ok(s) ==> s@ == spec_rendered(
                template@,
                data.name@,
                data.typescript,
                data.testing,
                data.navigation,
            ),
            r matches Err(e) ==> e is TemplateRenderFailure,
    {
        match render_on_default_registry(
            template,
            data.name.as_str(),
            data.typescript,
            data.testing,
            data.navigation,
        ) {
            Ok(s) => Ok(s),
            Err(_) => Err(ScaffoldError::TemplateRenderFailure),
        }
    }
}

} // verus!
