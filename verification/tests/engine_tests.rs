use scaffold::engine::ProjectConfig;
use scaffold::engine::TemplateEngine;
use scaffold::errors::ScaffoldError;

fn demo_config() -> ProjectConfig {
    ProjectConfig {
        name: "demo".to_string(),
        typescript: true,
        testing: false,
        navigation: false,
    }
}

#[test]
fn test_render_template_substitutes_data() {
    let engine = TemplateEngine::new();
    let rendered = engine.render_template("Hello {{name}}!", &demo_config()).unwrap();
    assert_eq!(rendered, "Hello demo!");
}

#[test]
fn test_render_template_sees_flags() {
    let engine = TemplateEngine::new();
    let template = "{{#if typescript}}typed{{else}}plain{{/if}}-{{#if testing}}tested{{else}}untested{{/if}}";
    let rendered = engine.render_template(template, &demo_config()).unwrap();
    assert_eq!(rendered, "typed-untested");
}

#[test]
fn test_render_template_failure_is_reported() {
    let engine = TemplateEngine::new();
    let result = engine.render_template("{{#if typescript}}never closed", &demo_config());
    match result {
        Err(ScaffoldError::TemplateRenderFailure) => {}
        _ => panic!("expected a render failure"),
    }
}
