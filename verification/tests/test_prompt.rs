use engai::prompt::{render_template, replace_text, PromptEngine, PromptError};

#[test]
fn render_fills_placeholders() {
    let template = "Explain the word: {{word}}\nLevel: {{level}}";
    let vars = vec![
        ("word".to_string(), "abandon".to_string()),
        ("level".to_string(), "B2".to_string()),
    ];
    let rendered = render_template(template, &vars);
    assert!(rendered.contains("abandon"), "output should contain 'abandon'");
    assert!(rendered.contains("B2"), "output should contain 'B2'");
    assert!(!rendered.contains("{{"), "output should not contain unresolved placeholders");
    assert_eq!(rendered, "Explain the word: abandon\nLevel: B2");
}

#[test]
fn replace_matches_std() {
    for (s, p, r) in [("aaa", "aa", "b"), ("xyz", "q", "r"), ("{{a}}{{a}}", "{{a}}", "1"), ("", "a", "b")] {
        assert_eq!(replace_text(s, p, r), s.replace(p, r));
    }
}

#[test]
fn missing_template_is_an_error() {
    let engine = PromptEngine::new("/tmp/prompts".to_string());
    assert_eq!(engine.template_path("explain.md"), "/tmp/prompts/explain.md");
    let result = engine.render_loaded("nonexistent.md", None, &vec![]);
    assert!(result.is_err(), "should fail for missing template");
    let msg = result.unwrap_err().message();
    assert!(msg.contains("not found"), "error should mention 'not found'");
    assert_eq!(msg, "Prompt template not found: /tmp/prompts/nonexistent.md");
    let ok = engine.render_loaded("t.md", Some("hi {{n}}".to_string()), &vec![("n".to_string(), "you".to_string())]);
    assert_eq!(ok.unwrap(), "hi you");
    assert!(matches!(PromptError::NotFound("x".to_string()), PromptError::NotFound(_)));
}
