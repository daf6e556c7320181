use dayroll::markdown::render_markdown;

fn flatten_first_line(md: &str) -> String {
    let rendered = render_markdown(md);
    rendered
        .first()
        .map(|line| {
            line.spans
                .iter()
                .map(|span| span.text.clone())
                .collect::<String>()
        })
        .unwrap_or_default()
}

#[test]
fn renders_heading_text() {
    assert_eq!(flatten_first_line("# Ship it"), "Ship it");
}

#[test]
fn renders_emphasis_and_strong_content() {
    assert_eq!(flatten_first_line("**bold** _italics_"), "bold italics");
}

#[test]
fn renders_inline_code_content() {
    assert_eq!(flatten_first_line("run `cargo test`"), "run cargo test");
}

#[test]
fn description_editor_preview_renders_markdown_content() {
    let rendered = dayroll::markdown::rendered_description("# Heading\n- item\n**bold**")
        .expect("a note that is not blank has a preview");
    let flattened = rendered
        .iter()
        .flat_map(|line| line.spans.iter())
        .map(|span| span.text.as_str())
        .collect::<String>();

    assert!(flattened.contains("Heading"), "{flattened}");
    assert!(
        flattened.contains("• item") || flattened.contains("- item"),
        "{flattened}"
    );
    assert!(flattened.contains("bold"), "{flattened}");
}
