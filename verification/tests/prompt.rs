use hace_brain_runtime::prompt::{
    assemble, assemble_with_markers, assemble_with_template, PromptContext, PromptTemplate, QwenTemplate,
};

#[test]
fn assemble_without_history() {
    let ctx = PromptContext::new("You are helpful.".to_string(), "Hello".to_string());
    assert_eq!(
        assemble(&ctx),
        "<|im_start|>system\nYou are helpful.<|im_end|>\n<|im_start|>user\nHello<|im_end|>\n<|im_start|>assistant\n"
    );
}

#[test]
fn assemble_with_history_in_order() {
    let ctx = PromptContext::new("sys".to_string(), "now".to_string())
        .with_history(vec!["first".to_string(), "second".to_string()]);
    assert_eq!(
        assemble(&ctx),
        "<|im_start|>system\nsys<|im_end|>\n\
         <|im_start|>user\nfirst<|im_end|>\n\
         <|im_start|>user\nsecond<|im_end|>\n\
         <|im_start|>user\nnow<|im_end|>\n\
         <|im_start|>assistant\n"
    );
}

#[test]
fn assemble_is_qwen_template() {
    let mut ctx = PromptContext::new("a".to_string(), "b".to_string());
    ctx.add_history("c".to_string());
    assert_eq!(assemble(&ctx), assemble_with_template(&ctx, QwenTemplate));
}

#[test]
fn custom_markers() {
    let mut ctx = PromptContext::new("s".to_string(), "u".to_string());
    assert_eq!(assemble_with_markers(&ctx, "[S]", "[/S]", "[U]", "[/U]", "[A]"), "[S]s[/S][U]u[/U][A]");
    ctx.add_history("h".to_string());
    assert_eq!(assemble_with_markers(&ctx, "[S]", "[/S]", "[U]", "[/U]", "[A]"), "[S]s[/S][U]h[/U][U]u[/U][A]");
}

#[test]
fn add_history_inserts_turn_before_user() {
    let mut ctx = PromptContext::new("s".to_string(), "u".to_string());
    ctx.add_history("one".to_string());
    let before = assemble_with_markers(&ctx, "[S]", "[/S]", "[U]", "[/U]", "[A]");
    ctx.add_history("two".to_string());
    let after = assemble_with_markers(&ctx, "[S]", "[/S]", "[U]", "[/U]", "[A]");
    let tail = "[U]u[/U][A]";
    assert!(before.ends_with(tail));
    let prefix = &before[..before.len() - tail.len()];
    assert_eq!(after, format!("{}[U]two[/U]{}", prefix, tail));
}

#[test]
fn context_builders() {
    let mut ctx = PromptContext::new("s".to_string(), "u".to_string());
    assert!(ctx.history.is_empty());
    ctx.add_history("x".to_string());
    assert_eq!(ctx.history, vec!["x".to_string()]);
    let ctx = ctx.with_history(vec!["y".to_string(), "z".to_string()]);
    assert_eq!(ctx.history, vec!["y".to_string(), "z".to_string()]);
    assert_eq!(ctx.system, "s");
    assert_eq!(ctx.user, "u");
    let empty = PromptContext::new(String::new(), String::new());
    assert_eq!(
        assemble(&empty),
        "<|im_start|>system\n<|im_end|>\n<|im_start|>user\n<|im_end|>\n<|im_start|>assistant\n"
    );
}

#[test]
fn assembled_prompt_frame() {
    let ctx = PromptContext::new("rules".to_string(), "question".to_string())
        .with_history(vec!["a".to_string(), "b".to_string(), "c".to_string()]);
    let p = assemble(&ctx);
    assert!(p.starts_with("<|im_start|>system\nrules<|im_end|>\n"));
    assert!(p.ends_with("<|im_start|>user\nquestion<|im_end|>\n<|im_start|>assistant\n"));
    assert_eq!(p.matches("<|im_start|>user\n").count(), 4);
}

#[test]
fn qwen_template_markers_and_exact_prompt() {
    let t = QwenTemplate;
    assert_eq!(t.system_start(), "<|im_start|>system\n");
    assert_eq!(t.system_end(), "<|im_end|>\n");
    assert_eq!(t.user_start(), "<|im_start|>user\n");
    assert_eq!(t.user_end(), "<|im_end|>\n");
    assert_eq!(t.assistant_start(), "<|im_start|>assistant\n");
    let ctx = PromptContext::new("S".to_string(), "U".to_string())
        .with_history(vec!["H1".to_string(), "H2".to_string()]);
    assert_eq!(
        assemble_with_template(&ctx, QwenTemplate),
        "<|im_start|>system\nS<|im_end|>\n<|im_start|>user\nH1<|im_end|>\n<|im_start|>user\nH2<|im_end|>\n<|im_start|>user\nU<|im_end|>\n<|im_start|>assistant\n"
    );
}
