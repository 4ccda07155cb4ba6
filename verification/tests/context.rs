use mimi::context::{Context, SYSTEM_PROMPT};
use mimi::models::{all_models, get_model};

#[test]
fn token_limit_is_not_hit_below_compaction_threshold() {
    let models = all_models();
    let model = get_model(&Some("openai/gpt-5.6-sol".to_string()), &models).unwrap();
    let mut context = Context::new(model);
    let threshold = context.compact_threshold_percentage * model.context_window / 100;
    context.usage.total_tokens = threshold - 1;

    assert!(!context.exceed_token_usage(None).unwrap());
}

#[test]
fn token_limit_is_hit_above_compaction_threshold() {
    let models = all_models();
    let model = get_model(&Some("openai/gpt-5.6-sol".to_string()), &models).unwrap();
    let mut context = Context::new(model);
    let threshold = context.compact_threshold_percentage * model.context_window / 100;
    context.usage.total_tokens = threshold;

    assert!(context.exceed_token_usage(Some("testing")).unwrap());
}

#[test]
fn system_prompt_is_embedded_in_the_binary() {
    let models = all_models();
    let model = get_model(&Some("openai/gpt-5.6-sol".to_string()), &models).unwrap();
    let mut context = Context::new(model);

    context.build_system_prompt(None);

    assert!(context
        .system_prompt
        .as_deref()
        .is_some_and(|prompt| prompt.starts_with("You are a mimi")));
}

#[test]
fn token_estimate_rounds_up_per_four_characters() {
    assert_eq!(Context::estimate_token_usage("").unwrap(), 0);
    assert_eq!(Context::estimate_token_usage("abc").unwrap(), 1);
    assert_eq!(Context::estimate_token_usage("abcd").unwrap(), 1);
    assert_eq!(Context::estimate_token_usage("abcde").unwrap(), 2);
    // characters, not bytes, are counted
    assert_eq!(Context::estimate_token_usage("ééééé").unwrap(), 2);
}

#[test]
fn usage_exactly_at_threshold_is_not_exceeded() {
    let models = all_models();
    let model = get_model(&None, &models).unwrap();
    let mut context = Context::new(model);
    // 10% of 400000 tokens
    context.usage.total_tokens = 40000;
    assert!(!context.exceed_token_usage(None).unwrap());
    context.usage.total_tokens = 40001;
    assert!(context.exceed_token_usage(None).unwrap());
}

#[test]
fn system_prompt_appends_agents_file_and_counts_tokens() {
    let models = all_models();
    let model = get_model(&None, &models).unwrap();
    let mut context = Context::new(model);
    context.build_system_prompt(Some("project rules".to_string()));
    let prompt = context.system_prompt.clone().unwrap();
    assert_eq!(prompt, format!("{}\nproject rules", SYSTEM_PROMPT));
    let expected = (prompt.chars().count() as u64 + 3) / 4;
    assert_eq!(context.usage.input_tokens, expected);
    assert_eq!(context.usage.total_tokens, 0);
}

#[test]
fn usage_check_fits_detects_overflow() {
    let models = all_models();
    let model = get_model(&None, &models).unwrap();
    let mut context = Context::new(model);
    assert!(context.usage_check_fits_exec(Some("hello")));
    context.usage.total_tokens = u64::MAX;
    assert!(context.usage_check_fits_exec(None));
    assert!(!context.usage_check_fits_exec(Some("hello")));
}
