use hace_brain_runtime::bridges::{HacedleBridge, HacetralBridge, RuntimeBridge};
use hace_brain_runtime::{RuntimeConfig, RuntimeSio, Telemetry};

fn sio(prompt: Option<&str>, max_tokens: Option<u32>, provider: &str) -> RuntimeSio {
    RuntimeSio {
        prompt: prompt.map(|p| p.to_string()),
        max_tokens,
        temperature_bits: None,
        top_p_bits: None,
        runtime: RuntimeConfig { provider: provider.to_string(), model_id: None },
    }
}

#[test]
fn hacedle_echoes_prompt_bytes() {
    let b = HacedleBridge::new();
    let o = b.invoke(sio(Some("hi"), None, "hacedle")).unwrap();
    assert_eq!(o.status, "success");
    assert_eq!(o.result, vec![104u32, 105]);
    assert_eq!(o.telemetry, Telemetry { latency_ms: 0, tokens_used: 2 });
}

#[test]
fn hacedle_cuts_to_max_tokens() {
    let b = HacedleBridge::default();
    let o = b.invoke(sio(Some("abcdef"), Some(3), "")).unwrap();
    assert_eq!(o.result, vec![97u32, 98, 99]);
    assert_eq!(o.telemetry.tokens_used, 3);
    let o = b.invoke(sio(Some("abc"), Some(0), "")).unwrap();
    assert!(o.result.is_empty());
    assert_eq!(o.telemetry.tokens_used, 0);
}

#[test]
fn hacedle_default_budget_is_64() {
    let b = HacedleBridge::new();
    let long = "x".repeat(300);
    let o = b.invoke(sio(Some(&long), None, "hacedle")).unwrap();
    assert_eq!(o.result.len(), 64);
    assert!(o.result.iter().all(|t| *t == 120));
    assert_eq!(o.telemetry.tokens_used, 64);
}

#[test]
fn hacedle_without_prompt_answers_nothing() {
    let b = HacedleBridge::new();
    let o = b.invoke(sio(None, Some(10), "hacedle")).unwrap();
    assert_eq!(o.status, "success");
    assert!(o.result.is_empty());
    assert_eq!(o.telemetry.tokens_used, 0);
}

#[test]
fn hacedle_echoes_utf8_bytes() {
    let b = HacedleBridge::new();
    assert_eq!(b.execute_mock("é!").unwrap(), vec![0xc3u32, 0xa9, 0x21]);
    let o = b.invoke(sio(Some("é!"), Some(1), "hacedle")).unwrap();
    assert_eq!(o.result, vec![0xc3u32]);
}

#[test]
fn hacedle_refuses_models_and_inference() {
    let mut b = HacedleBridge::with_model("/models/qwen.gguf");
    assert_eq!(b.load_model("/models/qwen.gguf"), Err("hacedle_feature_not_enabled"));
    assert_eq!(b.execute_inference("hi", 4), Err("engine_not_loaded"));
    assert_eq!(b.execute_mock("").unwrap(), Vec::<u32>::new());
}

#[test]
fn hacetral_answers_workflow() {
    let b = HacetralBridge;
    let o = b.invoke(sio(Some("plan this"), Some(5), "hacetral")).unwrap();
    assert_eq!(o.status, "workflow");
    assert!(o.result.is_empty());
    assert_eq!(o.telemetry, Telemetry::default());
}
