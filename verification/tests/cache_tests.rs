use clip_serve::models::{
    CacheError, GetOutcome, LoadPlan, ModelConfig, ModelHandle, ModelManager, ModelType,
};

fn image_config(path: &str, width: u32, height: u32) -> ModelConfig {
    ModelConfig {
        model_type: ModelType::Image,
        model_path: path.to_string(),
        tokenizer_path: None,
        image_size: Some((width, height)),
        max_length: None,
    }
}

fn text_config(path: &str, tokenizer: Option<&str>, max_length: Option<usize>) -> ModelConfig {
    ModelConfig {
        model_type: ModelType::Text,
        model_path: path.to_string(),
        tokenizer_path: tokenizer.map(|t| t.to_string()),
        image_size: None,
        max_length,
    }
}

fn handle(id: u64, kind: ModelType) -> ModelHandle {
    ModelHandle { id, kind }
}

#[test]
fn miss_yields_one_load_plan_then_hits() {
    let mut m = ModelManager::new();
    m.register_model("clip-img".to_string(), image_config("models/clip.onnx", 224, 224));

    let mut constructions = 0;
    match m.get_or_load_model("clip-img", 1).unwrap() {
        GetOutcome::MustLoad(LoadPlan::Image { model_path, image_size }) => {
            constructions += 1;
            assert_eq!(model_path, "models/clip.onnx");
            assert_eq!(image_size, (224, 224));
        }
        other => panic!("expected an image load plan, got {:?}", other),
    }
    m.install_model("clip-img", handle(1, ModelType::Image), 1);

    // two more requests inside the TTL window: both served, no new construction
    for now in [2u64, 3u64] {
        match m.get_or_load_model("clip-img", now).unwrap() {
            GetOutcome::Loaded(h) => assert_eq!(h.id, 1),
            GetOutcome::MustLoad(_) => constructions += 1,
        }
    }
    assert_eq!(constructions, 1);
}

#[test]
fn unknown_name_is_not_found() {
    let mut m = ModelManager::new();
    let r = m.get_or_load_model("nowhere", 0);
    assert_eq!(r.unwrap_err(), CacheError::NotFound);
}

#[test]
fn image_config_without_size_is_config_error() {
    let mut m = ModelManager::new();
    let mut c = image_config("m.onnx", 0, 0);
    c.image_size = None;
    m.register_model("img".to_string(), c);
    assert_eq!(m.get_or_load_model("img", 0).unwrap_err(), CacheError::ConfigError);
}

#[test]
fn text_config_without_tokenizer_is_config_error() {
    let mut m = ModelManager::new();
    m.register_model("txt".to_string(), text_config("m.onnx", None, Some(52)));
    assert_eq!(m.get_or_load_model("txt", 0).unwrap_err(), CacheError::ConfigError);
}

#[test]
fn text_config_without_max_length_is_config_error() {
    let mut m = ModelManager::new();
    m.register_model("txt2".to_string(), text_config("m.onnx", Some("tok.json"), None));
    assert_eq!(m.get_or_load_model("txt2", 0).unwrap_err(), CacheError::ConfigError);
}

#[test]
fn complete_text_config_yields_text_plan() {
    let mut m = ModelManager::new();
    m.register_model("txt3".to_string(), text_config("m.txt.onnx", Some("tok.json"), Some(52)));
    match m.get_or_load_model("txt3", 0).unwrap() {
        GetOutcome::MustLoad(LoadPlan::Text { model_path, tokenizer_path, max_length }) => {
            assert_eq!(model_path, "m.txt.onnx");
            assert_eq!(tokenizer_path, "tok.json");
            assert_eq!(max_length, 52);
        }
        other => panic!("expected a text load plan, got {:?}", other),
    }
}

#[test]
fn failed_construction_is_retried_in_full() {
    // a load plan that the caller never installs (construction failed) is
    // demanded again, unchanged, by the next request
    let mut m = ModelManager::new();
    m.register_model("broken".to_string(), image_config("broken.onnx", 224, 224));
    for now in 0..3u64 {
        match m.get_or_load_model("broken", now).unwrap() {
            GetOutcome::MustLoad(LoadPlan::Image { model_path, .. }) => {
                assert_eq!(model_path, "broken.onnx");
            }
            other => panic!("expected a retried load plan, got {:?}", other),
        }
    }
}

#[test]
fn register_overwrites_last_write_wins() {
    let mut m = ModelManager::new();
    m.register_model("m".to_string(), image_config("first.onnx", 224, 224));
    m.register_model("m".to_string(), image_config("second.onnx", 336, 336));
    match m.get_or_load_model("m", 0).unwrap() {
        GetOutcome::MustLoad(LoadPlan::Image { model_path, image_size }) => {
            assert_eq!(model_path, "second.onnx");
            assert_eq!(image_size, (336, 336));
        }
        other => panic!("expected the overwritten plan, got {:?}", other),
    }
}

#[test]
fn sweep_keeps_fresh_and_evicts_idle() {
    let mut m = ModelManager::new();
    m.register_model("fresh".to_string(), image_config("f.onnx", 224, 224));
    m.register_model("stale".to_string(), image_config("s.onnx", 224, 224));
    m.install_model("fresh", handle(1, ModelType::Image), 95);
    m.install_model("stale", handle(2, ModelType::Image), 80);

    // at time 100 with ttl 10: fresh is idle 5 (< ttl), stale is idle 20 (>= ttl)
    m.cleanup_expired_models(10, 100);

    match m.get_or_load_model("fresh", 100).unwrap() {
        GetOutcome::Loaded(h) => assert_eq!(h.id, 1),
        other => panic!("fresh entry should have survived, got {:?}", other),
    }
    match m.get_or_load_model("stale", 100).unwrap() {
        GetOutcome::MustLoad(_) => {}
        other => panic!("stale entry should have been evicted, got {:?}", other),
    }
}

#[test]
fn sweep_boundary_idle_equal_to_ttl_is_evicted() {
    let mut m = ModelManager::new();
    m.register_model("edge".to_string(), image_config("e.onnx", 224, 224));
    m.install_model("edge", handle(3, ModelType::Image), 90);
    // idle time is exactly the ttl: the entry goes
    m.cleanup_expired_models(10, 100);
    assert!(matches!(
        m.get_or_load_model("edge", 100).unwrap(),
        GetOutcome::MustLoad(_)
    ));
}

#[test]
fn eviction_then_exactly_one_new_construction() {
    let mut m = ModelManager::new();
    m.register_model("clip".to_string(), image_config("c.onnx", 224, 224));

    let mut constructions = 0;
    if let GetOutcome::MustLoad(_) = m.get_or_load_model("clip", 0).unwrap() {
        constructions += 1;
        m.install_model("clip", handle(4, ModelType::Image), 0);
    }
    // a second request within the window reuses the handle
    assert!(matches!(
        m.get_or_load_model("clip", 5).unwrap(),
        GetOutcome::Loaded(_)
    ));
    // wait past the ttl with no access, sweep, then ask a third time
    m.cleanup_expired_models(10, 20);
    if let GetOutcome::MustLoad(_) = m.get_or_load_model("clip", 20).unwrap() {
        constructions += 1;
        m.install_model("clip", handle(5, ModelType::Image), 20);
    }
    assert_eq!(constructions, 2);
    match m.get_or_load_model("clip", 21).unwrap() {
        GetOutcome::Loaded(h) => assert_eq!(h.id, 5),
        other => panic!("expected the reloaded handle, got {:?}", other),
    }
}

#[test]
fn retrieval_refreshes_idle_time() {
    let mut m = ModelManager::new();
    m.register_model("warm".to_string(), image_config("w.onnx", 224, 224));
    m.install_model("warm", handle(6, ModelType::Image), 0);
    // touched at 8, so at 15 its idle time is 7, under the ttl of 10
    assert!(matches!(
        m.get_or_load_model("warm", 8).unwrap(),
        GetOutcome::Loaded(_)
    ));
    m.cleanup_expired_models(10, 15);
    assert!(matches!(
        m.get_or_load_model("warm", 15).unwrap(),
        GetOutcome::Loaded(_)
    ));
}

#[test]
fn sweep_of_empty_cache_is_a_no_op() {
    let mut m = ModelManager::new();
    m.cleanup_expired_models(10, 100);
    assert_eq!(m.get_or_load_model("none", 100).unwrap_err(), CacheError::NotFound);
}

#[test]
fn cleanup_oldest_removes_least_recently_used() {
    let mut m = ModelManager::new();
    m.register_model("old".to_string(), image_config("o.onnx", 224, 224));
    m.register_model("new".to_string(), image_config("n.onnx", 224, 224));
    m.install_model("old", handle(7, ModelType::Image), 1);
    m.install_model("new", handle(8, ModelType::Image), 9);
    m.cleanup_oldest_model();
    assert!(matches!(
        m.get_or_load_model("old", 10).unwrap(),
        GetOutcome::MustLoad(_)
    ));
    match m.get_or_load_model("new", 10).unwrap() {
        GetOutcome::Loaded(h) => assert_eq!(h.id, 8),
        other => panic!("newer entry should have survived, got {:?}", other),
    }
}

#[test]
fn cleanup_oldest_on_empty_cache_is_a_no_op() {
    let mut m = ModelManager::new();
    m.cleanup_oldest_model();
    assert_eq!(m.get_or_load_model("none2", 0).unwrap_err(), CacheError::NotFound);
}

#[test]
fn resident_handles_track_installs_and_evictions() {
    let mut m = ModelManager::new();
    m.register_model("one".to_string(), image_config("1.onnx", 224, 224));
    m.register_model("two".to_string(), image_config("2.onnx", 224, 224));
    m.install_model("one", handle(11, ModelType::Image), 0);
    m.install_model("two", handle(12, ModelType::Image), 9);
    let mut ids: Vec<u64> = m.resident_handles().iter().map(|h| h.id).collect();
    ids.sort();
    assert_eq!(ids, vec![11, 12]);
    // at time 10 with ttl 10, the entry last used at 0 is swept out
    m.cleanup_expired_models(10, 10);
    let ids: Vec<u64> = m.resident_handles().iter().map(|h| h.id).collect();
    assert_eq!(ids, vec![12]);
}

#[test]
fn clock_going_backwards_counts_as_no_idle_time() {
    let mut m = ModelManager::new();
    m.register_model("skew".to_string(), image_config("k.onnx", 224, 224));
    m.install_model("skew", handle(9, ModelType::Image), 100);
    // the sweep time lies before the last use: idle time saturates at zero
    m.cleanup_expired_models(10, 50);
    assert!(matches!(
        m.get_or_load_model("skew", 100).unwrap(),
        GetOutcome::Loaded(_)
    ));
}
