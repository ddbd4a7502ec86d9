use axon::latency::{
    ConstantLatencyModel, Delay, NormalLatencyModel, PathDelays, PathType, QueueLatencyModel,
    UniformLatencyModel,
};

fn ms(v: u64) -> Delay {
    Delay::from_millis(v)
}

// ─── constant ───────────────────────────────────────────

#[test]
fn test_uniform_constant_delay() {
    let model = ConstantLatencyModel::uniform(ms(5));
    for path in PathType::all() {
        assert_eq!(model.sample_delay(path), ms(5));
    }
}

#[test]
fn test_with_paths_uses_individual_delays() {
    let model = ConstantLatencyModel::with_paths(ms(2), ms(10), ms(8));
    assert_eq!(model.sample_delay(PathType::MarketData), ms(2));
    assert_eq!(model.sample_delay(PathType::OrderSubmit), ms(10));
    assert_eq!(model.sample_delay(PathType::OrderCancel), ms(8));
    assert_eq!(model.sample_delay(PathType::AccountQuery), ms(10));
    assert_eq!(model.sample_delay(PathType::Heartbeat), ms(50));
}

#[test]
fn test_unconfigured_path_returns_zero() {
    let mut model = ConstantLatencyModel::uniform(ms(1));
    model.delays.remove(PathType::Heartbeat);
    assert_eq!(model.sample_delay(PathType::Heartbeat), Delay::zero());
}

#[test]
fn test_set_path_overrides() {
    let mut model = ConstantLatencyModel::uniform(ms(1));
    model.set_path(PathType::OrderSubmit, ms(20));
    assert_eq!(model.sample_delay(PathType::OrderSubmit), ms(20));
}

#[test]
fn constant_model_name_and_lookup() {
    let model = ConstantLatencyModel::uniform(ms(5));
    assert_eq!(model.name(), "constant");
    assert_eq!(model.get(PathType::MarketData), Some(ms(5)));
    assert_eq!(model.delays.len(), PathType::all().len());
}

#[test]
fn path_delays_read_back_what_was_written() {
    let mut d = PathDelays::new();
    assert!(d.is_empty());
    assert_eq!(d.insert(PathType::OrderCancel, ms(3)), None);
    assert_eq!(d.insert(PathType::OrderCancel, ms(4)), Some(ms(3)));
    assert_eq!(d.get(PathType::OrderCancel), Some(ms(4)));
    assert_eq!(d.get(PathType::MarketData), None);
    assert_eq!(d.len(), 1);
    assert_eq!(d.remove(PathType::OrderCancel), Some(ms(4)));
    assert!(d.is_empty());
    assert_eq!(PathType::AccountQuery.as_str(), "account_query");
}

// ─── queue ──────────────────────────────────────────────

#[test]
fn test_queue_base_delay_under_light_load() {
    let model = QueueLatencyModel::new(ms(10), ms(1));
    assert_eq!(model.sample_delay(PathType::OrderSubmit), ms(10));
    assert_eq!(model.sample_delay(PathType::OrderCancel), ms(5));
    assert_eq!(model.sample_delay(PathType::MarketData), Delay::from_micros(2_500));
}

#[test]
fn test_queue_delay_increases_with_length() {
    let mut model = QueueLatencyModel::new(ms(10), ms(1));
    let d0 = model.sample_delay(PathType::OrderSubmit);
    model.enqueue();
    let d1 = model.sample_delay(PathType::OrderSubmit);
    model.enqueue();
    let d2 = model.sample_delay(PathType::OrderSubmit);
    assert!(d0 < d1, "d0={d0:?} d1={d1:?}");
    assert!(d1 < d2, "d1={d1:?} d2={d2:?}");
}

#[test]
fn test_queue_enqueue_dequeue() {
    let mut model = QueueLatencyModel::new(ms(0), ms(1));
    assert_eq!(model.queue_length(), 0);
    model.enqueue();
    model.enqueue();
    assert_eq!(model.queue_length(), 2);
    model.dequeue();
    assert_eq!(model.queue_length(), 1);
    model.dequeue();
    model.dequeue();
    assert_eq!(model.queue_length(), 0);
}

#[test]
fn test_queue_max_length_cap() {
    let mut model = QueueLatencyModel::new(ms(0), ms(1)).with_max_queue_length(3);
    for _ in 0..10 {
        model.enqueue();
    }
    assert_eq!(model.queue_length(), 3);
}

#[test]
fn test_queue_set_length() {
    let mut model = QueueLatencyModel::new(ms(0), ms(1));
    model.set_queue_length(100);
    assert_eq!(model.queue_length(), 100);
}

#[test]
fn test_queue_set_length_respects_max() {
    let mut model = QueueLatencyModel::new(ms(0), ms(1)).with_max_queue_length(50);
    model.set_queue_length(999);
    assert_eq!(model.queue_length(), 50);
}

#[test]
fn test_zero_base_zero_processing() {
    let mut model = QueueLatencyModel::new(Delay::zero(), Delay::zero());
    assert_eq!(model.sample_delay(PathType::OrderSubmit), Delay::zero());
    model.enqueue();
    model.enqueue();
    model.enqueue();
    assert_eq!(model.sample_delay(PathType::OrderSubmit), Delay::zero());
}

#[test]
fn test_extreme_queue_length() {
    let mut model = QueueLatencyModel::new(ms(1), ms(1)).with_max_queue_length(usize::MAX);
    for _ in 0..10_000_000 {
        model.enqueue();
    }
    let _ = model.queue_length();
}

#[test]
fn test_set_queue_length_too_large() {
    let mut model = QueueLatencyModel::new(ms(1), ms(1)).with_max_queue_length(100);
    model.set_queue_length(usize::MAX);
    assert_eq!(model.queue_length(), 100);
}

#[test]
fn test_dequeue_below_zero_safe() {
    let mut model = QueueLatencyModel::new(ms(1), ms(1));
    for _ in 0..1000 {
        model.dequeue();
    }
    assert_eq!(model.queue_length(), 0);
}

#[test]
fn test_path_factor_default_paths() {
    let model = QueueLatencyModel::new(ms(40), ms(1));
    assert_eq!(model.sample_delay(PathType::MarketData), ms(10));
    assert_eq!(model.sample_delay(PathType::AccountQuery), ms(10));
    assert_eq!(model.sample_delay(PathType::Heartbeat), ms(10));
}

#[test]
fn test_epsilon_processing_time() {
    let mut model = QueueLatencyModel::new(ms(0), Delay::from_nanos(1));
    model.set_queue_length(10);
    assert_eq!(model.sample_delay(PathType::OrderSubmit), Delay::from_nanos(10));
}

#[test]
fn test_clone_preserves_state() {
    let mut original = QueueLatencyModel::new(ms(10), ms(1));
    original.set_queue_length(7);
    let mut cloned = original.clone();
    cloned.dequeue();
    assert_eq!(original.queue_length(), 7);
    assert_eq!(cloned.queue_length(), 6);
}

#[test]
fn queue_delay_with_load_and_overflow() {
    let mut model = QueueLatencyModel::new(ms(10), ms(1));
    model.set_queue_length(5);
    assert_eq!(model.sample_delay(PathType::OrderSubmit), ms(15));
    assert_eq!(model.name(), "queue");
    let mut huge = QueueLatencyModel::new(ms(1), Delay::from_secs(u64::MAX))
        .with_max_queue_length(usize::MAX);
    huge.set_queue_length(2);
    assert_eq!(huge.checked_sample_delay(PathType::OrderSubmit), None);
    assert!(huge.checked_sample_delay(PathType::MarketData).is_none());
}

// ─── uniform and normal ─────────────────────────────────

#[test]
fn test_uniform_within_bounds() {
    let (min, max) = (ms(1), ms(10));
    let model = UniformLatencyModel::uniform(min, max);
    for _ in 0..5000 {
        let d = model.sample_delay(PathType::OrderSubmit);
        assert!(d >= min, "sample {d:?} < min {min:?}");
        assert!(d <= max, "sample {d:?} > max {max:?}");
    }
}

#[test]
fn test_uniform_mean_approximate_center() {
    let model = UniformLatencyModel::uniform(ms(2), ms(8));
    let n = 20_000;
    let sum: f64 = (0..n)
        .map(|_| model.sample_delay(PathType::MarketData).as_nanos() as f64 / 1e6)
        .sum();
    let mean = sum / n as f64;
    assert!((mean - 5.0).abs() < 0.3, "expected mean ≈ 5ms, got {mean}");
}

#[test]
fn test_uniform_max_less_than_min_falls_back_to_min() {
    let model = UniformLatencyModel::uniform(ms(5), ms(1));
    for _ in 0..100 {
        assert_eq!(model.sample_delay(PathType::MarketData), ms(5));
    }
}

#[test]
fn uniform_and_normal_defaults_for_unconfigured_paths() {
    let mut model = UniformLatencyModel::uniform(ms(2), ms(8));
    model.mins.remove(PathType::Heartbeat);
    model.maxs.remove(PathType::Heartbeat);
    assert_eq!(model.bounds(PathType::Heartbeat), (Delay::zero(), ms(10)));
    assert_eq!(model.name(), "uniform");
    let mut normal = NormalLatencyModel::uniform(ms(10), ms(2));
    assert_eq!(normal.parameters(PathType::OrderCancel), (ms(10), ms(2)));
    normal.means.remove(PathType::OrderCancel);
    assert_eq!(normal.parameters(PathType::OrderCancel), (ms(1), ms(2)));
}

fn assert_send_sync<T: Send + Sync>() {}

#[test]
fn test_queue_is_send_sync() {
    assert_send_sync::<QueueLatencyModel>();
}

#[test]
fn test_queue_is_send_sync_static() {
    assert_send_sync::<QueueLatencyModel>();
}

#[test]
fn delay_new_carries_whole_seconds() {
    assert_eq!(Delay::new(1, 1_500_000_000).as_nanos(), 2_500_000_000);
    assert_eq!(Delay::new(0, 999_999_999).as_nanos(), 999_999_999);
}
