use std::cell::Cell;
use std::rc::Rc;

use axon::error::{try_with_fallback, Error, ErrorContext, Severity};
use axon::impact::ImpactModelError;
use axon::latency::{Delay, LatencyModelError, PathType};
use axon::queue::EventQueueError;
use axon::volatility::VolatilityError;

type Op = Box<dyn FnOnce() -> Result<i32, &'static str>>;

// ─── the crate error ────────────────────────────────────

#[test]
fn test_error_display_includes_context() {
    let err = Error::Other("invalid timestamp".to_string());
    assert_eq!(err.message(), "core error: invalid timestamp");
}

#[test]
fn test_from_impact_error() {
    let core_err: Error = ImpactModelError::EmptyOrderBook.into();
    assert!(matches!(core_err, Error::Impact(ImpactModelError::EmptyOrderBook)));
}

#[test]
fn test_from_volatility_error() {
    let e: Error = VolatilityError::ZeroWindow.into();
    assert!(matches!(e, Error::Volatility(VolatilityError::ZeroWindow)));
}

#[test]
fn test_from_queue_error() {
    let e: Error = EventQueueError::QueueEmpty.into();
    assert!(matches!(e, Error::Queue(EventQueueError::QueueEmpty)));
}

#[test]
fn test_context_chains_error() {
    let with_ctx = Error::Other("file not found".to_string()).context("加载配置");
    match &with_ctx {
        Error::WithContext { context, source } => {
            assert_eq!(context, "加载配置");
            assert!(matches!(**source, Error::Other(_)));
        }
        _ => panic!("expected WithContext"),
    }
}

#[test]
fn test_context_trait_method() {
    let r: Result<(), Error> = Err(Error::Other("inner".into()));
    let with_ctx = r.context("outer step");
    assert!(with_ctx.is_err());
    let msg = with_ctx.unwrap_err().message();
    assert!(msg.contains("outer step"));
    assert!(msg.contains("inner"));
}

#[test]
fn test_root_cause_strips_context() {
    let wrapped = Error::Other("origin".to_string()).context("step 1").context("step 2");
    let root = wrapped.root_cause();
    assert!(matches!(root, Error::Other(_)));
    assert_eq!(root.message(), "core error: origin");
}

#[test]
fn test_log_does_not_panic() {
    let err = Error::Other("test".to_string());
    assert_eq!(err.log_level(), Severity::Error);
}

#[test]
fn test_error_chain_in_complex_workflow() {
    let load_err: Result<(), Error> =
        Err(Error::Other("network timeout".to_string())).context("加载市场数据");
    assert!(load_err.is_err());
    let err = load_err.unwrap_err();
    let msg = err.message();
    assert!(msg.contains("加载市场数据"));
    assert!(msg.contains("network timeout"));
    let wrapped = err.context("回测引擎").context("策略评估");
    assert!(matches!(wrapped.root_cause(), Error::Other(_)));
}

#[test]
fn context_message_and_retry_rules() {
    let e = Error::from(LatencyModelError::QueueOverflow(12, 10)).context("step");
    assert_eq!(e.message(), "step: 队列长度超出上限：12 > 10");
    assert!(!e.is_retryable());
    let ok: Result<i32, Error> = Ok(3);
    assert_eq!(ok.context("unused").unwrap(), 3);
    assert_eq!(
        LatencyModelError::InvalidRange { min: Delay::from_millis(5), max: Delay::from_millis(1) }
            .message(),
        "最大延迟小于最小延迟：min=5000000ns, max=1000000ns"
    );
    assert_eq!(LatencyModelError::PathNotConfigured(PathType::Heartbeat).message(), "路径未配置：Heartbeat");
}

// ─── fallbacks ──────────────────────────────────────────

#[test]
fn test_try_with_fallback_first_succeeds() {
    let calls = Rc::new(Cell::new(0u32));
    let (c1, c2) = (calls.clone(), calls.clone());
    let ops: Vec<Op> = vec![
        Box::new(move || {
            c1.set(c1.get() + 1);
            Ok(1)
        }),
        Box::new(move || {
            c2.set(c2.get() + 1);
            Ok(2)
        }),
    ];
    let r = try_with_fallback(ops);
    assert_eq!(r.unwrap(), 1);
    assert_eq!(calls.get(), 1);
}

#[test]
fn test_try_with_fallback_second_succeeds() {
    let calls = Rc::new(Cell::new(0u32));
    let (c1, c2) = (calls.clone(), calls.clone());
    let ops: Vec<Op> = vec![
        Box::new(move || {
            c1.set(c1.get() + 1);
            Err("first failed")
        }),
        Box::new(move || {
            c2.set(c2.get() + 1);
            Ok(42)
        }),
    ];
    let r = try_with_fallback(ops);
    assert_eq!(r.unwrap(), 42);
    assert_eq!(calls.get(), 2);
}

#[test]
fn test_try_with_fallback_all_fail() {
    let ops: Vec<Op> = vec![Box::new(|| Err("a")), Box::new(|| Err("b")), Box::new(|| Err("c"))];
    let r = try_with_fallback(ops);
    assert_eq!(r, Err("c"));
}

// ─── impact model errors ────────────────────────────────

#[test]
fn test_empty_orderbook_display() {
    assert!(ImpactModelError::EmptyOrderBook.message().contains("订单簿为空"));
}

#[test]
fn test_invalid_parameter_display() {
    let err = ImpactModelError::InvalidParameter("coefficient < 0".into());
    assert!(err.message().contains("coefficient"));
}

#[test]
fn test_insufficient_depth_display() {
    let err = ImpactModelError::InsufficientDepth { required: 10, available: 5 };
    let msg = err.message();
    assert!(msg.contains("10"));
    assert!(msg.contains("5"));
    assert_eq!(msg, "深度不足：需要 10 层，实际 5 层");
}

#[test]
fn test_is_retryable_all_false() {
    let cases = vec![
        ImpactModelError::EmptyOrderBook,
        ImpactModelError::InvalidParameter("x".into()),
        ImpactModelError::InsufficientDepth { required: 1, available: 0 },
        ImpactModelError::ComputationOverflow,
    ];
    for e in cases {
        assert!(!e.is_retryable(), "{e:?} should not be retryable");
    }
}
