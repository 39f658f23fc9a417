use communicator::context::Context;
use communicator::error::ErrorCode;

#[test]
fn test_context_lifecycle() {
    let mut ctx = Context::new("test");
    assert!(!ctx.is_initialized());

    ctx.initialize().unwrap();
    assert!(ctx.is_initialized());

    ctx.set_config("key", "value");
    assert_eq!(ctx.get_config("key").unwrap(), "value");

    ctx.shutdown().unwrap();
    assert!(!ctx.is_initialized());
}

#[test]
fn test_double_initialize() {
    let mut ctx = Context::new("test");
    ctx.initialize().unwrap();
    assert!(ctx.initialize().is_err());
}

#[test]
fn shutdown_forgets_configuration_and_requires_initialization() {
    let mut ctx = Context::new("c");
    let err = ctx.shutdown().unwrap_err();
    assert_eq!(err.code, ErrorCode::InvalidState);
    assert_eq!(err.message, "Context not initialized");
    ctx.initialize().unwrap();
    ctx.set_config("a", "1");
    ctx.set_config("a", "2");
    assert_eq!(ctx.get_config("a").unwrap(), "2");
    ctx.shutdown().unwrap();
    assert!(ctx.get_config("a").is_none());
    let err = {
        ctx.initialize().unwrap();
        ctx.initialize().unwrap_err()
    };
    assert_eq!(err.message, "Context already initialized");
}
