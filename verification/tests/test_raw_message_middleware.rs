//! Tests of raw message middleware.

use std::sync::atomic::{AtomicUsize, Ordering};
use std::sync::Arc;

use rmcp::model::ErrorData;
use rmcp::service::{
    PassthroughService, RawMessageContext, RawMessageResponse, RawMessageService, RoleClient,
    RxJsonRpcMessage,
};

// Test middleware: message size validator
struct MessageSizeValidator {
    max_size: usize,
}

impl RawMessageService<RoleClient> for MessageSizeValidator {
    fn handle_message(
        &self,
        message: RxJsonRpcMessage<RoleClient>,
        _context: RawMessageContext<RoleClient>,
    ) -> Result<RawMessageResponse<RoleClient>, ErrorData> {
        let size = format!("{:?}", message).len();
        if size > self.max_size {
            return Err(ErrorData::invalid_params(
                &format!("Message size {} exceeds maximum {}", size, self.max_size),
                None,
            ));
        }
        Ok(RawMessageResponse::Continue)
    }
}

// Test middleware: counting middleware
struct CountingMiddleware {
    count: Arc<AtomicUsize>,
}

impl CountingMiddleware {
    fn new() -> (Self, Arc<AtomicUsize>) {
        let count = Arc::new(AtomicUsize::new(0));
        (Self { count: count.clone() }, count)
    }
}

impl RawMessageService<RoleClient> for CountingMiddleware {
    fn handle_message(
        &self,
        _message: RxJsonRpcMessage<RoleClient>,
        _context: RawMessageContext<RoleClient>,
    ) -> Result<RawMessageResponse<RoleClient>, ErrorData> {
        self.count.fetch_add(1, Ordering::SeqCst);
        Ok(RawMessageResponse::Continue)
    }
}

// Test middleware: rejecting middleware
struct RejectingMiddleware;

impl RawMessageService<RoleClient> for RejectingMiddleware {
    fn handle_message(
        &self,
        _message: RxJsonRpcMessage<RoleClient>,
        _context: RawMessageContext<RoleClient>,
    ) -> Result<RawMessageResponse<RoleClient>, ErrorData> {
        Err(ErrorData::invalid_request("Rejected by middleware", None))
    }
}

#[test]
fn test_message_size_validator_structure() {
    let validator = MessageSizeValidator { max_size: 1000 };
    assert_eq!(validator.max_size, 1000);
}

#[test]
fn test_raw_message_middleware_test_counting_middleware_structure() {
    let (middleware, count) = CountingMiddleware::new();

    // Initially count should be 0
    assert_eq!(count.load(Ordering::SeqCst), 0);

    // Verify middleware exists
    drop(middleware);
}

#[test]
fn test_raw_message_middleware_test_rejecting_middleware_structure() {
    let _middleware = RejectingMiddleware;
    // Just verify it can be constructed
}

#[test]
fn test_passthrough_service() {
    let service: PassthroughService = PassthroughService;
    let result: Result<(), ErrorData> = service.poll_ready();
    assert!(matches!(result, Ok(())));
}

#[test]
fn middleware_is_present_only_when_listed() {
    let none: Vec<u8> = Vec::new();
    assert_eq!(rmcp::service::present_middleware(none.as_slice()), None);
    let some = vec![1u8, 2u8];
    assert_eq!(rmcp::service::present_middleware(some.as_slice()), Some(&[1u8, 2u8][..]));
}
