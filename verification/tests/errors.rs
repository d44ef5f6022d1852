use olg_server::error::{ApiError, OperationError, StepError};
use olg_server::gametype::InvalidGametype;
use olg_server::maps::CodMap;

#[test]
fn test_step_error_messages() {
    assert_eq!(
        StepError::CommandTooLarge.message(),
        "command too large for one datagram"
    );
    assert_eq!(
        StepError::Timeout.message(),
        "timeout waiting for a reply from the server"
    );
    assert_eq!(
        StepError::NetworkError.message(),
        "network error while talking to the server"
    );
    assert_eq!(
        StepError::ProtocolError.message(),
        "Invalid or empty response from server"
    );
}

#[test]
fn test_operation_error_message_step() {
    let error = OperationError::Step(StepError::Timeout);
    assert_eq!(error.message(), "timeout waiting for a reply from the server");
}

#[test]
fn test_operation_error_message_partial() {
    let error = OperationError::PartialFailure {
        completed: "ok".to_string(),
        failed: StepError::Timeout,
    };
    assert_eq!(
        error.message(),
        "partial failure: first command completed with response ok; \
         second command failed: timeout waiting for a reply from the server"
    );
}

#[test]
fn test_operation_error_equality() {
    assert_eq!(
        OperationError::Step(StepError::Timeout),
        OperationError::Step(StepError::Timeout)
    );
    assert_ne!(
        OperationError::Step(StepError::Timeout),
        OperationError::Step(StepError::NetworkError)
    );
    assert_ne!(
        OperationError::Step(StepError::Timeout),
        OperationError::PartialFailure {
            completed: "ok".to_string(),
            failed: StepError::Timeout,
        }
    );
    assert_eq!(
        OperationError::PartialFailure { completed: "a".to_string(), failed: StepError::Timeout },
        OperationError::PartialFailure { completed: "a".to_string(), failed: StepError::Timeout }
    );
    assert_ne!(
        OperationError::PartialFailure { completed: "a".to_string(), failed: StepError::Timeout },
        OperationError::PartialFailure { completed: "b".to_string(), failed: StepError::Timeout }
    );
}

#[test]
fn test_api_error_from_operation_error() {
    let api = ApiError::from_operation_error(&OperationError::Step(StepError::NetworkError));
    assert_eq!(
        api.message,
        "Internal server error: network error while talking to the server"
    );
}

#[test]
fn test_api_error_from_invalid_gametype() {
    let api = ApiError::from_invalid_gametype(&InvalidGametype("ctf".to_string()));
    assert_eq!(api.message, "Internal server error: Invalid gametype: ctf");
}

#[test]
fn test_codmap_new() {
    let map = CodMap::new("mp_crash", "Crash");
    assert_eq!(map.tag, "mp_crash");
    assert_eq!(map.name, "Crash");
}
