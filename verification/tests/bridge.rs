use zsession::bridge::BridgeVerdict;
use zsession::bridge::HandlerOutcome;
use zsession::bridge::resolve;

#[test]
fn completed_handler_proceeds_silently() {
    assert_eq!(resolve(HandlerOutcome::Completed), BridgeVerdict::Proceed);
}

#[test]
fn failed_handler_terminates_with_message() {
    let verdict = resolve(HandlerOutcome::Raised {
        message: "boom".to_string(),
        trace: None,
    });
    assert_eq!(
        verdict,
        BridgeVerdict::Terminate {
            diagnostic: "Exception thrown in callback: boom.".to_string(),
        }
    );
}

#[test]
fn failed_handler_terminates_with_message_and_trace() {
    let verdict = resolve(HandlerOutcome::Raised {
        message: "boom".to_string(),
        trace: Some("frame a\nframe b".to_string()),
    });
    assert_eq!(
        verdict,
        BridgeVerdict::Terminate {
            diagnostic: "Exception thrown in callback: boom.\nframe a\nframe b".to_string(),
        }
    );
}
