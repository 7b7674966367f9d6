use morphlings::apis::{HttpApiCode, HttpApiResponse, PlayerCommand};
use morphlings::http::{send_result_response, volume_command};

#[test]
fn status_codes() {
    assert_eq!(HttpApiCode::Success.status_code(), 200);
    assert_eq!(HttpApiCode::FailedToSendPlayerCommand.status_code(), 500);
    assert_eq!(HttpApiCode::InvalidRequestParameter.status_code(), 400);
}

#[test]
fn success_responses() {
    let r = HttpApiResponse::new_success();
    assert_eq!(r.code, HttpApiCode::Success);
    assert_eq!(r.message, "success");
    assert!(r.data.is_none());
    assert_eq!(r.status_code(), 200);

    let r = HttpApiResponse::new_with_data(serde_json::Value::Bool(true));
    assert_eq!(r.code, HttpApiCode::Success);
    assert_eq!(r.message, "success");
    assert_eq!(r.data, Some(serde_json::Value::Bool(true)));
}

#[test]
fn new_keeps_code_and_message() {
    let r = HttpApiResponse::new(HttpApiCode::InvalidRequestParameter, "bad".to_string());
    assert_eq!(r.code, HttpApiCode::InvalidRequestParameter);
    assert_eq!(r.message, "bad");
    assert!(r.data.is_none());
    assert_eq!(r.status_code(), 400);
}

#[test]
fn send_failure_response() {
    let r = send_result_response(Err("SendError { .. }".to_string()));
    assert_eq!(r.code, HttpApiCode::FailedToSendPlayerCommand);
    assert_eq!(r.message, "failed to send player command: SendError { .. }");
    assert!(r.data.is_none());
    assert_eq!(r.status_code(), 500);
}

#[test]
fn send_success_response() {
    let r = send_result_response(Ok(()));
    assert_eq!(r.code, HttpApiCode::Success);
    assert_eq!(r.message, "success");
}

#[test]
fn volume_value_wins_over_delta() {
    assert!(matches!(volume_command(Some(0.3f32), Some(0.1)), Ok(PlayerCommand::ChangeVolumeTo(v)) if v == 0.3));
    assert!(matches!(volume_command(Some(0.3f32), None), Ok(PlayerCommand::ChangeVolumeTo(v)) if v == 0.3));
}

#[test]
fn volume_delta_alone() {
    assert!(matches!(volume_command(None, Some(-0.1f32)), Ok(PlayerCommand::ChangeVolume(d)) if d == -0.1));
}

#[test]
fn volume_missing_fields() {
    match volume_command::<f32>(None, None) {
        Err(r) => {
            assert_eq!(r.code, HttpApiCode::InvalidRequestParameter);
            assert_eq!(r.message, "missing delta or value field");
            assert!(r.data.is_none());
            assert_eq!(r.status_code(), 400);
        }
        Ok(_) => panic!("expected an error"),
    }
}
