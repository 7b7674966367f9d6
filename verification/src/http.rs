use vstd::prelude::*;

use crate::apis::{HttpApiCode, HttpApiResponse, PlayerCommand};

verus! {

/// The HTTP status that answers a response with `code`.
pub open spec fn status_for(code: HttpApiCode) -> u16 {
    match code {
        HttpApiCode::Success => 200,
        HttpApiCode::FailedToSendPlayerCommand => 500,
        HttpApiCode::InvalidRequestParameter => 400,
    }
}

impl HttpApiCode {
    /// The HTTP status of a response with this code: OK on success, Internal
    /// Server Error when the command could not be sent, Bad Request on an invalid
    /// parameter.
    pub fn status_code(&self) -> (r: u16)
        ensures
            r == status_for(*self),
    {
        match self {
            HttpApiCode::Success => 200,
            HttpApiCode::FailedToSendPlayerCommand => 500,
            HttpApiCode::InvalidRequestParameter => 400,
        }
    }
}

impl HttpApiResponse {
    /// A response with `code` and `message` and no data.
    pub fn new(code: HttpApiCode, message: String) -> (r: Self)
        ensures
            r.code == code,
            r.message == message,
            r.data is None,
    {
        HttpApiResponse { code, message, data: None }
    }

    /// A successful response that carries `data`.
    pub fn new_with_data(data: serde_json::Value) -> (r: Self)
        ensures
            r.code == HttpApiCode::Success,
            r.message@ == "success"@,
            r.data == Some(data),
    {
        HttpApiResponse { code: HttpApiCode::Success, message: "success".to_owned(), data: Some(data) }
    }

    /// A successful response without data.
    pub fn new_success() -> (r: Self)
        ensures
            r.code == HttpApiCode::Success,
            r.message@ == "success"@,
            r.data is None,
    {
        HttpApiResponse { code: HttpApiCode::Success, message: "success".to_owned(), data: None }
    }

    /// The response to a command that could not be sent to the player; `detail`
    /// describes the failure.
    pub fn from_send_error(detail: &str) -> (r: Self)
        ensures
            r.code == HttpApiCode::FailedToSendPlayerCommand,
            r.message@ == "failed to send player command: "@ + detail@,
            r.data is None,
    {
        let mut message = "failed to send player command: ".to_owned();
        message.append(detail);
        Self::new(HttpApiCode::FailedToSendPlayerCommand, message)
    }

    /// The HTTP status of this response.
    pub fn status_code(&self) -> (r: u16)
        ensures
            r == status_for(self.code),
    {
        self.code.status_code()
    }
}

/// The response to sending a command to the player: success when it was sent,
/// and otherwise the failure with the description of the error.
pub fn send_result_response(result: Result<(), String>) -> (r: HttpApiResponse)
    ensures
        r.data is None,
        result is Ok ==> r.code == HttpApiCode::Success && r.message@ == "success"@,
        result matches Err(detail) ==> r.code == HttpApiCode::FailedToSendPlayerCommand
            && r.message@ == "failed to send player command: "@ + detail@,
{
    match result {
        Ok(()) => HttpApiResponse::new_success(),
        Err(detail) => HttpApiResponse::from_send_error(detail.as_str()),
    }
}

/// The command for a volume request: an absolute value wins over a delta, and a
/// request with neither is refused as an invalid parameter.
pub fn volume_command<Vol>(value: Option<Vol>, delta: Option<Vol>) -> (r: Result<
    PlayerCommand<Vol>,
    HttpApiResponse,
>)
    ensures
        value matches Some(v) ==> r == Ok::<PlayerCommand<Vol>, HttpApiResponse>(
            PlayerCommand::ChangeVolumeTo(v),
        ),
        value is None ==> (delta matches Some(d) ==> r == Ok::<PlayerCommand<Vol>, HttpApiResponse>(
            PlayerCommand::ChangeVolume(d),
        )),
        value is None && delta is None ==> (r matches Err(e) && e.code
            == HttpApiCode::InvalidRequestParameter && e.message@ == "missing delta or value field"@
            && e.data is None),
{
    if let Some(value) = value {
        Ok(PlayerCommand::ChangeVolumeTo(value))
    } else if let Some(delta) = delta {
        Ok(PlayerCommand::ChangeVolume(delta))
    } else {
        Err(HttpApiResponse::new(HttpApiCode::InvalidRequestParameter, "missing delta or value field".to_owned()))
    }
}

} // verus!
