use canister_factory::error::{CallError, Error, RejectionCode};
use canister_factory::principal::Principal;

#[test]
fn rejection_codes_by_number() {
    assert_eq!(RejectionCode::from_i32(0), RejectionCode::NoError);
    assert_eq!(RejectionCode::from_i32(1), RejectionCode::SysFatal);
    assert_eq!(RejectionCode::from_i32(2), RejectionCode::SysTransient);
    assert_eq!(RejectionCode::from_i32(3), RejectionCode::DestinationInvalid);
    assert_eq!(RejectionCode::from_i32(4), RejectionCode::CanisterReject);
    assert_eq!(RejectionCode::from_i32(5), RejectionCode::CanisterError);
    assert_eq!(RejectionCode::from_i32(6), RejectionCode::Unknown);
    assert_eq!(RejectionCode::from_i32(-1), RejectionCode::Unknown);
    assert_eq!(RejectionCode::from_i32(i32::MAX), RejectionCode::Unknown);
}

#[test]
fn message_of_a_call_that_was_not_sent() {
    assert_eq!(CallError::CouldNotSend.message(), "Could not send message");
}

#[test]
fn message_of_a_rejection_names_code_and_reason() {
    let e = CallError::Rejected(RejectionCode::CanisterReject, String::from("no"));
    assert_eq!(e.message(), "Call rejected (code=CanisterReject): 'no'");
}

#[test]
fn message_of_every_rejection_code() {
    let codes = [
        (RejectionCode::NoError, "NoError"),
        (RejectionCode::SysFatal, "SysFatal"),
        (RejectionCode::SysTransient, "SysTransient"),
        (RejectionCode::DestinationInvalid, "DestinationInvalid"),
        (RejectionCode::CanisterReject, "CanisterReject"),
        (RejectionCode::CanisterError, "CanisterError"),
        (RejectionCode::Unknown, "Unknown"),
    ];
    for (code, name) in codes {
        let e = CallError::Rejected(code, String::from("it's off"));
        assert_eq!(e.message(), format!("Call rejected (code={}): 'it's off'", name));
    }
}

#[test]
fn message_of_a_rejection_with_an_empty_reason() {
    let e = CallError::Rejected(RejectionCode::SysFatal, String::new());
    assert_eq!(e.message(), "Call rejected (code=SysFatal): ''");
}

#[test]
fn message_of_a_response_that_does_not_decode() {
    let e = CallError::ResponseDeserializationError(vec![1, 2, 3]);
    assert_eq!(e.message(), "Could not deserialize the response.");
    let e = CallError::ResponseDeserializationError(Vec::new());
    assert_eq!(e.message(), "Could not deserialize the response.");
}

#[test]
fn message_is_what_ic_kit_displays() {
    for n in -1..8 {
        let ours = CallError::Rejected(RejectionCode::from_i32(n), String::from("why")).message();
        let theirs = ic_kit::ic::CallError::Rejected(n.into(), String::from("why")).to_string();
        assert_eq!(ours, theirs);
    }
    assert_eq!(
        CallError::CouldNotSend.message(),
        ic_kit::ic::CallError::CouldNotSend.to_string()
    );
    assert_eq!(
        CallError::ResponseDeserializationError(vec![0]).message(),
        ic_kit::ic::CallError::ResponseDeserializationError(vec![0]).to_string()
    );
}

#[test]
fn message_of_a_caller_that_is_not_authorized() {
    let anonymous = Principal::from_slice(&[4]).unwrap();
    assert_eq!(Error::NotAuthorized(anonymous).message(), "User not found 2vxsx-fae");
    let management = Principal::management_canister();
    assert_eq!(Error::NotAuthorized(management).message(), "User not found aaaaa-aa");
}

#[test]
fn message_of_a_failed_reservation() {
    let e = Error::ReservationFailed(CallError::CouldNotSend);
    assert_eq!(e.message(), "Failed to reserve canister id: Could not send message");
}

#[test]
fn message_of_a_failed_installation() {
    let e = Error::InstallFailed(CallError::Rejected(
        RejectionCode::CanisterError,
        String::from("trapped"),
    ));
    assert_eq!(
        e.message(),
        "Failed to install code: Call rejected (code=CanisterError): 'trapped'"
    );
}

#[test]
fn message_of_a_failed_authorization() {
    let e = Error::PostInstallAuthorizationFailed(CallError::ResponseDeserializationError(vec![]));
    assert_eq!(
        e.message(),
        "Failed to authorize caller for upload: Could not deserialize the response."
    );
}
