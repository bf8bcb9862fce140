//! Tests of the response envelope, the wire codes, the request
//! parameters, and the client-side outcome decision.

use picup::GetImgParam;
use picup::ResponseCode;
use picup::RestResponse;
use picup::UploadImgParam;
use picup::picup_outcome;
use picup::response_no;
use picup::response_ok;
use picup::response_ok_no_data;

#[test]
fn wire_codes_round_trip() {
    let codes = [
        (ResponseCode::Success, 0u16),
        (ResponseCode::NotImplemented, 998),
        (ResponseCode::InternalError, 999),
        (ResponseCode::InvalidToken, 1001),
        (ResponseCode::BadFileName, 1002),
        (ResponseCode::NotAnImage, 1003),
        (ResponseCode::FileExisted, 1004),
        (ResponseCode::BadFile, 1005),
        (ResponseCode::InvalidCategory, 1006),
    ];
    for (code, wire) in codes {
        assert_eq!(code.to_u16(), wire);
        assert_eq!(ResponseCode::from_u16(wire), Some(code));
    }
    assert_eq!(ResponseCode::from_u16(7), None);
    assert_eq!(ResponseCode::from_u16(1000), None);
}

#[test]
fn envelope_accessors() {
    let with_data = RestResponse::new(ResponseCode::Success, "ok", vec![1u8, 2]);
    assert_eq!(with_data.code(), ResponseCode::Success);
    assert_eq!(with_data.msg(), "ok");
    assert_eq!(with_data.data(), Some(&vec![1u8, 2]));

    let no_data: RestResponse<u8> = RestResponse::new_no_data(ResponseCode::BadFile, "bad file: x");
    assert_eq!(no_data.code(), ResponseCode::BadFile);
    assert_eq!(no_data.msg(), "bad file: x");
    assert_eq!(no_data.data(), None);
}

#[test]
fn envelope_builders() {
    let (status, body) = response_ok(vec!["u".to_string()]);
    assert_eq!(status, 200);
    assert_eq!(body.code(), ResponseCode::Success);
    assert_eq!(body.msg(), "ok");
    assert_eq!(body.data(), Some(&vec!["u".to_string()]));

    let (status, body): (u16, RestResponse<()>) = response_ok_no_data();
    assert_eq!(status, 200);
    assert_eq!(body.code(), ResponseCode::Success);
    assert!(body.data().is_none());

    let (status, body): (u16, RestResponse<()>) = response_no(ResponseCode::InvalidToken, "invalid token");
    assert_eq!(status, 400);
    assert_eq!(body.code(), ResponseCode::InvalidToken);
    assert_eq!(body.msg(), "invalid token");
    assert!(body.data().is_none());
}

#[test]
fn upload_param_accessors() {
    let param = UploadImgParam::new("baka", 2, "pic", true);
    assert_eq!(param.access_token(), "baka");
    assert_eq!(param.compress(), 2);
    assert_eq!(param.category(), "pic");
    assert!(param.override_flag());

    let get = GetImgParam::new(0);
    assert_eq!(get.compress(), 0);
}

#[test]
fn client_outcome_on_success() {
    let res = RestResponse::new(
        ResponseCode::Success,
        "ok",
        vec!["https://skopzz.com/picup/asset/pic/demo.gif".to_string()],
    );
    assert_eq!(
        picup_outcome(res),
        Ok(vec!["https://skopzz.com/picup/asset/pic/demo.gif".to_string()])
    );
}

#[test]
fn client_outcome_on_failure() {
    let res: RestResponse<Vec<String>> =
        RestResponse::new_no_data(ResponseCode::InvalidToken, "invalid token");
    assert_eq!(picup_outcome(res), Err("invalid token".to_string()));
}
