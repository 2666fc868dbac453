//! Declarations of the outside types that the library's values carry.
use vstd::prelude::*;

use reqwest::Error as ReqwestError;
use serde_json::Error as SerdeJsonError;

verus! {

#[verifier::external_type_specification]
#[verifier::external_body]
pub struct ExReqwestError(ReqwestError);

#[verifier::external_type_specification]
#[verifier::external_body]
pub struct ExSerdeJsonError(SerdeJsonError);

#[verifier::external_type_specification]
#[verifier::external_body]
pub struct ExIoError(std::io::Error);

#[verifier::external_type_specification]
#[verifier::external_body]
pub struct ExImageError(image::ImageError);

#[verifier::external_type_specification]
#[verifier::external_body]
pub struct ExRegex(regex::Regex);

#[verifier::external_type_specification]
#[verifier::external_body]
pub struct ExDynamicImage(image::DynamicImage);

#[verifier::external_type_specification]
#[verifier::external_body]
pub struct ExDecodeError(base64::DecodeError);

} // verus!
