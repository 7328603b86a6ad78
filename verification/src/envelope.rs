//! The uniform result of every command: whether it succeeded, a message
//! for the user, and the data that a successful command hands back.

use vstd::prelude::*;

use crate::detection::CaptureResponse;
use crate::error::FaceError;
use crate::transport::{base64_encoding, data_url_prefix, image_data_url};

verus! {

/// What a successful command hands back.
#[derive(Clone, Debug, PartialEq, Eq)]
pub enum Payload {
    /// Detection: the marked and the unmarked image.
    Capture(CaptureResponse),
    /// Verification: the similarity of the two faces, a 64-bit float by its
    /// bit pattern, and the live image in transport form.
    Verification { score_bits: u64, display_base64: String },
    /// Enrolment: the name of the file that now holds the descriptor.
    Enrollment { file_name: String },
    /// The name of the user who is signed in.
    Username { username: String },
}

/// The result envelope.
#[derive(Clone, Debug, PartialEq, Eq)]
pub struct CustomResult {
    pub success: bool,
    pub message: Option<String>,
    pub data: Option<Payload>,
}

impl CustomResult {
    /// The envelope of a command that succeeded.
    pub fn success(message: Option<String>, data: Option<Payload>) -> (r: CustomResult)
        ensures
            r.success,
            r.message == message,
            r.data == data,
    {
        CustomResult { success: true, message, data }
    }

    /// The envelope of a command that failed.
    pub fn error(message: Option<String>, data: Option<Payload>) -> (r: CustomResult)
        ensures
            !r.success,
            r.message == message,
            r.data == data,
    {
        CustomResult { success: false, message, data }
    }

    /// The envelope that reports `error`: a failure that carries the
    /// error's message and no data.
    pub fn from_error(error: FaceError) -> (r: CustomResult)
        ensures
            !r.success,
            r.message matches Some(text) && text@ == error.text(),
            r.data is None,
    {
        CustomResult::error(Some(error.message()), None)
    }

    /// The envelope for the way a command ended: success with its data, or
    /// the report of its error.
    pub fn from_outcome(outcome: Result<Option<Payload>, FaceError>) -> (r: CustomResult)
        ensures
            match outcome {
                Ok(data) => r.success && r.message is None && r.data == data,
                Err(error) => !r.success && r.data is None && (r.message matches Some(text)
                    && text@ == error.text()),
            },
    {
        match outcome {
            Ok(data) => CustomResult::success(None, data),
            Err(error) => CustomResult::from_error(error),
        }
    }
}

/// What verification hands back: the score and the live image, which the
/// caller has downscaled and encoded as JPEG.
pub fn verification_payload(score_bits: u64, display_jpeg: &Vec<u8>) -> (r: Payload)
    requires
        display_jpeg@.len() <= usize::MAX / 4,
    ensures
        r matches Payload::Verification { score_bits: score, display_base64: image } && score
            == score_bits && image@ == data_url_prefix() + base64_encoding(display_jpeg@),
{
    Payload::Verification { score_bits, display_base64: image_data_url(display_jpeg) }
}

} // verus!
