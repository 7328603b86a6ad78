//! Where enrolled faces are kept: one file per face, named by a random
//! identifier, holding the stored form of the descriptor.

use vstd::prelude::*;
use vstd::string::*;

use crate::descriptor::{
    decoding, descriptor_encoding, encode, DescriptorView, FaceDescriptor, FeatureMat,
    FEATURE_LEN,
};
use crate::error::FaceError;

verus! {

/// The directory, below the application's resources, that holds the files.
pub const FACES_DIRECTORY: &'static str = "faces";

/// A digit of lower-case hexadecimal.
pub open spec fn is_lower_hex(c: char) -> bool {
    ('0' as u32 <= c as u32 <= '9' as u32) || ('a' as u32 <= c as u32 <= 'f' as u32)
}

/// The hyphenated form of a 128-bit identifier: 32 lower-case hexadecimal
/// digits in groups of 8, 4, 4, 4 and 12.
pub open spec fn is_hyphenated_id(text: Seq<char>) -> bool {
    &&& text.len() == 36
    &&& forall|i: int|
        0 <= i < 36 ==> if i == 8 || i == 13 || i == 18 || i == 23 {
            text[i] == '-'
        } else {
            is_lower_hex(#[trigger] text[i])
        }
}

/// The hyphenated form of an identifier that was drawn at random: its
/// version digit is 4 and its variant digit one of 8, 9, a and b.
pub open spec fn is_random_id(text: Seq<char>) -> bool {
    &&& is_hyphenated_id(text)
    &&& text[14] == '4'
    &&& (text[19] == '8' || text[19] == '9' || text[19] == 'a' || text[19] == 'b')
}

/// The name of a face file: a hyphenated identifier and the extension
/// `.face`.
pub open spec fn is_face_file_name(name: Seq<char>) -> bool {
    &&& name.len() == 41
    &&& is_hyphenated_id(name.take(36))
    &&& name.skip(36) == ".face"@
}

/// `Uuid::new_v4` of the `uuid` crate, in the text form that its `Display`
/// gives. Every call draws another identifier, so nothing is said of which
/// one comes back, only of its form. It panics where the operating system
/// yields no random bytes.
#[verifier::external_body]
fn random_id() -> (r: String)
    ensures
        is_random_id(r@),
{
    uuid::Uuid::new_v4().to_string()
}

/// The file name for the face with the given identifier.
pub fn face_file_name(id: &str) -> (r: String)
    ensures
        r@ == id@ + ".face"@,
        is_hyphenated_id(id@) ==> is_face_file_name(r@),
{
    let name = String::from_str(id).concat(".face");
    proof {
        reveal_strlit(".face");
        if is_hyphenated_id(id@) {
            assert(name@.skip(36) =~= ".face"@);
        }
    }
    name
}

/// A file name for a face that is enrolled now, under an identifier drawn
/// at random.
pub fn new_face_file_name() -> (r: String)
    ensures
        is_face_file_name(r@),
        is_random_id(r@.take(36)),
{
    let id = random_id();
    let name = face_file_name(id.as_str());
    proof {
        reveal_strlit(".face");
    }
    name
}

/// Whether `name` has the form of a face file's name.
pub fn has_face_file_name(name: &str) -> (r: bool)
    ensures
        r == is_face_file_name(name@),
{
    proof {
        reveal_strlit(".face");
    }
    if name.unicode_len() != 41 {
        return false;
    }
    let mut i: usize = 0;
    while i < 36
        invariant
            i <= 36,
            name@.len() == 41,
            forall|k: int|
                0 <= k < i ==> if k == 8 || k == 13 || k == 18 || k == 23 {
                    name@[k] == '-'
                } else {
                    is_lower_hex(#[trigger] name@[k])
                },
        decreases 36 - i,
    {
        let c = name.get_char(i);
        let v: u32 = c as u32;
        let fits = if i == 8 || i == 13 || i == 18 || i == 23 {
            v == 45
        } else {
            (48 <= v && v <= 57) || (97 <= v && v <= 102)
        };
        if !fits {
            proof {
                if is_face_file_name(name@) {
                    assert(name@.take(36)[i as int] == name@[i as int]);
                }
            }
            return false;
        }
        i += 1;
    }
    proof {
        assert forall|k: int| 0 <= k < 36 implies if k == 8 || k == 13 || k == 18 || k == 23 {
            name@.take(36)[k] == '-'
        } else {
            is_lower_hex(#[trigger] name@.take(36)[k])
        } by {
            assert(name@.take(36)[k] == name@[k]);
        }
    }
    let ok = name.get_char(36) as u32 == 46 && name.get_char(37) as u32 == 102 && name.get_char(
        38,
    ) as u32 == 97 && name.get_char(39) as u32 == 99 && name.get_char(40) as u32 == 101;
    proof {
        let tail = name@.skip(36);
        assert(tail[0] == name@[36] && tail[1] == name@[37] && tail[2] == name@[38] && tail[3]
            == name@[39] && tail[4] == name@[40]);
        if ok {
            assert(tail =~= ".face"@);
        }
    }
    ok
}

/// What enrolment writes: the name of the new file and its contents.
#[derive(Debug, PartialEq, Eq)]
pub struct StoredFace {
    pub file_name: String,
    pub contents: Vec<u8>,
}

/// Prepares the file for a face that is enrolled under `name` with the
/// embedding that the recogniser has extracted: a new file name and the
/// stored form of the descriptor. An embedding that does not hold
/// [`FEATURE_LEN`] values is refused as corrupt, and nothing is to be
/// written.
pub fn store_face(name: &str, feature_mat: &FeatureMat) -> (r: Result<StoredFace, FaceError>)
    ensures
        match r {
            Ok(stored) => {
                &&& feature_mat.data@.len() == FEATURE_LEN
                &&& is_face_file_name(stored.file_name@)
                &&& stored.contents@ == descriptor_encoding(name@, feature_mat.data@)
                &&& decoding(stored.contents@) == Some(
                    DescriptorView { name: name@, feature: feature_mat.data@ },
                )
            },
            Err(e) => e == FaceError::CorruptDescriptor && feature_mat.data@.len() != FEATURE_LEN,
        },
{
    match FaceDescriptor::from_mat(name, feature_mat) {
        Ok(descriptor) => Ok(
            StoredFace { file_name: new_face_file_name(), contents: encode(&descriptor) },
        ),
        Err(e) => Err(e),
    }
}

} // verus!
