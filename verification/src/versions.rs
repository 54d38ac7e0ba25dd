use vstd::prelude::*;
use crate::descriptor::texts_view;
use crate::error::ProvisionError;

verus! {

/// `serde_json::Error`, carried through as it is.
#[verifier::external_type_specification]
#[verifier::external_body]
pub struct ExJsonError(serde_json::Error);

/// The list of strings that a JSON text holds, where it is such a list.
pub uninterp spec fn json_string_list(text: Seq<char>) -> Option<Seq<Seq<char>>>;

/// `serde_json::from_str` for a list of strings: the list that the text
/// holds, or an error where the text is not a JSON array of strings.
#[verifier::external_body]
pub(crate) fn parse_string_list(text: &str) -> (r: Result<Vec<String>, serde_json::Error>)
    ensures
        match r {
            Ok(list) => json_string_list(text@) == Some(texts_view(list@)),
            Err(_) => json_string_list(text@) is None,
        },
{
    serde_json::from_str::<Vec<String>>(text)
}

/// What a version check answers, given the list that the known-versions
/// document holds: nothing to object where the version is in the list,
/// `InvalidVersion` where it is not, `Internal` where there is no list.
pub open spec fn version_verdict(known: Option<Seq<Seq<char>>>, version: Seq<char>) -> Result<
    (),
    ProvisionError,
> {
    match known {
        Some(list) => if list.contains(version) {
            Ok(())
        } else {
            Err(ProvisionError::InvalidVersion)
        },
        None => Err(ProvisionError::Internal),
    }
}

/// Whether `version` is one of `known`.
pub fn version_known(known: &Vec<String>, version: &String) -> (r: bool)
    ensures
        r == texts_view(known@).contains(version@),
{
    let mut i: usize = 0;
    while i < known.len()
        invariant
            i <= known.len(),
            forall|j: int| 0 <= j < i ==> texts_view(known@)[j] != version@,
        decreases known.len() - i,
    {
        if known[i] == *version {
            assert(texts_view(known@)[i as int] == version@);
            return true;
        }
        i += 1;
    }
    false
}

/// The verdict on `version`, given what parsing the known-versions document
/// gave.
pub fn judge_version(parsed: Result<Vec<String>, serde_json::Error>, version: &String) -> (r:
    Result<(), ProvisionError>)
    ensures
        r == version_verdict(
            match parsed {
                Ok(list) => Some(texts_view(list@)),
                Err(_) => None,
            },
            version@,
        ),
{
    match parsed {
        Ok(list) => {
            if version_known(&list, version) {
                Ok(())
            } else {
                Err(ProvisionError::InvalidVersion)
            }
        },
        Err(_) => Err(ProvisionError::Internal),
    }
}

/// Checks a requested version against the known-versions document, a JSON
/// array of strings.
pub fn validate_version(document: &str, version: &String) -> (r: Result<(), ProvisionError>)
    ensures
        r == version_verdict(json_string_list(document@), version@),
{
    judge_version(parse_string_list(document), version)
}

} // verus!
