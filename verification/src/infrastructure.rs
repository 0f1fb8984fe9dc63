use vstd::prelude::*;

pub mod media;
pub mod service;
pub mod utils;

verus! {

/// The outcome reported to the client for one uploaded image.
#[derive(Debug, Clone)]
pub struct SaveInfo {
    pub ok: bool,
    pub success_info: Option<SuccessInfo>,
    pub fail_info: Option<FailInfo>,
}

/// Where the original image and its thumbnail were stored.
#[derive(Debug, Clone, PartialEq)]
pub struct SuccessInfo {
    pub original_path: String,
    pub resize_path: String,
}

/// Why an image could not be stored.
#[derive(Debug, Clone, PartialEq)]
pub struct FailInfo {
    pub reason: String,
}

/// An error that can explain itself to the client in one sentence.
pub trait Reason {
    /// The sentence, as a sequence of characters.
    spec fn spec_reason(&self) -> Seq<char>;

    /// Builds the sentence.
    fn reason(&self) -> (r: String)
        ensures
            r@ == self.spec_reason(),
    ;
}

/// Joins three pieces of text; messages and paths are built this way.
pub fn concat3(a: &str, b: &str, c: &str) -> (r: String)
    ensures
        r@ == a@ + b@ + c@,
{
    let mut r = String::from_str(a);
    r.append(b);
    r.append(c);
    r
}

impl SaveInfo {
    /// A successful save that produced exactly these two files.
    pub open spec fn is_success(self, original: Seq<char>, resized: Seq<char>) -> bool {
        &&& self.ok
        &&& self.success_info matches Some(s) && s.original_path@ == original && s.resize_path@
            == resized
        &&& self.fail_info is None
    }

    /// A failed save explained by exactly this reason.
    pub open spec fn is_failure(self, reason: Seq<char>) -> bool {
        &&& !self.ok
        &&& self.success_info is None
        &&& self.fail_info matches Some(f) && f.reason@ == reason
    }

    /// `ok` agrees with which of the two infos is present.
    pub open spec fn consistent(self) -> bool {
        &&& self.ok <==> self.success_info is Some
        &&& self.ok <==> self.fail_info is None
    }

    /// Reports a successful save of the original image and of its thumbnail.
    pub fn from_files(file_original: String, file_resized: String) -> (r: Self)
        ensures
            r.is_success(file_original@, file_resized@),
            r.consistent(),
    {
        SaveInfo {
            ok: true,
            success_info: Some(
                SuccessInfo { original_path: file_original, resize_path: file_resized },
            ),
            fail_info: None,
        }
    }

    /// Reports a failed save, with the error's own explanation as the reason.
    pub fn from_error<E: Reason>(error: E) -> (r: Self)
        ensures
            r.is_failure(error.spec_reason()),
            r.consistent(),
    {
        SaveInfo {
            ok: false,
            success_info: None,
            fail_info: Some(FailInfo { reason: error.reason() }),
        }
    }
}

} // verus!
