//! The answer of the alert endpoints when an alert was delivered.

use vstd::prelude::*;

verus! {

/// The success answer: `{"apiVersion": "v1", "success": true}`.
#[derive(Debug, Clone)]
pub struct Response {
    api_version: String,
    success: bool,
}

impl Response {
    /// The API version that the answer names.
    pub closed spec fn spec_api_version(&self) -> Seq<char> {
        self.api_version@
    }

    /// Whether the answer reports success.
    pub closed spec fn spec_success(&self) -> bool {
        self.success
    }

    /// This is the success answer of API version `v1`.
    pub open spec fn is_success_answer(&self) -> bool {
        self.spec_api_version() == "v1"@ && self.spec_success()
    }

    /// The success answer of API version `v1`.
    pub fn default() -> (r: Self)
        ensures
            r.is_success_answer(),
            r.spec_api_version() == "v1"@,
            r.spec_success(),
    {
        Self { api_version: String::from_str("v1"), success: true }
    }

    /// The API version that the answer names.
    pub fn api_version(&self) -> (v: &str)
        ensures
            v@ == self.spec_api_version(),
    {
        self.api_version.as_str()
    }

    /// Whether the answer reports success.
    pub fn success(&self) -> (s: bool)
        ensures
            s == self.spec_success(),
    {
        self.success
    }
}

} // verus!
