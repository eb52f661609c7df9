//! Static application information: the project, donation, issue and
//! license addresses handed to the presentation layer.

use vstd::prelude::*;

verus! {

/// The application's public addresses.
pub struct Info {
    pub repo_url: String,
    pub donate_url: String,
    pub issue_url: String,
    pub license_url: String,
}

impl Info {
    pub fn repo_url(&self) -> (r: &str)
        ensures
            r@ == self.repo_url@,
    {
        self.repo_url.as_str()
    }

    pub fn donate_url(&self) -> (r: &str)
        ensures
            r@ == self.donate_url@,
    {
        self.donate_url.as_str()
    }

    pub fn issue_url(&self) -> (r: &str)
        ensures
            r@ == self.issue_url@,
    {
        self.issue_url.as_str()
    }

    pub fn license_url(&self) -> (r: &str)
        ensures
            r@ == self.license_url@,
    {
        self.license_url.as_str()
    }
}

impl Default for Info {
    /// The fixed addresses: the issue and license pages live under the
    /// repository address.
    fn default() -> (r: Self)
        ensures
            r.repo_url@ == "https://github.com/Dust-Mail/desktop"@,
            r.donate_url@ == "https://ko-fi.com/Guusvanmeerveld"@,
            r.issue_url@ == "https://github.com/Dust-Mail/desktop"@ + "/issues"@,
            r.license_url@ == "https://github.com/Dust-Mail/desktop"@ + "/blob/main/LICENSE"@,
    {
        Info {
            repo_url: String::from_str("https://github.com/Dust-Mail/desktop"),
            donate_url: String::from_str("https://ko-fi.com/Guusvanmeerveld"),
            issue_url: String::from_str("https://github.com/Dust-Mail/desktop").concat("/issues"),
            license_url: String::from_str("https://github.com/Dust-Mail/desktop").concat(
                "/blob/main/LICENSE",
            ),
        }
    }
}

} // verus!
