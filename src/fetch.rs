//! The remote side: where the listing and the templates are fetched from,
//! and what a response to each request means.

use vstd::prelude::*;
use crate::catalog::TEMPLATE_SUFFIX;
use crate::error::{GitignoreError, is_success_status, status_is_success};

verus! {

/// The directory-listing endpoint of the template repository.
pub const LISTING_URL: &'static str = "https://api.github.com/repos/github/gitignore/contents";

/// The base of the raw-content endpoint of the template repository.
pub const RAW_BASE_URL: &'static str = "https://raw.githubusercontent.com/github/gitignore/main";

/// The name of the `User-Agent` header every request carries.
pub const USER_AGENT_HEADER: &'static str = "User-Agent";

/// The client identification sent in the `User-Agent` header.
pub const USER_AGENT: &'static str = "gitignore-cli";

/// The raw-content address of a template: base, `/`, identifier, suffix.
pub open spec fn template_url_of(id: Seq<char>) -> Seq<char> {
    RAW_BASE_URL@ + seq!['/'] + id + TEMPLATE_SUFFIX@
}

/// Builds the raw-content address of the template `id`.
pub fn template_url(id: &str) -> (r: String)
    ensures
        r@ == template_url_of(id@),
{
    let mut url = String::from_str(RAW_BASE_URL);
    url.append("/");
    proof {
        reveal_strlit("/");
    }
    url.append(id);
    url.append(TEMPLATE_SUFFIX);
    url
}

/// What the status of the listing response means: success lets the body
/// be read, any other status is a remote failure carrying the code.
pub fn check_listing_status(status: u16) -> (r: Result<(), GitignoreError>)
    ensures
        r == if is_success_status(status) {
            Ok::<(), GitignoreError>(())
        } else {
            Err(GitignoreError::Remote(status))
        },
{
    if status_is_success(status) {
        Ok(())
    } else {
        Err(GitignoreError::Remote(status))
    }
}

/// What a content response means for template `id`: its body verbatim on
/// success, and on any other status a not-found failure naming `id`.
pub fn template_from_response(id: &str, status: u16, body: String) -> (r: Result<
    String,
    GitignoreError,
>)
    ensures
        is_success_status(status) ==> r == Ok::<String, GitignoreError>(body),
        !is_success_status(status) ==> (match r {
            Err(GitignoreError::NotFound(name)) => name@ == id@,
            _ => false,
        }),
{
    if status_is_success(status) {
        Ok(body)
    } else {
        Err(GitignoreError::NotFound(id.to_string()))
    }
}

} // verus!
