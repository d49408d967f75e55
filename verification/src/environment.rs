//! The environment variables that configure credentials.
//!
//! The library never reads the process environment. A caller hands it the
//! variables as a list of name/value pairs; where a name occurs twice, the
//! first pair counts.

use crate::text::{eq_ignore_ascii_case, matches_ignore_ascii_case};
use vstd::prelude::*;

verus! {

/// The variable that holds the access key id.
pub const ENV_KMS_ACCESS_KEY_ID: &'static str = "KMS_ACCESS_KEY_ID";

/// The variable that holds the access key secret.
pub const ENV_KMS_ACCESS_KEY_SECRET: &'static str = "KMS_ACCESS_KEY_SECRET";

/// The variable that holds the session token.
pub const ENV_KMS_SECURITY_TOKEN: &'static str = "KMS_SECURITY_TOKEN";

/// The variable that switches hardened mode on.
pub const ENV_KMS_ECS_SECURITY_HARDEN: &'static str = "KMS_ECS_SECURITY_HARDEN";

/// The variable that holds the name of the instance's role.
pub const ENV_KMS_ECS_RAM_ROLE: &'static str = "KMS_ECS_RAM_ROLE";

/// Whether a flag's text switches the flag on: it is one of `1`, `true`,
/// `yes` and `on`, in any mix of upper and lower case. Every other text
/// leaves the flag off.
pub open spec fn flag_is_on(text: Seq<char>) -> bool {
    ||| eq_ignore_ascii_case(text, "1"@)
    ||| eq_ignore_ascii_case(text, "true"@)
    ||| eq_ignore_ascii_case(text, "yes"@)
    ||| eq_ignore_ascii_case(text, "on"@)
}

/// Reads a flag's text.
pub fn parse_flag(text: &str) -> (r: bool)
    ensures
        r == flag_is_on(text@),
{
    matches_ignore_ascii_case(text, "1") || matches_ignore_ascii_case(text, "true")
        || matches_ignore_ascii_case(text, "yes") || matches_ignore_ascii_case(text, "on")
}

} // verus!
