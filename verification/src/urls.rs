//! The remote endpoints, built from the configuration values that the
//! application resolves once at startup: the server base and the
//! product name.

use vstd::prelude::*;
use vstd::string::*;

use crate::platform::{platform_suffix, Platform};

verus! {

/// The well-known version-manifest URL under a server base.
pub fn version_url(server_base: &str) -> (r: String)
    ensures
        r@ == server_base@ + "/launcher/version.txt"@,
{
    let mut url = String::from_str(server_base);
    url.append("/launcher/version.txt");
    url
}

/// The name of the distributed binary for a platform: the product name
/// with the platform's suffix.
pub fn binary_name(launcher_name: &str, platform: Platform) -> (r: String)
    ensures
        r@ == launcher_name@ + platform_suffix(platform),
{
    let mut name = String::from_str(launcher_name);
    match platform {
        Platform::Windows => name.append(".exe"),
        Platform::Linux => name.append("_linux"),
        Platform::Macos => name.append("_macos"),
    }
    name
}

/// The download URL of a platform binary under a server base.
pub fn binary_url(server_base: &str, binary_name: &str) -> (r: String)
    ensures
        r@ == server_base@ + "/launcher/"@ + binary_name@,
{
    let mut url = String::from_str(server_base);
    url.append("/launcher/");
    url.append(binary_name);
    url
}

} // verus!
