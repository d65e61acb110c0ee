//! Small configuration decisions: where output goes, which converter binary
//! to run, and which API key to use.

use vstd::prelude::*;

verus! {

/// Returns the output directory chosen by the user, or the default `./fonts`.
pub fn get_output_dir(target_dir: Option<String>) -> (dir: String)
    ensures
        match target_dir {
            Some(chosen) => dir == chosen,
            None => dir@ == "./fonts"@,
        },
{
    match target_dir {
        Some(chosen) => chosen,
        None => String::from_str("./fonts"),
    }
}

/// Picks the `woff2_compress` binary to invoke, preferring the system-wide
/// install, given whether each candidate path exists on this machine.
/// Reports an error when neither candidate is present.
pub fn get_woff2_compress(usr_local_exists: bool, home_bin_exists: bool) -> (r: Result<
    String,
    String,
>)
    ensures
        usr_local_exists ==> (r matches Ok(p) && p@ == "/usr/local/bin/woff2_compress"@),
        !usr_local_exists && home_bin_exists ==> (r matches Ok(p) && p@
            == "~/.gfontapi/bin/woff2_compress"@),
        !usr_local_exists && !home_bin_exists ==> (r matches Err(e) && e@
            == "Could not locate woff2_compress binary on system"@),
{
    if usr_local_exists {
        Ok(String::from_str("/usr/local/bin/woff2_compress"))
    } else if home_bin_exists {
        Ok(String::from_str("~/.gfontapi/bin/woff2_compress"))
    } else {
        Err(String::from_str("Could not locate woff2_compress binary on system"))
    }
}

/// Chooses the API key: an explicit argument wins, otherwise a non-empty
/// value from the environment is used, otherwise there is no key and the
/// caller must treat that as a fatal configuration error.
pub fn choose_api_key(cli_api_key: Option<String>, env_api_key: Option<String>) -> (r: Option<
    String,
>)
    ensures
        match cli_api_key {
            Some(key) => r == Some(key),
            None => match env_api_key {
                Some(key) => {
                    if key@.len() > 0 {
                        r == Some(key)
                    } else {
                        r is None
                    }
                },
                None => r is None,
            },
        },
{
    match cli_api_key {
        Some(key) => Some(key),
        None => match env_api_key {
            Some(key) => {
                if key.as_str().is_empty() {
                    None
                } else {
                    Some(key)
                }
            },
            None => None,
        },
    }
}

} // verus!
