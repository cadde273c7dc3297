//! Where the settings live: the configuration directory and settings
//! file are fixed paths under the user's home directory. Reading and
//! writing the file is a collaborator's concern.

use vstd::prelude::*;
use crate::api::PACKAGE_NAME;

verus! {

/// The application's configuration directory under the given home
/// directory.
pub fn get_config_dir(home: &str) -> (r: String)
    ensures
        r@ == home@ + "/.config/"@ + PACKAGE_NAME@,
{
    home.to_owned().concat("/.config/").concat(PACKAGE_NAME)
}

/// The settings file inside the configuration directory.
pub fn get_settings_path(home: &str) -> (r: String)
    ensures
        r@ == home@ + "/.config/"@ + PACKAGE_NAME@ + "/settings.json"@,
{
    get_config_dir(home).concat("/settings.json")
}

} // verus!
