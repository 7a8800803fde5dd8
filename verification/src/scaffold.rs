//! The text of every file that a freshly set-up project starts with.
//!
//! Each function returns one file's text. A file that is the same for every project is a
//! constant; a file that names the project is the constant stretches with the project's
//! values set between them.
use vstd::prelude::*;

pub mod aproar;
pub mod casing;
pub mod layout;
pub mod ntm;
pub mod omnixelerator;
pub mod omnixkore;
pub mod omnixtracker;
pub mod project;
pub mod publish;
pub mod secret;
pub mod storage;
pub mod test_suite;
pub mod xtls;

verus! {

/// Registry account that a new project's settings start with.
pub const DOCKER_USERNAME: &'static str = "Placeholder";

/// Registry password that a new project's settings start with.
pub const DOCKER_PASSWORD: &'static str = "Placeholder";

/// Author named in the manifest and the licence.
pub const AUTHOR_NAME: &'static str = "Lord Xyn";

/// Author's address named in the manifest.
pub const AUTHOR_EMAIL: &'static str = "LordXyn@proton.me";

/// Account under which a project's repository lives.
pub const GITHUB_URL: &'static str = "https://github.com/arcmoonstudios";

/// Directory that holds the local checkouts.
pub const LOCAL_REPO: &'static str = "/home/xynhax/Projects/";

/// Year of the licence grant.
pub const LICENSE_YEAR: &'static str = "2024";

/// The signature line; `{}` marks where a file's label goes.
pub const ARCMOON_SIGNATURE: &'static str =
    "~=#######D]======A===r===c====M===o===o===n=====<Lord[{}]Xyn>=====S===t===u===d===i===o===s======[R|$>";

} // verus!
