//! The file names of stored assets.

use vstd::prelude::*;
use vstd::string::StringExecFns;

verus! {

/// `uuid::Uuid::new_v4`, written in its hyphenated form: a random identifier
/// of 36 characters, of which nothing more is known beforehand.
#[verifier::external_body]
fn random_identifier() -> (name: String)
    ensures
        name@.len() == 36,
{
    uuid::Uuid::new_v4().to_string()
}

/// The file name of a static asset with the base name `base`.
pub fn static_name(base: &str) -> (name: String)
    ensures
        name@ == base@ + ".png"@,
{
    base.to_owned().concat(".png")
}

/// The file name of the light asset with the base name `base`.
pub fn light_name(base: &str) -> (name: String)
    ensures
        name@ == base@ + "_light.png"@,
{
    base.to_owned().concat("_light.png")
}

/// The file name of the dark asset with the base name `base`.
pub fn dark_name(base: &str) -> (name: String)
    ensures
        name@ == base@ + "_dark.png"@,
{
    base.to_owned().concat("_dark.png")
}

/// A file name for a new static asset, drawn at random.
pub fn fresh_static_name() -> (name: String)
    ensures
        exists|base: Seq<char>| base.len() == 36 && name@ == base + ".png"@,
{
    let base: String = random_identifier();
    static_name(base.as_str())
}

/// File names for a new pair of theme assets, light and dark, under one base
/// name drawn at random.
pub fn fresh_theme_names() -> (names: (String, String))
    ensures
        exists|base: Seq<char>|
            base.len() == 36 && names.0@ == base + "_light.png"@ && names.1@ == base
                + "_dark.png"@,
{
    let base: String = random_identifier();
    (light_name(base.as_str()), dark_name(base.as_str()))
}

} // verus!
