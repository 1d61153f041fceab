//! Version information of this implementation and of the OpenPGP engine.

use vstd::prelude::*;

verus! {

/// A component's name and version.
pub struct VersionInfo {
    pub name: String,
    pub version: String,
}

/// Relies on `rpgpie::VERSION`: the engine's version string.
#[verifier::external_body]
fn engine_version() -> (r: String) {
    rpgpie::VERSION.to_owned()
}

/// Relies on `rpgpie::RPGP_VERSION`: the version string of the OpenPGP
/// library under the engine.
#[verifier::external_body]
fn codec_version() -> (r: String) {
    rpgpie::RPGP_VERSION.to_owned()
}

/// Relies on `String::push_str`, which appends a string slice.
#[verifier::external_body]
fn append(s: String, tail: &str) -> (r: String)
    ensures
        r@ == s@ + tail@,
{
    let mut s = s;
    s.push_str(tail);
    s
}

/// Version information.
pub struct Version {}

impl Version {
    /// Version information.
    pub fn new() -> (r: Version) {
        Version {  }
    }

    /// This implementation's name and version.
    pub fn frontend(&self) -> (r: VersionInfo)
        ensures
            r.name@ == "rpgpie-sop"@,
            r.version@ == "0.1.0"@,
    {
        VersionInfo { name: "rpgpie-sop".to_owned(), version: "0.1.0".to_owned() }
    }

    /// The engine's name, and its version with that of the library under it.
    pub fn backend(&self) -> (r: VersionInfo)
        ensures
            r.name@ == "rpgpie"@,
            exists|e: Seq<char>, c: Seq<char>| r.version@ == e + " (rpgp "@ + c + ")"@,
    {
        let e = engine_version();
        let c = codec_version();
        let v = append(append(append(e, " (rpgp "), c.as_str()), ")");
        VersionInfo { name: "rpgpie".to_owned(), version: v }
    }

    /// One line for the engine and one for the library under it.
    pub fn extended(&self) -> (r: String)
        ensures
            exists|e: Seq<char>, c: Seq<char>| r@ == "rpgpie "@ + e + "\n"@ + "rpgp "@ + c,
    {
        let e = engine_version();
        let c = codec_version();
        append(
            append(append(append("rpgpie ".to_owned(), e.as_str()), "\n"), "rpgp "),
            c.as_str(),
        )
    }
}

} // verus!
