//! Host platforms and the release asset published for each of them.

use vstd::prelude::*;

verus! {

/// An operating system the host may run on.
#[derive(Clone, Copy, Debug, PartialEq, Eq, Structural)]
pub enum Os {
    Mac,
    Linux,
    Windows,
}

/// A processor architecture the host may run on.
#[derive(Clone, Copy, Debug, PartialEq, Eq, Structural)]
pub enum Architecture {
    Aarch64,
    X8664,
}

/// The pair the host reports for the machine it runs on.
#[derive(Clone, Copy, Debug, PartialEq, Eq, Structural)]
pub struct Platform {
    pub os: Os,
    pub arch: Architecture,
}

/// The release archive published for `platform`, if there is one.
pub open spec fn spec_asset_name(platform: Platform) -> Option<Seq<char>> {
    match (platform.os, platform.arch) {
        (Os::Mac, Architecture::Aarch64) => Some("quickmark-server-aarch64-apple-darwin.tar.gz"@),
        (Os::Mac, Architecture::X8664) => Some("quickmark-server-x86_64-apple-darwin.tar.gz"@),
        (Os::Linux, Architecture::X8664) => Some(
            "quickmark-server-x86_64-unknown-linux-gnu.tar.gz"@,
        ),
        (Os::Linux, Architecture::Aarch64) => Some(
            "quickmark-server-aarch64-unknown-linux-gnu.tar.gz"@,
        ),
        (Os::Windows, Architecture::X8664) => Some(
            "quickmark-server-x86_64-pc-windows-msvc.tar.gz"@,
        ),
        (Os::Windows, Architecture::Aarch64) => None,
    }
}

/// Whether a release archive is published for `platform`.
pub open spec fn supported(platform: Platform) -> bool {
    !(platform.os == Os::Windows && platform.arch == Architecture::Aarch64)
}

/// Looks up the release archive for `platform`.
pub fn asset_name(platform: Platform) -> (asset: Option<&'static str>)
    ensures
        asset is Some <==> supported(platform),
        match asset {
            Some(name) => spec_asset_name(platform) == Some(name@),
            None => spec_asset_name(platform) is None,
        },
{
    match (platform.os, platform.arch) {
        (Os::Mac, Architecture::Aarch64) => Some("quickmark-server-aarch64-apple-darwin.tar.gz"),
        (Os::Mac, Architecture::X8664) => Some("quickmark-server-x86_64-apple-darwin.tar.gz"),
        (Os::Linux, Architecture::X8664) => Some(
            "quickmark-server-x86_64-unknown-linux-gnu.tar.gz",
        ),
        (Os::Linux, Architecture::Aarch64) => Some(
            "quickmark-server-aarch64-unknown-linux-gnu.tar.gz",
        ),
        (Os::Windows, Architecture::X8664) => Some(
            "quickmark-server-x86_64-pc-windows-msvc.tar.gz",
        ),
        (Os::Windows, Architecture::Aarch64) => None,
    }
}

} // verus!
