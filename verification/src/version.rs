//! HTTP versions.

use vstd::prelude::*;

verus! {

/// A version of HTTP, as either generation of the HTTP crates names it.
#[derive(Debug, Clone, Copy, PartialEq, Eq, Structural)]
pub enum HttpVersion {
    Http09,
    Http10,
    Http11,
    Http2,
    Http3,
    /// A version that came into a crate later.
    Unknown,
}

/// Whether both sides of the adapters speak `version`.
pub open spec fn shared_version(version: HttpVersion) -> bool {
    version is Http09 || version is Http10 || version is Http11 || version is Http2
}

/// The version that stands for `version` on the other side: itself where both
/// sides speak it, HTTP/1.1 otherwise.
pub open spec fn carried_version(version: HttpVersion) -> HttpVersion {
    if shared_version(version) {
        version
    } else {
        HttpVersion::Http11
    }
}

/// The version of `http` 0.2 for a version of `http` 1.
pub fn convert_version_1_to_0(version: HttpVersion) -> (converted: HttpVersion)
    ensures
        converted == carried_version(version),
{
    match version {
        HttpVersion::Http09 => HttpVersion::Http09,
        HttpVersion::Http10 => HttpVersion::Http10,
        HttpVersion::Http11 => HttpVersion::Http11,
        HttpVersion::Http2 => HttpVersion::Http2,
        HttpVersion::Http3 => HttpVersion::Http11,
        _ => HttpVersion::Http11,
    }
}

/// The version of `http` 1 for a version of `http` 0.2.
pub fn convert_version_0_to_1(version: HttpVersion) -> (converted: HttpVersion)
    ensures
        converted == carried_version(version),
{
    match version {
        HttpVersion::Http09 => HttpVersion::Http09,
        HttpVersion::Http10 => HttpVersion::Http10,
        HttpVersion::Http11 => HttpVersion::Http11,
        HttpVersion::Http2 => HttpVersion::Http2,
        _ => HttpVersion::Http11,
    }
}

/// A version that was carried over is spoken on both sides, so carrying it back
/// changes nothing more; a version comes back as it was exactly where both sides
/// speak it.
pub proof fn version_round_trip(version: HttpVersion)
    ensures
        shared_version(carried_version(version)),
        carried_version(carried_version(version)) == carried_version(version),
        carried_version(carried_version(version)) == version <==> shared_version(version),
{
}

} // verus!
