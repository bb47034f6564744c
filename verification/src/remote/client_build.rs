//! What the running client knows of its own build.

use vstd::prelude::*;
use crate::text;

verus! {

/// The version, release channel and wire protocol of the running client.
#[derive(Debug)]
pub struct BuildInfo {
    pub version: String,
    pub channel: String,
    pub protocol: u32,
    pub is_preview: bool,
    pub build_id: Option<String>,
}

/// What a `BuildInfo` holds.
pub struct BuildView {
    pub version: Seq<char>,
    pub channel: Seq<char>,
    pub protocol: u32,
    pub is_preview: bool,
    pub build_id: Option<Seq<char>>,
}

impl View for BuildInfo {
    type V = BuildView;

    open spec fn view(&self) -> BuildView {
        BuildView {
            version: self.version@,
            channel: self.channel@,
            protocol: self.protocol,
            is_preview: self.is_preview,
            build_id: text::opt_view(self.build_id),
        }
    }
}

/// A version as messages name it.
pub open spec fn version_text(version: Option<Seq<char>>) -> Seq<char> {
    match version {
        Some(v) => v,
        None => "unknown"@,
    }
}

/// A protocol as messages name it.
pub open spec fn protocol_text(protocol: Option<u32>) -> Seq<char> {
    match protocol {
        Some(p) => text::decimal(p as nat),
        None => "unknown"@,
    }
}

/// A version as messages name it.
pub fn version_label(version: Option<&str>) -> (r: &str)
    ensures
        r@ == version_text(
            match version {
                Some(v) => Some(v@),
                None => None,
            },
        ),
{
    match version {
        Some(v) => v,
        None => "unknown",
    }
}

/// An optional version as messages name it.
pub fn version_name(version: &Option<String>) -> (r: &str)
    ensures
        r@ == version_text(text::opt_view(*version)),
{
    match version {
        Some(v) => version_label(Some(v.as_str())),
        None => version_label(None),
    }
}

/// A protocol as messages name it.
pub fn protocol_label(protocol: Option<u32>) -> (r: String)
    ensures
        r@ == protocol_text(protocol),
{
    match protocol {
        Some(p) => text::decimal_text(p as u64),
        None => "unknown".to_string(),
    }
}

} // verus!
