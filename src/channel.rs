//! Channels of the registry and the small values that describe them.

use crate::version::{
    req_reading, version_reading, Version, VersionError, VersionRequirement, RequirementError,
};
use crate::stable::{semver_parse_message, semver_req_message};
use crate::text::push_str;
use vstd::prelude::*;

verus! {

/// The release channel a registry entry belongs to.
#[derive(Debug, Clone, Copy, PartialEq, Eq, Structural)]
pub enum Channel {
    Stable,
    Beta,
    Nightly,
}

impl Channel {
    pub fn is_nightly(&self) -> (r: bool)
        ensures
            r == (*self == Channel::Nightly),
    {
        match self {
            Channel::Nightly => true,
            _ => false,
        }
    }
}

/// The channel a user asked for.
#[derive(Debug, Clone, Copy, PartialEq, Eq, Structural)]
pub enum ChannelVersion {
    Stable,
    Nightly,
    Specific { channel: Channel },
}

impl ChannelVersion {
    /// Whether the channel asked for is a nightly one.
    pub fn is_nightly(&self) -> (r: bool)
        ensures
            r == match *self {
                ChannelVersion::Nightly => true,
                ChannelVersion::Stable => false,
                ChannelVersion::Specific { channel } => channel == Channel::Nightly,
            },
    {
        match self {
            ChannelVersion::Nightly => true,
            ChannelVersion::Stable => false,
            ChannelVersion::Specific { channel } => channel.is_nightly(),
        }
    }
}

/// Whether a channel is open for use.
#[derive(Debug, Clone, Copy, PartialEq, Eq, Structural)]
pub enum Disposition {
    Up,
    Down,
}

/// The genesis block of a channel.
#[derive(Debug, Clone)]
pub struct Genesis {
    pub block0_hash: String,
}

impl Genesis {
    /// Block0 hash, in hexadecimal.
    pub fn block0_hash(&self) -> (r: &str)
        ensures
            r@ == self.block0_hash@,
    {
        self.block0_hash.as_str()
    }
}

/// A download address.
#[derive(Debug, Clone)]
pub struct Url(pub String);

impl Url {
    pub fn as_str(&self) -> (r: &str)
        ensures
            r@ == self.0@,
    {
        self.0.as_str()
    }
}

fn text_of(s: &str) -> (r: String)
    ensures
        r@ == s@,
{
    let mut out = String::new();
    push_str(&mut out, s);
    out
}

impl VersionError {
    /// A description of the error: `semver`'s own for a semantic version.
    pub fn message(&self) -> (r: String)
        ensures
            *self is Semver ==> r@ == self->Semver_0.message@,
            *self is Nightly ==> r@ == "invalid nightly version"@,
            *self is AlreadyConfigured ==> r@ == "nightly version already has a build date"@,
    {
        match self {
            VersionError::Semver(f) => f.message.clone(),
            VersionError::Nightly => text_of("invalid nightly version"),
            VersionError::AlreadyConfigured => text_of("nightly version already has a build date"),
        }
    }
}

impl RequirementError {
    /// A description of the error, `semver`'s own.
    pub fn message(&self) -> (r: String)
        ensures
            r@ == match self {
                RequirementError::ReqError(f) => f.message@,
                RequirementError::VersionError(f) => f.message@,
            },
    {
        match self {
            RequirementError::ReqError(f) => f.message.clone(),
            RequirementError::VersionError(f) => f.message.clone(),
        }
    }
}

/// Accepts a release name that reads as a version, and describes why otherwise: the
/// library's text for a malformed nightly, `semver`'s for a malformed semantic version.
pub fn release(arg: String) -> (r: Result<(), String>)
    ensures
        r is Ok == (version_reading(arg@) is Read),
        version_reading(arg@) is BadNightly ==> r is Err && r->Err_0@ == "invalid nightly version"@,
        version_reading(arg@) is BadSemver ==> r is Err && r->Err_0@ == semver_parse_message(arg@),
{
    match Version::parse(arg.as_str()) {
        Ok(_) => Ok(()),
        Err(e) => Err(e.message()),
    }
}

/// Accepts a text that reads as a version requirement, and describes why otherwise, in
/// `semver`'s words.
pub fn version_req(arg: String) -> (r: Result<(), String>)
    ensures
        r is Ok == (req_reading(arg@) is Read),
        req_reading(arg@) is BadRange ==> r is Err && r->Err_0@ == semver_req_message(arg@),
        req_reading(arg@) is BadVersion ==> r is Err && r->Err_0@ == semver_parse_message(arg@),
{
    match VersionRequirement::parse(arg.as_str()) {
        Ok(_) => Ok(()),
        Err(e) => Err(e.message()),
    }
}

} // verus!
