//! Errors returned by OCI Distribution API calls.
use vstd::prelude::*;

use crate::text::{decimal, push_decimal};

verus! {

/// Errors returned by OCI Distribution API calls.
#[derive(Debug, PartialEq, Eq)]
pub enum RegistryError {
    NotFound { resource: String },
    Unauthorized,
    Forbidden,
    DeleteNotEnabled,
    UnexpectedStatus { status: u16, body: String },
    /// An HTTP transport failure, by its message.
    Transport(String),
    InvalidResponse(String),
}

/// A registry error as plain values.
pub enum RegistryFault {
    NotFound { resource: Seq<char> },
    Unauthorized,
    Forbidden,
    DeleteNotEnabled,
    UnexpectedStatus { status: u16, body: Seq<char> },
    Transport(Seq<char>),
    InvalidResponse(Seq<char>),
}

impl View for RegistryError {
    type V = RegistryFault;

    open spec fn view(&self) -> RegistryFault {
        match self {
            RegistryError::NotFound { resource } => RegistryFault::NotFound { resource: resource@ },
            RegistryError::Unauthorized => RegistryFault::Unauthorized,
            RegistryError::Forbidden => RegistryFault::Forbidden,
            RegistryError::DeleteNotEnabled => RegistryFault::DeleteNotEnabled,
            RegistryError::UnexpectedStatus { status, body } => RegistryFault::UnexpectedStatus {
                status: *status,
                body: body@,
            },
            RegistryError::Transport(m) => RegistryFault::Transport(m@),
            RegistryError::InvalidResponse(m) => RegistryFault::InvalidResponse(m@),
        }
    }
}

/// The text of each registry error.
pub open spec fn registry_fault_message(f: RegistryFault) -> Seq<char> {
    match f {
        RegistryFault::NotFound { resource } => "not found: "@ + resource,
        RegistryFault::Unauthorized => "registry authentication failed — check credentials"@,
        RegistryFault::Forbidden => "access denied by registry"@,
        RegistryFault::DeleteNotEnabled =>
            "registry does not permit deletions — enable storage.delete in registry config"@,
        RegistryFault::UnexpectedStatus { status, body } => "registry returned HTTP "@ + decimal(
            status as nat,
        ) + ": "@ + body,
        RegistryFault::Transport(m) => "HTTP transport error: "@ + m,
        RegistryFault::InvalidResponse(m) => "invalid registry response: "@ + m,
    }
}

impl RegistryError {
    /// The error's text (what `to_string` gives).
    pub fn message(&self) -> (m: String)
        ensures
            m@ == registry_fault_message(self@),
    {
        let mut m = String::new();
        match self {
            RegistryError::NotFound { resource } => {
                m.append("not found: ");
                m.append(resource.as_str());
            },
            RegistryError::Unauthorized => {
                m.append("registry authentication failed — check credentials");
            },
            RegistryError::Forbidden => {
                m.append("access denied by registry");
            },
            RegistryError::DeleteNotEnabled => {
                m.append(
                    "registry does not permit deletions — enable storage.delete in registry config",
                );
            },
            RegistryError::UnexpectedStatus { status, body } => {
                m.append("registry returned HTTP ");
                push_decimal(&mut m, *status as u64);
                m.append(": ");
                m.append(body.as_str());
            },
            RegistryError::Transport(e) => {
                m.append("HTTP transport error: ");
                m.append(e.as_str());
            },
            RegistryError::InvalidResponse(e) => {
                m.append("invalid registry response: ");
                m.append(e.as_str());
            },
        }
        assert(m@ =~= registry_fault_message(self@));
        m
    }
}

/// Errors of a garbage-collection run.
#[derive(Debug, PartialEq, Eq)]
pub enum GcError {
    /// The registry image could not be pulled.
    ImagePullFailed { image: String, detail: String },
    /// The GC container could not be created.
    ContainerCreateFailed(String),
    /// The configured GC script does not exist.
    ScriptNotFound(String),
    /// The Docker API failed.
    Docker(String),
    /// Running the GC script failed.
    Io(String),
}

/// The text of a GC error.
pub open spec fn gc_error_message(e: GcError) -> Seq<char> {
    match e {
        GcError::ImagePullFailed { image, detail } => "failed to pull image '"@ + image@ + "': "@
            + detail@,
        GcError::ContainerCreateFailed(d) => "failed to create GC container: "@ + d@,
        GcError::ScriptNotFound(p) => "GC script not found: "@ + p@,
        GcError::Docker(d) => "Docker API error: "@ + d@,
        GcError::Io(d) => "I/O error: "@ + d@,
    }
}

impl GcError {
    /// The error's text.
    pub fn message(&self) -> (m: String)
        ensures
            m@ == gc_error_message(*self),
    {
        let mut m = String::new();
        match self {
            GcError::ImagePullFailed { image, detail } => {
                m.append("failed to pull image '");
                m.append(image.as_str());
                m.append("': ");
                m.append(detail.as_str());
            },
            GcError::ContainerCreateFailed(d) => {
                m.append("failed to create GC container: ");
                m.append(d.as_str());
            },
            GcError::ScriptNotFound(p) => {
                m.append("GC script not found: ");
                m.append(p.as_str());
            },
            GcError::Docker(d) => {
                m.append("Docker API error: ");
                m.append(d.as_str());
            },
            GcError::Io(d) => {
                m.append("I/O error: ");
                m.append(d.as_str());
            },
        }
        assert(m@ =~= gc_error_message(*self));
        m
    }
}

} // verus!
