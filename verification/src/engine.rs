//! What the engine answers: its version, and the handle of a container that
//! it created.

use crate::container::strings_view;
use vstd::prelude::*;

verus! {

/// The engine's version record, as a mathematical value.
pub struct EngineVersion {
    pub version: Seq<char>,
    pub api_version: Seq<char>,
    pub kernel_version: Seq<char>,
}

/// The handle of a created container, as a mathematical value.
pub struct ContainerHandle {
    pub id: Seq<char>,
    pub warnings: Seq<Seq<char>>,
}

/// The versions that the engine reports of itself, of its API and of the
/// kernel it runs on.
#[derive(Debug, PartialEq, Eq)]
pub struct VersionResponse {
    version: String,
    api_version: String,
    kernel_version: String,
}

/// The engine's answer to a successful create: the identifier of the new
/// container, and the warnings that came with it.
#[derive(Debug, PartialEq, Eq)]
pub struct ContainerCreatedResponse {
    id: String,
    warnings: Vec<String>,
}

impl View for VersionResponse {
    type V = EngineVersion;

    closed spec fn view(&self) -> EngineVersion {
        EngineVersion {
            version: self.version@,
            api_version: self.api_version@,
            kernel_version: self.kernel_version@,
        }
    }
}

impl View for ContainerCreatedResponse {
    type V = ContainerHandle;

    closed spec fn view(&self) -> ContainerHandle {
        ContainerHandle { id: self.id@, warnings: strings_view(self.warnings) }
    }
}

impl VersionResponse {
    /// The record made of the three versions.
    pub fn new(version: String, api_version: String, kernel_version: String) -> (r: VersionResponse)
        ensures
            r@ == (EngineVersion {
                version: version@,
                api_version: api_version@,
                kernel_version: kernel_version@,
            }),
    {
        VersionResponse { version, api_version, kernel_version }
    }

    /// The version of the engine.
    pub fn version(&self) -> (r: &str)
        ensures
            r@ == self@.version,
    {
        self.version.as_str()
    }

    /// The version of the API that the engine speaks.
    pub fn api_version(&self) -> (r: &str)
        ensures
            r@ == self@.api_version,
    {
        self.api_version.as_str()
    }

    /// The version of the kernel under the engine.
    pub fn kernel_version(&self) -> (r: &str)
        ensures
            r@ == self@.kernel_version,
    {
        self.kernel_version.as_str()
    }
}

impl ContainerCreatedResponse {
    /// The handle made of an identifier and the warnings.
    pub fn new(id: String, warnings: Vec<String>) -> (r: ContainerCreatedResponse)
        ensures
            r@ == (ContainerHandle { id: id@, warnings: strings_view(warnings) }),
    {
        ContainerCreatedResponse { id, warnings }
    }

    /// The identifier of the container.
    pub fn id(&self) -> (r: &str)
        ensures
            r@ == self@.id,
    {
        self.id.as_str()
    }

    /// The warnings that the engine gave on creation.
    pub fn warnings(&self) -> (r: &Vec<String>)
        ensures
            strings_view(*r) == self@.warnings,
    {
        &self.warnings
    }
}

} // verus!
