//! The registry of applications: what is asked of it.

use crate::errors::{EVRApplicationError, LocalFault};
use crate::text::{is_first_nul, NulString};
use crate::Context;
use vstd::prelude::*;
use vstd::string::StringSliceAdditionalSpecFns;

verus! {

/// One call of the registry of applications.
#[derive(Debug)]
pub enum ApplicationsCall {
    AddApplicationManifest { path: NulString, temporary: bool },
    RemoveApplicationManifest { path: NulString },
    IsApplicationInstalled { key: NulString },
}

/// The part of a session that works on the registry of applications.
pub struct ApplicationsManager<'c> {
    ctx: &'c Context,
}

impl<'c> ApplicationsManager<'c> {
    /// The session that this manager works in.
    pub closed spec fn session(self) -> Context {
        *self.ctx
    }

    pub fn new(ctx: &'c Context) -> (manager: ApplicationsManager<'c>)
        ensures
            manager.session() == *ctx,
    {
        ApplicationsManager { ctx }
    }

    /// Registers the applications that the file at `path` lists. A path
    /// with a zero byte in it is turned down here.
    pub fn add_application_manifest(&self, path: &str, temporary: bool) -> (result: Result<
        ApplicationsCall,
        LocalFault,
    >)
        ensures
            result is Ok <==> !path.spec_bytes().contains(0),
            result matches Ok(call) ==> (call matches ApplicationsCall::AddApplicationManifest {
                path: p,
                temporary: t,
            } && p@ == path.spec_bytes() && t == temporary),
            result matches Err(fault) ==> (fault matches LocalFault::InteriorNul { position }
                && is_first_nul(path.spec_bytes(), position as int)),
    {
        match NulString::from_str(path) {
            Ok(path) => Ok(ApplicationsCall::AddApplicationManifest { path, temporary }),
            Err(fault) => Err(fault),
        }
    }

    pub fn add_application_manifest_raw(&self, path: NulString, temporary: bool) -> (call:
        ApplicationsCall)
        ensures
            call == (ApplicationsCall::AddApplicationManifest { path, temporary }),
    {
        ApplicationsCall::AddApplicationManifest { path, temporary }
    }

    pub fn remove_application_manifest(&self, path: &str) -> (result: Result<
        ApplicationsCall,
        LocalFault,
    >)
        ensures
            result is Ok <==> !path.spec_bytes().contains(0),
            result matches Ok(call) ==> (call matches ApplicationsCall::RemoveApplicationManifest {
                path: p,
            } && p@ == path.spec_bytes()),
            result matches Err(fault) ==> (fault matches LocalFault::InteriorNul { position }
                && is_first_nul(path.spec_bytes(), position as int)),
    {
        match NulString::from_str(path) {
            Ok(path) => Ok(ApplicationsCall::RemoveApplicationManifest { path }),
            Err(fault) => Err(fault),
        }
    }

    pub fn remove_application_manifest_raw(&self, path: NulString) -> (call: ApplicationsCall)
        ensures
            call == (ApplicationsCall::RemoveApplicationManifest { path }),
    {
        ApplicationsCall::RemoveApplicationManifest { path }
    }

    pub fn is_application_installed(&self, key: &str) -> (result: Result<
        ApplicationsCall,
        LocalFault,
    >)
        ensures
            result is Ok <==> !key.spec_bytes().contains(0),
            result matches Ok(call) ==> (call matches ApplicationsCall::IsApplicationInstalled {
                key: k,
            } && k@ == key.spec_bytes()),
            result matches Err(fault) ==> (fault matches LocalFault::InteriorNul { position }
                && is_first_nul(key.spec_bytes(), position as int)),
    {
        match NulString::from_str(key) {
            Ok(key) => Ok(ApplicationsCall::IsApplicationInstalled { key }),
            Err(fault) => Err(fault),
        }
    }

    pub fn is_application_installed_raw(&self, key: NulString) -> (call: ApplicationsCall)
        ensures
            call == (ApplicationsCall::IsApplicationInstalled { key }),
    {
        ApplicationsCall::IsApplicationInstalled { key }
    }

    /// What the answer to the question whether an application is
    /// installed means: the runtime's word, and never a failure.
    pub fn finish_is_application_installed(&self, installed: bool) -> (result: Result<
        bool,
        EVRApplicationError,
    >)
        ensures
            result == Ok::<bool, EVRApplicationError>(installed),
    {
        Ok(installed)
    }
}

} // verus!
