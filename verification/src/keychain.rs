//! Names under which keys of model services are kept in the operating
//! system's credential store. Reading and writing the store is the caller's
//! business; what may be asked of it is decided here.

use vstd::prelude::*;
use crate::errors::{AppError, ErrorKind};

verus! {

/// The service name under which the application keeps its credentials.
pub const SERVICE_NAME: &'static str = "com.voidcat.forbidden-library";

/// The entry point to the credentials of one service name.
#[derive(Debug, Clone)]
pub struct KeychainManager {
    service: String,
}

impl Default for KeychainManager {
    fn default() -> (m: Self)
        ensures
            m.spec_service() == SERVICE_NAME@,
    {
        KeychainManager { service: String::from_str(SERVICE_NAME) }
    }
}

impl KeychainManager {
    /// The service name of this manager.
    pub closed spec fn spec_service(&self) -> Seq<char> {
        self.service@
    }

    /// A manager for the application's own service name.
    pub fn new() -> (m: Self)
        ensures
            m.spec_service() == SERVICE_NAME@,
    {
        KeychainManager { service: String::from_str(SERVICE_NAME) }
    }

    /// A manager for another service name.
    pub fn with_service(service: String) -> (m: Self)
        ensures
            m.spec_service() == service@,
    {
        KeychainManager { service }
    }

    /// The service name of this manager.
    pub fn service(&self) -> (name: &String)
        ensures
            name@ == self.spec_service(),
    {
        &self.service
    }

    /// Checks the name of a provider before the store is asked: it must not
    /// be empty.
    pub fn check_provider_name(&self, provider_name: &str) -> (r: Result<(), AppError>)
        ensures
            provider_name@.len() > 0 ==> r is Ok,
            provider_name@.len() == 0 ==> (r matches Err(e) && e.is(
                ErrorKind::Validation,
                "Provider name cannot be empty"@,
            )),
    {
        if provider_name.is_empty() {
            Err(AppError::validation("Provider name cannot be empty"))
        } else {
            Ok(())
        }
    }

    /// Checks a key before it is stored: neither the provider's name nor
    /// the key may be empty.
    pub fn check_api_key(&self, provider_name: &str, api_key: &str) -> (r: Result<(), AppError>)
        ensures
            provider_name@.len() > 0 && api_key@.len() > 0 ==> r is Ok,
            provider_name@.len() == 0 ==> (r matches Err(e) && e.is(
                ErrorKind::Validation,
                "Provider name cannot be empty"@,
            )),
            provider_name@.len() > 0 && api_key@.len() == 0 ==> (r matches Err(e) && e.is(
                ErrorKind::Validation,
                "API key cannot be empty"@,
            )),
    {
        if provider_name.is_empty() {
            return Err(AppError::validation("Provider name cannot be empty"));
        }
        if api_key.is_empty() {
            return Err(AppError::validation("API key cannot be empty"));
        }
        Ok(())
    }
}

} // verus!
