use vstd::prelude::*;

verus! {

/// The address of the control-plane service, as far as the configuration reads it.
#[derive(Debug)]
pub struct CarlUrl {
    /// The host; an address without one cannot be used.
    pub host: Option<String>,
    /// The port written in the address, if any.
    pub port: Option<u16>,
}

/// How the client authenticates against the service.
#[derive(Debug)]
pub enum AuthConfig {
    Disabled,
    Enabled { issuer_url: String, client_id: String, client_secret: String, scopes: Vec<String> },
}

/// A decoded setup bundle.
#[derive(Debug)]
pub struct CleoSetup {
    pub carl: CarlUrl,
    /// The CA certificate as PEM text.
    pub ca: String,
    pub auth_config: AuthConfig,
}

/// Where a persisted setup is stored.
#[derive(Clone, Copy, Debug, PartialEq, Eq, Default)]
pub enum CleoSetupType {
    System,
    #[default]
    User,
}

/// Why a setup bundle cannot be used.
#[derive(Clone, Copy, Debug, PartialEq, Eq, Structural)]
pub enum SetupError {
    MissingServiceUrl,
    MissingCertificate,
    MissingAuthConfig,
    /// The service address names no host.
    MissingHost,
}

pub const DEFAULT_CARL_PORT: u16 = 443;

/// The port to connect to: the one in the address, else 443.
pub open spec fn port_of(url: CarlUrl) -> int {
    match url.port {
        Some(p) => p as int,
        None => 443,
    }
}

impl CarlUrl {
    /// The port to connect to.
    pub fn effective_port(&self) -> (r: u16)
        ensures
            r == port_of(*self),
    {
        match self.port {
            Some(p) => p,
            None => DEFAULT_CARL_PORT,
        }
    }
}

impl CleoSetup {
    /// Builds a bundle from its decoded fields. Each field is required, and the
    /// certificate may not be empty; the first missing one is reported.
    pub fn from_parts(carl: Option<CarlUrl>, ca: Option<String>, auth_config: Option<AuthConfig>) -> (r:
        Result<CleoSetup, SetupError>)
        ensures
            carl is None ==> r == Err::<CleoSetup, SetupError>(SetupError::MissingServiceUrl),
            carl is Some && (ca is None || ca.unwrap()@.len() == 0) ==> r == Err::<
                CleoSetup,
                SetupError,
            >(SetupError::MissingCertificate),
            carl is Some && ca is Some && ca.unwrap()@.len() > 0 && auth_config is None ==> r
                == Err::<CleoSetup, SetupError>(SetupError::MissingAuthConfig),
            r is Ok <==> (carl is Some && ca is Some && ca.unwrap()@.len() > 0 && auth_config is Some),
            r matches Ok(s) ==> s.carl == carl.unwrap() && s.ca == ca.unwrap() && s.auth_config
                == auth_config.unwrap(),
    {
        let carl = match carl {
            Some(c) => c,
            None => return Err(SetupError::MissingServiceUrl),
        };
        let ca = match ca {
            Some(c) => c,
            None => return Err(SetupError::MissingCertificate),
        };
        if ca.as_str().is_empty() {
            return Err(SetupError::MissingCertificate);
        }
        match auth_config {
            Some(auth_config) => Ok(CleoSetup { carl, ca, auth_config }),
            None => Err(SetupError::MissingAuthConfig),
        }
    }
}

} // verus!
