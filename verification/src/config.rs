//! Start-up configuration, resolved once from the process environment.

use crate::text::{clone_text, str_eq, text_of};
use vstd::prelude::*;
use vstd::string::StringExecFns;

verus! {

/// The options that the signer recognises.
#[derive(Debug, Clone, Copy, PartialEq, Eq, Structural)]
pub enum ConfigVariable {
    RpcUrl,
    DatabaseUrl,
    UseKms,
    SignerKmsId,
    PrivateKey,
}

impl ConfigVariable {
    /// The name under which the option is looked up.
    pub open spec fn spec_name(self) -> Seq<char> {
        match self {
            ConfigVariable::RpcUrl => "RPC_URL"@,
            ConfigVariable::DatabaseUrl => "DATABASE_URL"@,
            ConfigVariable::UseKms => "USE_KMS"@,
            ConfigVariable::SignerKmsId => "SIGNER_KMS_ID"@,
            ConfigVariable::PrivateKey => "PRIVATE_KEY"@,
        }
    }

    /// The name under which the option is looked up.
    pub fn name(&self) -> (name: &'static str)
        ensures
            name@ == self.spec_name(),
    {
        match self {
            ConfigVariable::RpcUrl => "RPC_URL",
            ConfigVariable::DatabaseUrl => "DATABASE_URL",
            ConfigVariable::UseKms => "USE_KMS",
            ConfigVariable::SignerKmsId => "SIGNER_KMS_ID",
            ConfigVariable::PrivateKey => "PRIVATE_KEY",
        }
    }
}

/// Why no configuration could be built.
#[derive(Debug, Clone, Copy, PartialEq, Eq, Structural)]
pub enum ConfigError {
    /// A required option has no value.
    Missing(ConfigVariable),
}

impl ConfigError {
    /// The text of the error.
    pub open spec fn spec_message(self) -> Seq<char> {
        match self {
            ConfigError::Missing(variable) => "Missing env variable: "@ + variable.spec_name(),
        }
    }

    /// The text of the error.
    pub fn to_string(&self) -> (message: String)
        ensures
            message@ == self.spec_message(),
    {
        match self {
            ConfigError::Missing(variable) => {
                String::from_str("Missing env variable: ").concat(variable.name())
            },
        }
    }
}

/// The value of the first pair of `env` whose name is `key`.
pub open spec fn lookup(env: Seq<(String, String)>, key: Seq<char>) -> Option<Seq<char>>
    decreases env.len(),
{
    if env.len() == 0 {
        None
    } else if env[0].0@ == key {
        Some(env[0].1@)
    } else {
        lookup(env.drop_first(), key)
    }
}

/// Whether remote key custody is selected: `USE_KMS` is `1` or `true`.
pub open spec fn kms_selected(env: Seq<(String, String)>) -> bool {
    lookup(env, ConfigVariable::UseKms.spec_name()) == Some("1"@) || lookup(
        env,
        ConfigVariable::UseKms.spec_name(),
    ) == Some("true"@)
}

/// The credential that the environment has to hold.
pub open spec fn credential(env: Seq<(String, String)>) -> ConfigVariable {
    if kms_selected(env) {
        ConfigVariable::SignerKmsId
    } else {
        ConfigVariable::PrivateKey
    }
}

/// The first required option that `env` lacks, in the order in which they are resolved.
pub open spec fn first_missing(env: Seq<(String, String)>) -> Option<ConfigVariable> {
    if lookup(env, ConfigVariable::RpcUrl.spec_name()) is None {
        Some(ConfigVariable::RpcUrl)
    } else if lookup(env, ConfigVariable::DatabaseUrl.spec_name()) is None {
        Some(ConfigVariable::DatabaseUrl)
    } else if lookup(env, credential(env).spec_name()) is None {
        Some(credential(env))
    } else {
        None
    }
}

/// The resolved configuration.
#[derive(Debug, PartialEq, Eq)]
pub struct Config {
    pub use_kms: bool,
    pub rpc_url: String,
    pub private_key: Option<String>,
    pub signer_kms_id: Option<String>,
    pub database_url: String,
}

/// The mathematical content of a [`Config`].
pub struct ConfigView {
    pub use_kms: bool,
    pub rpc_url: Seq<char>,
    pub private_key: Option<Seq<char>>,
    pub signer_kms_id: Option<Seq<char>>,
    pub database_url: Seq<char>,
}

impl View for Config {
    type V = ConfigView;

    open spec fn view(&self) -> ConfigView {
        ConfigView {
            use_kms: self.use_kms,
            rpc_url: self.rpc_url@,
            private_key: text_of(self.private_key),
            signer_kms_id: text_of(self.signer_kms_id),
            database_url: self.database_url@,
        }
    }
}

impl ConfigView {
    /// Exactly one credential is held, the one that `use_kms` selects.
    pub open spec fn well_formed(self) -> bool {
        if self.use_kms {
            self.signer_kms_id is Some && self.private_key is None
        } else {
            self.private_key is Some && self.signer_kms_id is None
        }
    }
}

/// The configuration that `env` describes, where it lacks no required option.
pub open spec fn resolved(env: Seq<(String, String)>) -> ConfigView {
    ConfigView {
        use_kms: kms_selected(env),
        rpc_url: lookup(env, ConfigVariable::RpcUrl.spec_name()).unwrap(),
        private_key: if kms_selected(env) {
            None
        } else {
            lookup(env, ConfigVariable::PrivateKey.spec_name())
        },
        signer_kms_id: if kms_selected(env) {
            lookup(env, ConfigVariable::SignerKmsId.spec_name())
        } else {
            None
        },
        database_url: lookup(env, ConfigVariable::DatabaseUrl.spec_name()).unwrap(),
    }
}

impl Config {
    /// Builds the configuration from the pairs of name and value of the environment.
    ///
    /// `RPC_URL` and `DATABASE_URL` are required. `USE_KMS` selects remote key custody when it is
    /// `1` or `true`; then `SIGNER_KMS_ID` is required, else `PRIVATE_KEY`. The credential that
    /// is not selected is left out even where the environment holds it.
    pub fn build(env: &Vec<(String, String)>) -> (built: Result<Config, ConfigError>)
        ensures
            match built {
                Ok(config) => first_missing(env@) is None && config@ == resolved(env@)
                    && config@.well_formed(),
                Err(error) => first_missing(env@) == Some(error->Missing_0),
            },
    {
        let rpc_url = match Self::get_env_var(env, ConfigVariable::RpcUrl.name()) {
            Some(value) => value,
            None => {
                return Err(ConfigError::Missing(ConfigVariable::RpcUrl));
            },
        };
        let database_url = match Self::get_env_var(env, ConfigVariable::DatabaseUrl.name()) {
            Some(value) => value,
            None => {
                return Err(ConfigError::Missing(ConfigVariable::DatabaseUrl));
            },
        };
        let use_kms = match Self::get_env_var(env, ConfigVariable::UseKms.name()) {
            Some(value) => str_eq(value.as_str(), "1") || str_eq(value.as_str(), "true"),
            None => false,
        };
        if use_kms {
            match Self::get_env_var(env, ConfigVariable::SignerKmsId.name()) {
                Some(value) => Ok(
                    Config {
                        use_kms,
                        rpc_url,
                        private_key: None,
                        signer_kms_id: Some(value),
                        database_url,
                    },
                ),
                None => Err(ConfigError::Missing(ConfigVariable::SignerKmsId)),
            }
        } else {
            match Self::get_env_var(env, ConfigVariable::PrivateKey.name()) {
                Some(value) => Ok(
                    Config {
                        use_kms,
                        rpc_url,
                        private_key: Some(value),
                        signer_kms_id: None,
                        database_url,
                    },
                ),
                None => Err(ConfigError::Missing(ConfigVariable::PrivateKey)),
            }
        }
    }

    /// Whether signing goes through remote key custody.
    pub fn use_kms(&self) -> (use_kms: bool)
        ensures
            use_kms == self@.use_kms,
    {
        self.use_kms
    }

    /// The endpoint of the signing network.
    pub fn rpc_url(&self) -> (rpc_url: String)
        ensures
            rpc_url@ == self@.rpc_url,
    {
        self.rpc_url.clone()
    }

    /// The local key material, where signing does not go through remote key custody.
    pub fn private_key(&self) -> (private_key: Option<String>)
        ensures
            text_of(private_key) == self@.private_key,
    {
        clone_text(&self.private_key)
    }

    /// The identifier of the remote key, where signing goes through remote key custody.
    pub fn signer_kms_id(&self) -> (signer_kms_id: Option<String>)
        ensures
            text_of(signer_kms_id) == self@.signer_kms_id,
    {
        clone_text(&self.signer_kms_id)
    }

    /// The value that `env` gives to `key`: that of the first pair with this name.
    pub fn get_env_var(env: &Vec<(String, String)>, key: &str) -> (value: Option<String>)
        ensures
            match value {
                Some(s) => lookup(env@, key@) == Some(s@),
                None => lookup(env@, key@) is None,
            },
    {
        let mut i: usize = 0;
        assert(env@.skip(0) =~= env@);
        while i < env.len()
            invariant
                i <= env@.len(),
                lookup(env@, key@) == lookup(env@.skip(i as int), key@),
            decreases env@.len() - i,
        {
            proof {
                assert(env@.skip(i as int).drop_first() =~= env@.skip(i + 1));
            }
            if str_eq(env[i].0.as_str(), key) {
                return Some(env[i].1.clone());
            }
            i += 1;
        }
        None
    }
}

} // verus!
