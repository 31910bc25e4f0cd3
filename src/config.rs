use vstd::prelude::*;
use vstd::string::StringSliceAdditionalSpecFns;
use crate::opt_str_view;

verus! {

/// Why the configuration cannot be used.
#[derive(Clone, Copy, Debug, PartialEq, Eq, Structural)]
pub enum ConfigError {
    /// A key was given that is not 32 bytes long.
    InvalidApiKey,
    /// No key is stored and none is in the environment.
    MissingApiKey,
}

/// An API key is well formed when it is 32 bytes long.
pub open spec fn api_key_ok(key: &str) -> bool {
    key.spec_bytes().len() == 32
}

/// The key in effect: the stored one, else the one from the environment,
/// else the empty string.
pub open spec fn spec_resolve(stored: Option<Seq<char>>, env: Option<Seq<char>>) -> Seq<char> {
    match stored {
        Some(s) => s,
        None => match env {
            Some(e) => e,
            None => Seq::empty(),
        },
    }
}

/// Checks a key before it is stored.
pub fn set_api_key(key: &str) -> (r: Result<(), ConfigError>)
    ensures
        r is Ok <==> api_key_ok(key),
        r is Err ==> r == Err::<(), ConfigError>(ConfigError::InvalidApiKey),
{
    if key.as_bytes().len() != 32 {
        Err(ConfigError::InvalidApiKey)
    } else {
        Ok(())
    }
}

/// Resolves the API key: the persistent store first, then the environment.
pub fn get_api_key(stored: Option<&str>, env: Option<&str>) -> (r: String)
    ensures
        r@ == spec_resolve(opt_str_view(stored), opt_str_view(env)),
{
    match stored {
        Some(s) => s.to_owned(),
        None => match env {
            Some(e) => e.to_owned(),
            None => String::new(),
        },
    }
}

/// Decides the key to use. A key given on the command line is checked and
/// then takes the place of the stored one; the key that results must not be
/// empty.
pub fn check_params(given: Option<&str>, stored: Option<&str>, env: Option<&str>) -> (r: Result<
    String,
    ConfigError,
>)
    ensures
        given matches Some(g) && !api_key_ok(g) ==> r == Err::<String, ConfigError>(
            ConfigError::InvalidApiKey,
        ),
        given matches Some(g) ==> (api_key_ok(g) ==> (r matches Ok(k) && k@ == g@)),
        given is None && spec_resolve(opt_str_view(stored), opt_str_view(env)).len() == 0 ==> r == Err::<
            String,
            ConfigError,
        >(ConfigError::MissingApiKey),
        given is None && spec_resolve(opt_str_view(stored), opt_str_view(env)).len() > 0 ==> (r matches Ok(
            k,
        ) && k@ == spec_resolve(opt_str_view(stored), opt_str_view(env))),
{
    let key = match given {
        Some(g) => {
            match set_api_key(g) {
                Err(e) => { return Err(e); },
                Ok(()) => {},
            }
            get_api_key(Some(g), env)
        },
        None => get_api_key(stored, env),
    };
    if key.as_str().is_empty() {
        Err(ConfigError::MissingApiKey)
    } else {
        Ok(key)
    }
}

} // verus!
