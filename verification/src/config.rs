//! Where the service listens and where downloaded models are kept.
use vstd::prelude::*;

verus! {

/// The address the service binds to when none is configured.
pub open spec fn default_address() -> Seq<char> {
    "127.0.0.1"@
}

/// The port the service binds to when none is configured.
pub open spec fn default_port() -> Seq<char> {
    "9000"@
}

/// The directory models are cached in when none is configured.
pub open spec fn default_cache_dir() -> Seq<char> {
    "~/.cache/huggingface"@
}

/// The configured value, or the default when there is none.
pub open spec fn setting_or(value: Option<String>, default: Seq<char>) -> Seq<char> {
    match value {
        Some(v) => v@,
        None => default,
    }
}

/// `address:port`, each part taken from its setting or its default.
pub fn get_bind_address(address: Option<String>, port: Option<String>) -> (r: String)
    ensures
        r@ == setting_or(address, default_address()) + ":"@ + setting_or(port, default_port()),
        r@ == (match address {
            Some(a) => a@,
            None => "127.0.0.1"@,
        }) + ":"@ + (match port {
            Some(p) => p@,
            None => "9000"@,
        }),
{
    let mut r = match address {
        Some(a) => a,
        None => String::from_str("127.0.0.1"),
    };
    r.append(":");
    match port {
        Some(p) => r.append(p.as_str()),
        None => r.append("9000"),
    }
    r
}

/// The configured cache directory, or the default one.
pub fn get_cache_dir(dir: Option<String>) -> (r: String)
    ensures
        r@ == setting_or(dir, default_cache_dir()),
        r@ == (match dir {
            Some(d) => d@,
            None => "~/.cache/huggingface"@,
        }),
{
    match dir {
        Some(d) => d,
        None => String::from_str("~/.cache/huggingface"),
    }
}

/// A configured value is used exactly as given, whatever it holds; without
/// one, the default is used.
pub proof fn lemma_setting_or(value: Option<String>, default: Seq<char>)
    ensures
        value matches Some(v) ==> setting_or(value, default) == v@,
        value is None ==> setting_or(value, default) == default,
{
}

/// The defaults: address `127.0.0.1`, port `9000`, cache directory `~/.cache/huggingface`.
pub proof fn lemma_defaults()
    ensures
        default_address() == "127.0.0.1"@,
        default_port() == "9000"@,
        default_cache_dir() == "~/.cache/huggingface"@,
{
}

/// The bind address is the address, a colon, and the port: whatever address
/// and port are configured, both appear in it unchanged.
pub proof fn lemma_bind_address_parts(address: String, port: String)
    ensures
        setting_or(Some(address), default_address()) + ":"@ + setting_or(Some(port), default_port())
            == address@ + ":"@ + port@,
{
}

} // verus!
