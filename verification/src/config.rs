use vstd::prelude::*;

verus! {

/// The typed settings the session core runs on: where to connect, how to
/// authenticate, which two on-chain addresses to monitor, and how loud the
/// observability output should be. Parsing the settings file into this record
/// happens outside the core; the core only ever reads these fields.
#[derive(Debug, Clone)]
pub struct Config {
    pub rust_log_level: String,
    pub endpoint: String,
    pub auth_token: String,
    pub pump_fun_fee_account: String,
    pub pump_fun_program: String,
}

} // verus!
