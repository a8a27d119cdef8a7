use vstd::prelude::*;

verus! {

/// The gateway's settings: where it listens, how it logs, and the base
/// address of each backend service.
#[derive(Debug)]
pub struct Config {
    pub listen_address: String,
    pub log_level: String,
    pub log_format: String,
    pub auth_service_address: String,
    pub upload_service_address: String,
    pub sms_verification_code_service_address: String,
    pub dog_service_address: String,
    pub walk_request_service_address: String,
}

impl Config {
    /// Settings from their sources; a log level or format that is not given
    /// takes its default (`info`, and `%t %s %r %a %D`).
    pub fn new(
        listen_address: String,
        log_level: Option<String>,
        log_format: Option<String>,
        auth_service_address: String,
        upload_service_address: String,
        sms_verification_code_service_address: String,
        dog_service_address: String,
        walk_request_service_address: String,
    ) -> (r: Config)
        ensures
            r.listen_address == listen_address,
            log_level matches Some(l) ==> r.log_level == l,
            log_level is None ==> r.log_level@ == "info"@,
            log_format matches Some(f) ==> r.log_format == f,
            log_format is None ==> r.log_format@ == "%t %s %r %a %D"@,
            r.auth_service_address == auth_service_address,
            r.upload_service_address == upload_service_address,
            r.sms_verification_code_service_address == sms_verification_code_service_address,
            r.dog_service_address == dog_service_address,
            r.walk_request_service_address == walk_request_service_address,
    {
        let log_level = match log_level {
            Some(l) => l,
            None => String::from_str("info"),
        };
        let log_format = match log_format {
            Some(f) => f,
            None => String::from_str("%t %s %r %a %D"),
        };
        Config {
            listen_address,
            log_level,
            log_format,
            auth_service_address,
            upload_service_address,
            sms_verification_code_service_address,
            dog_service_address,
            walk_request_service_address,
        }
    }
}

} // verus!
