use vstd::prelude::*;
use vstd::string::StringExecFns;

verus! {

/// User agent used when no custom one is configured.
pub open spec fn default_ua() -> Seq<char> {
    "Mozilla/5.0 (Linux; Android 6.0; Nexus 5 Build/MRA58N) AppleWebKit/537.36 (KHTML, like Gecko) Chrome/134.0.0.0 Mobile Safari/537.36"@
}

/// User-tunable behaviour.
#[derive(Clone, Debug)]
pub struct CustomConfig {
    pub open_custom_ua: bool,
    pub custom_ua: String,
    /// 0 local solving, 1 the remote recognition service.
    pub captcha_mode: usize,
    pub ttocr_key: String,
    pub preinput_phone1: String,
    pub preinput_phone2: String,
    pub enable_token_verify: bool,
    pub enable_random_interval: bool,
    /// On vendor code 90002: 0 wait and go on, 1 stop.
    pub error_90002_action: usize,
}

impl CustomConfig {
    pub fn new() -> (r: CustomConfig)
        ensures
            r.open_custom_ua,
            r.custom_ua@ == default_ua(),
            r.captcha_mode == 0,
            r.ttocr_key@.len() == 0,
            r.preinput_phone1@.len() == 0,
            r.preinput_phone2@.len() == 0,
            r.enable_token_verify,
            r.enable_random_interval,
            r.error_90002_action == 0,
    {
        CustomConfig {
            open_custom_ua: true,
            custom_ua: String::from_str(
                "Mozilla/5.0 (Linux; Android 6.0; Nexus 5 Build/MRA58N) AppleWebKit/537.36 (KHTML, like Gecko) Chrome/134.0.0.0 Mobile Safari/537.36",
            ),
            captcha_mode: 0,
            ttocr_key: String::new(),
            preinput_phone1: String::new(),
            preinput_phone2: String::new(),
            enable_token_verify: true,
            enable_random_interval: true,
            error_90002_action: 0,
        }
    }
}

} // verus!
