use vstd::prelude::*;

verus! {

/// Mail settings of the notification channels.
#[derive(Clone, Debug)]
pub struct SmtpConfig {
    pub smtp_server: String,
    pub smtp_port: String,
    pub smtp_username: String,
    pub smtp_password: String,
    pub smtp_from: String,
    pub smtp_to: String,
}

/// Notification channels and their tokens.
#[derive(Clone, Debug)]
pub struct PushConfig {
    pub enabled: bool,
    pub bark_token: String,
    pub pushplus_token: String,
    pub fangtang_token: String,
    pub dingtalk_token: String,
    pub wechat_token: String,
    pub smtp_config: SmtpConfig,
}

impl SmtpConfig {
    /// Empty mail settings.
    pub open spec fn is_blank(&self) -> bool {
        &&& self.smtp_server@.len() == 0 && self.smtp_port@.len() == 0
        &&& self.smtp_username@.len() == 0 && self.smtp_password@.len() == 0
        &&& self.smtp_from@.len() == 0 && self.smtp_to@.len() == 0
    }

    pub fn new() -> (r: SmtpConfig)
        ensures
            r.is_blank(),
    {
        SmtpConfig {
            smtp_server: String::new(),
            smtp_port: String::new(),
            smtp_username: String::new(),
            smtp_password: String::new(),
            smtp_from: String::new(),
            smtp_to: String::new(),
        }
    }
}

impl PushConfig {
    /// Notifications off, no channel configured.
    pub fn new() -> (r: PushConfig)
        ensures
            !r.enabled,
            r.bark_token@.len() == 0,
            r.pushplus_token@.len() == 0,
            r.fangtang_token@.len() == 0,
            r.dingtalk_token@.len() == 0,
            r.wechat_token@.len() == 0,
            r.smtp_config.is_blank(),
    {
        PushConfig {
            enabled: false,
            bark_token: String::new(),
            pushplus_token: String::new(),
            fangtang_token: String::new(),
            dingtalk_token: String::new(),
            wechat_token: String::new(),
            smtp_config: SmtpConfig::new(),
        }
    }
}

} // verus!
