//! Login page with QR code display

use vstd::prelude::*;
use crate::api::models::{QrcodeData, QrcodePollResult, QrcodePollStatus, poll_status_of};
use crate::app::AppAction;
use crate::storage::{Credentials, Keybindings, cookie_views, last_cookie};
use crate::ui::{Key, key_matches};

verus! {

/// The time between two polls of the login, in nanoseconds.
pub const POLL_INTERVAL_NANOS: u64 = 2_000_000_000;

pub struct LoginPage {
    pub qrcode_data: Option<QrcodeData>,
    pub error_message: Option<String>,
    pub poll_status: QrcodePollStatus,
    /// When the login was last polled, in nanoseconds of a monotonic clock.
    pub last_poll: Option<u64>,
}

/// How a status line is coloured.
#[derive(Debug, PartialEq, Eq, Structural, Clone, Copy)]
pub enum StatusTone {
    Warning,
    Info,
    Success,
    Error,
    Secondary,
}

/// The status line shown for a login status.
pub open spec fn status_line(status: QrcodePollStatus) -> (Seq<char>, StatusTone) {
    match status {
        QrcodePollStatus::Waiting => ("⏳ 等待扫描二维码..."@, StatusTone::Warning),
        QrcodePollStatus::Scanned => ("📱 已扫描，请在手机上确认登录"@, StatusTone::Info),
        QrcodePollStatus::Success => ("✅ 登录成功！"@, StatusTone::Success),
        QrcodePollStatus::Expired => ("❌ 二维码已过期，请按 r 刷新"@, StatusTone::Error),
        QrcodePollStatus::Unknown(_) => ("❓ 未知状态"@, StatusTone::Secondary),
    }
}

/// Whether a poll is due at time `now`: never polled, or polled more than
/// two seconds before (a clock that went back counts as no time passed).
pub open spec fn poll_due_at(last_poll: Option<u64>, now: u64) -> bool {
    match last_poll {
        Some(t) => {
            let elapsed: int = if now >= t { now - t } else { 0 };
            elapsed > POLL_INTERVAL_NANOS
        },
        None => true,
    }
}

/// A poll made at time `t` makes the next one due only once more than the
/// poll interval has passed, and then it is due.
pub proof fn lemma_poll_spacing(t: u64, now: u64)
    ensures
        t <= now <= t + POLL_INTERVAL_NANOS ==> !poll_due_at(Some(t), now),
        now > t + POLL_INTERVAL_NANOS ==> poll_due_at(Some(t), now),
        poll_due_at(None, now),
{
}

impl LoginPage {
    /// The state of a login just opened: no QR code yet, waiting.
    pub open spec fn is_fresh(&self) -> bool {
        &&& self.qrcode_data is None
        &&& self.error_message is None
        &&& self.poll_status == QrcodePollStatus::Waiting
        &&& self.last_poll is None
    }

    /// A page without QR code yet, waiting.
    pub fn new() -> (r: Self)
        ensures
            r.is_fresh(),
    {
        LoginPage { qrcode_data: None, error_message: None, poll_status: QrcodePollStatus::Waiting, last_poll: None }
    }

    /// Takes in a freshly issued QR code, which restarts the login; or the
    /// error of issuing it, which is shown.
    pub fn finish_load_qrcode(&mut self, result: Result<QrcodeData, String>)
        ensures
            match result {
                Ok(data) => {
                    &&& final(self).qrcode_data == Some(data)
                    &&& final(self).error_message is None
                    &&& final(self).poll_status == QrcodePollStatus::Waiting
                    &&& final(self).last_poll is None
                },
                Err(e) => {
                    &&& final(self).error_message matches Some(m) && m@ == "获取二维码失败: "@ + e@
                    &&& final(self).qrcode_data == old(self).qrcode_data
                    &&& final(self).poll_status == old(self).poll_status
                    &&& final(self).last_poll == old(self).last_poll
                },
            },
    {
        match result {
            Ok(data) => {
                self.qrcode_data = Some(data);
                self.error_message = None;
                self.poll_status = QrcodePollStatus::Waiting;
                self.last_poll = None;
            },
            Err(e) => {
                let mut m = String::from_str("获取二维码失败: ");
                m.append(e.as_str());
                self.error_message = Some(m);
            },
        }
    }

    /// Decides whether to poll the login at time `now` (nanoseconds of a
    /// monotonic clock): only with a QR code, while the login has neither
    /// succeeded nor expired, and when a poll is due. Returns the key of the
    /// QR code to poll, and records the poll time.
    pub fn poll_due(&mut self, now: u64) -> (r: Option<String>)
        ensures
            final(self).qrcode_data == old(self).qrcode_data,
            final(self).error_message == old(self).error_message,
            final(self).poll_status == old(self).poll_status,
            ({
                let due = old(self).qrcode_data is Some
                    && !(old(self).poll_status == QrcodePollStatus::Success || old(self).poll_status == QrcodePollStatus::Expired)
                    && poll_due_at(old(self).last_poll, now);
                &&& due ==> (r matches Some(k) && k@ == old(self).qrcode_data->0.qrcode_key@)
                &&& due ==> final(self).last_poll == Some(now)
                &&& !due ==> r is None && final(self).last_poll == old(self).last_poll
            }),
    {
        let key = match &self.qrcode_data {
            Some(data) => data.qrcode_key.clone(),
            None => return None,
        };
        match self.poll_status {
            QrcodePollStatus::Success | QrcodePollStatus::Expired => return None,
            _ => {},
        }
        let due = match self.last_poll {
            Some(t) => {
                let elapsed = if now >= t { now - t } else { 0 };
                elapsed > POLL_INTERVAL_NANOS
            },
            None => true,
        };
        if !due {
            return None;
        }
        self.last_poll = Some(now);
        Some(key)
    }

    /// Takes in the outcome of a poll. A reply with data sets the status its
    /// code stands for; when that is success and the reply's cookies hold
    /// the credentials, the login succeeds with them and the reply's refresh
    /// token. A failed poll is shown as an error.
    pub fn on_poll_result(&mut self, result: Result<QrcodePollResult, String>) -> (r: Option<AppAction>)
        ensures
            final(self).qrcode_data == old(self).qrcode_data,
            final(self).last_poll == old(self).last_poll,
            match result {
                Ok(res) => {
                    &&& final(self).error_message == old(self).error_message
                    &&& match res.data {
                        Some(d) => {
                            let cs = cookie_views(res.cookies@);
                            &&& final(self).poll_status == poll_status_of(d.code)
                            &&& (r is Some <==> (poll_status_of(d.code) == QrcodePollStatus::Success
                                && last_cookie(cs, "SESSDATA"@) is Some
                                && last_cookie(cs, "bili_jct"@) is Some
                                && last_cookie(cs, "DedeUserID"@) is Some))
                            &&& r matches Some(a) ==> (a matches AppAction::LoginSuccess(c) && {
                                &&& Some(c.sessdata@) == last_cookie(cs, "SESSDATA"@)
                                &&& Some(c.bili_jct@) == last_cookie(cs, "bili_jct"@)
                                &&& Some(c.dede_user_id@) == last_cookie(cs, "DedeUserID"@)
                                &&& c.refresh_token == Some(d.refresh_token)
                            })
                        },
                        None => r is None && final(self).poll_status == old(self).poll_status,
                    }
                },
                Err(e) => {
                    &&& r is None
                    &&& final(self).poll_status == old(self).poll_status
                    &&& final(self).error_message matches Some(m) && m@ == "轮询失败: "@ + e@
                },
            },
    {
        match result {
            Ok(res) => {
                match res.data {
                    Some(d) => {
                        self.poll_status = QrcodePollStatus::from_code(d.code);
                        if self.poll_status == QrcodePollStatus::Success {
                            match Credentials::from_cookies(res.cookies.as_slice(), Some(d.refresh_token)) {
                                Some(creds) => {
                                    return Some(AppAction::LoginSuccess(creds));
                                },
                                None => {},
                            }
                        }
                        None
                    },
                    None => None,
                }
            },
            Err(e) => {
                let mut m = String::from_str("轮询失败: ");
                m.append(e.as_str());
                self.error_message = Some(m);
                None
            },
        }
    }

    /// The status line to show and how to colour it.
    pub fn status_text(&self) -> (r: (&'static str, StatusTone))
        ensures
            (r.0@, r.1) == status_line(self.poll_status),
    {
        match self.poll_status {
            QrcodePollStatus::Waiting => ("⏳ 等待扫描二维码...", StatusTone::Warning),
            QrcodePollStatus::Scanned => ("📱 已扫描，请在手机上确认登录", StatusTone::Info),
            QrcodePollStatus::Success => ("✅ 登录成功！", StatusTone::Success),
            QrcodePollStatus::Expired => ("❌ 二维码已过期，请按 r 刷新", StatusTone::Error),
            QrcodePollStatus::Unknown(_) => ("❓ 未知状态", StatusTone::Secondary),
        }
    }

    /// What a key does to the page with the bindings `keys`: the page after it, and the action asked for.
    pub open spec fn key_outcome(a: Self, keys: Keybindings, key: Key, b: Self, r: Option<AppAction>) -> bool {
        &&& (key_matches(keys.quit@, key) ==> r == Some(AppAction::Quit) && b == a)
        &&& (!key_matches(keys.quit@, key) && key_matches(keys.refresh@, key) ==> {
            &&& r == Some(AppAction::SwitchToLogin)
            &&& b.qrcode_data is None
            &&& b.poll_status == QrcodePollStatus::Waiting
            &&& b.error_message == a.error_message
            &&& b.last_poll == a.last_poll
        })
        &&& (!key_matches(keys.quit@, key) && !key_matches(keys.refresh@, key) ==> r == Some(AppAction::NoOp)
            && b == a)
    }

    /// Reacts to a key: the quit binding quits; the refresh binding drops
    /// the QR code and asks for a new one; any other key does nothing.
    pub fn handle_input(&mut self, key: Key, keys: &Keybindings) -> (r: Option<AppAction>)
        ensures
            Self::key_outcome(*old(self), *keys, key, *final(self), r),
    {
        if key.matches(keys.quit.as_str()) {
            return Some(AppAction::Quit);
        }
        if key.matches(keys.refresh.as_str()) {
            self.qrcode_data = None;
            self.poll_status = QrcodePollStatus::Waiting;
            return Some(AppAction::SwitchToLogin);
        }
        Some(AppAction::NoOp)
    }
}

impl Default for LoginPage {
    fn default() -> (r: Self)
        ensures
            r.is_fresh(),
    {
        Self::new()
    }
}

} // verus!
