//! The saved preferences and the session credential, as plain values.

use vstd::prelude::*;
use crate::text::push_str;

verus! {

/// The user's saved preferences.
#[derive(Debug, Clone)]
pub struct AppConfig {
    /// Directory that finished files are written to.
    pub save_path: String,
}

impl Default for AppConfig {
    fn default() -> (r: Self)
        ensures
            r.save_path@ == "./download"@,
    {
        AppConfig { save_path: String::from_str("./download") }
    }
}

/// The preferences in use while the program runs.
#[derive(Debug, Clone)]
pub struct ConfigState {
    pub config: AppConfig,
}

impl ConfigState {
    /// The preferences that were loaded, or the defaults when none could be.
    pub fn new(loaded: Option<AppConfig>) -> (r: Self)
        ensures
            loaded matches Some(c) ==> r.config.save_path@ == c.save_path@,
            loaded is None ==> r.config.save_path@ == "./download"@,
    {
        let config = match loaded {
            Some(c) => c,
            None => AppConfig::default(),
        };
        ConfigState { config }
    }

    /// The directory that finished files go to.
    pub fn save_path(&self) -> (r: String)
        ensures
            r@ == self.config.save_path@,
    {
        self.config.save_path.clone()
    }

    /// Changes the directory that finished files go to.
    pub fn set_save_path(&mut self, path: String)
        ensures
            final(self).config.save_path@ == path@,
    {
        self.config.save_path = path;
    }
}

/// The session credential kept between runs.
#[allow(non_snake_case)]
#[derive(Debug, Clone)]
pub struct Cookies {
    pub SESSDATA: String,
    pub bili_jct: String,
    pub refresh_token: String,
}

impl Cookies {
    /// No credential: requests go out unauthenticated.
    pub fn empty() -> (r: Self)
        ensures
            r.SESSDATA@.len() == 0,
            r.bili_jct@.len() == 0,
            r.refresh_token@.len() == 0,
    {
        Cookies { SESSDATA: String::new(), bili_jct: String::new(), refresh_token: String::new() }
    }

    /// The `Cookie` header value that carries the session.
    pub fn cookie_header(&self) -> (r: String)
        ensures
            r@ == "SESSDATA="@ + self.SESSDATA@,
    {
        let mut r = String::from_str("SESSDATA=");
        push_str(&mut r, self.SESSDATA.as_str());
        r
    }
}

/// The `User-Agent` header sent with every request.
pub fn user_agent() -> (r: &'static str)
    ensures
        r@ == "Mozilla/5.0 (Windows NT 10.0; Win64; x64) AppleWebKit/537.36 (KHTML, like Gecko) Chrome/126.0.0.0 Safari/537.36"@,
{
    "Mozilla/5.0 (Windows NT 10.0; Win64; x64) AppleWebKit/537.36 (KHTML, like Gecko) Chrome/126.0.0.0 Safari/537.36"
}

/// The `Referer` header sent with content requests.
pub fn referer() -> (r: &'static str)
    ensures
        r@ == "https://www.bilibili.com"@,
{
    "https://www.bilibili.com"
}

} // verus!
