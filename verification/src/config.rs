//! Persisted user configuration, as plain data.
//!
//! Reading and writing the configuration file is I/O and lives with the
//! host; these types carry the values the rest of the library consumes —
//! in particular the "natural scrolling" flag the input translator honors.

use vstd::prelude::*;

verus! {

/// Credentials for one chat account.
#[derive(Debug, Clone)]
pub struct Account {
    pub username: String,
    pub token: String,
}

impl Account {
    pub fn new(username: String, token: String) -> (r: Account)
        ensures
            r.username@ == username@,
            r.token@ == token@,
    {
        Account { username, token }
    }
}

/// User-interface options.
#[derive(Debug, Clone)]
pub struct UiConfig {
    pub natural_scrolling: bool,
}

impl Default for UiConfig {
    fn default() -> (r: UiConfig)
        ensures
            r.natural_scrolling == false,
    {
        UiConfig { natural_scrolling: false }
    }
}

/// The whole persisted configuration: accounts, joined chats, and the
/// user-interface options.
#[derive(Debug, Clone)]
pub struct Config {
    pub accounts: Vec<Account>,
    pub chats: Vec<String>,
    pub ui: UiConfig,
}

impl Default for Config {
    fn default() -> (r: Config)
        ensures
            r.accounts@.len() == 0,
            r.chats@.len() == 0,
            r.ui.natural_scrolling == false,
    {
        Config { accounts: Vec::new(), chats: Vec::new(), ui: UiConfig { natural_scrolling: false } }
    }
}

} // verus!
