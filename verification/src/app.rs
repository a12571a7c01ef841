//! Application settings.
use vstd::prelude::*;

verus! {

/// Settings the bot is started with.
pub struct Config {
    /// Connection string of the database.
    pub db_url: String,
    /// Version of the bot, shown by the help command.
    pub version: String,
}

/// The running application and its settings.
pub struct Application {
    config: Config,
}

impl Application {
    /// The settings this application was built with.
    pub closed spec fn settings(&self) -> Config {
        self.config
    }

    /// Builds the application from its loaded settings.
    pub fn new(config: Config) -> (app: Application)
        ensures
            app.settings() == config,
    {
        Application { config }
    }

    /// The version text of the running bot.
    pub fn version(&self) -> (v: &str)
        ensures
            v@ == self.settings().version@,
    {
        self.config.version.as_str()
    }
}

} // verus!
