use vstd::prelude::*;
use vstd::string::StringExecFns;

verus! {

/// Folder of the IGS export helper's settings file.
pub const CONFIG_DIR: &'static str = "C:\\ProgramData\\dece1ver\\IGS Postexp\\";
/// The IGS export helper's settings file.
pub const CONFIG_PATH: &'static str = "C:\\ProgramData\\dece1ver\\IGS Postexp\\config.yml";
/// What the name of a log file that the sweep deletes contains.
pub const LOG_MARKER: &'static str = "log";

/// Command-line switches of the IGS export helper.
#[derive(Debug, Clone, Copy, PartialEq, Eq, Structural)]
pub struct Args {
    /// Print debug messages.
    pub debug: bool,
    /// Reset to default settings.
    pub reset: bool,
    /// Open the settings file.
    pub config: bool,
}

/// Settings of the IGS export helper.
#[derive(Debug, PartialEq, Eq)]
pub struct AppConfig {
    /// The folder the CAD system exports IGS files to.
    pub output_path: String,
    /// Delete the CAD system's numbered log files from that folder.
    pub clear_logs: bool,
    /// Exit without waiting for a key.
    pub autoclose: bool,
}

/// The default export folder of the user named `user`.
pub open spec fn default_output_path(user: Seq<char>) -> Seq<char> {
    "Z:\\Creo Settings WNC\\"@ + user + "_6_0\\IGS"@
}

/// `c` is the default settings of the user named `user`.
pub open spec fn is_default_for(c: AppConfig, user: Seq<char>) -> bool {
    &&& c.output_path@ == default_output_path(user)
    &&& c.clear_logs
    &&& !c.autoclose
}

impl AppConfig {
    /// The default settings of the user named `user`.
    pub fn default_for_user(user: &str) -> (r: AppConfig)
        ensures
            is_default_for(r, user@),
    {
        let mut output_path = String::from_str("Z:\\Creo Settings WNC\\");
        output_path.append(user);
        output_path.append("_6_0\\IGS");
        AppConfig { output_path, clear_logs: true, autoclose: false }
    }
}

impl Default for AppConfig {
    /// The default settings of the user running the process.
    fn default() -> (r: AppConfig)
        ensures
            exists|user: Seq<char>| is_default_for(r, user),
    {
        let user = whoami::username();
        AppConfig::default_for_user(user.as_str())
    }
}

/// Extensions of the exported drawings that are handed on.
pub fn export_extensions() -> (r: Vec<String>)
    ensures
        r@.len() == 1,
        r@[0]@ == "igs"@,
{
    let mut r: Vec<String> = Vec::new();
    r.push(String::from_str("igs"));
    r
}

/// Extensions of the numbered log files that the sweep deletes.
pub fn log_extensions() -> (r: Vec<String>)
    ensures
        r@.len() == 3,
        r@[0]@ == "1"@,
        r@[1]@ == "2"@,
        r@[2]@ == "3"@,
{
    let mut r: Vec<String> = Vec::new();
    r.push(String::from_str("1"));
    r.push(String::from_str("2"));
    r.push(String::from_str("3"));
    r
}

} // verus!
