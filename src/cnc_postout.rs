use vstd::prelude::*;
use vstd::string::StringExecFns;

verus! {

/// Folder of the CNC output helper's settings file.
pub const CONFIG_DIR: &'static str = "C:\\ProgramData\\dece1ver\\CNC Postout\\";
/// The CNC output helper's settings file.
pub const CONFIG_PATH: &'static str = "C:\\ProgramData\\dece1ver\\CNC Postout\\config.yml";

/// Command-line switches of the CNC output helper.
#[derive(Debug, Clone, Copy, PartialEq, Eq, Structural)]
pub struct Args {
    /// Print debug messages.
    pub debug: bool,
    /// Reset to default settings.
    pub reset: bool,
    /// Open the settings file.
    pub config: bool,
}

/// Settings of the CNC output helper.
#[derive(Debug, PartialEq, Eq)]
pub struct AppConfig {
    /// The editor that opens a program first.
    pub cimco_path: String,
    /// The program that opens it when the editor cannot start.
    pub fallback_program: String,
    /// The folder the CAM system writes programs to.
    pub output_path: String,
    /// Extensions of NC programs, lowercase, without the dot.
    pub support_extensions: Vec<String>,
    /// Exit without waiting for a key.
    pub autoclose: bool,
}

/// The default output folder of the user named `user`.
pub open spec fn default_output_path(user: Seq<char>) -> Seq<char> {
    "Z:\\Creo Settings WNC\\"@ + user + "_6_0\\NC_OUT"@
}

/// The default list of program extensions.
pub open spec fn default_extensions() -> Seq<Seq<char>> {
    seq!["nc"@, "eia"@, "mpf"@, "spf"@, "tap"@, "pbg"@, "h"@]
}

/// `c` is the default settings of the user named `user`.
pub open spec fn is_default_for(c: AppConfig, user: Seq<char>) -> bool {
    &&& c.cimco_path@ == "C:\\CIMCO\\CIMCOEdit8\\CIMCOEdit.exe"@
    &&& c.fallback_program@ == "notepad"@
    &&& c.output_path@ == default_output_path(user)
    &&& c.support_extensions@.len() == default_extensions().len()
    &&& forall|i: int| 0 <= i < default_extensions().len()
        ==> #[trigger] c.support_extensions@[i]@ == default_extensions()[i]
    &&& !c.autoclose
}

impl AppConfig {
    /// The default settings of the user named `user`.
    pub fn default_for_user(user: &str) -> (r: AppConfig)
        ensures
            is_default_for(r, user@),
    {
        let mut output_path = String::from_str("Z:\\Creo Settings WNC\\");
        output_path.append(user);
        output_path.append("_6_0\\NC_OUT");
        let mut support_extensions: Vec<String> = Vec::new();
        support_extensions.push(String::from_str("nc"));
        support_extensions.push(String::from_str("eia"));
        support_extensions.push(String::from_str("mpf"));
        support_extensions.push(String::from_str("spf"));
        support_extensions.push(String::from_str("tap"));
        support_extensions.push(String::from_str("pbg"));
        support_extensions.push(String::from_str("h"));
        AppConfig {
            cimco_path: String::from_str("C:\\CIMCO\\CIMCOEdit8\\CIMCOEdit.exe"),
            fallback_program: String::from_str("notepad"),
            output_path,
            support_extensions,
            autoclose: false,
        }
    }

    /// The programs to open a selected file with, in the order they are tried.
    pub fn programs(&self) -> (r: Vec<String>)
        ensures
            r@.len() == 2,
            r@[0] == self.cimco_path,
            r@[1] == self.fallback_program,
    {
        let mut r: Vec<String> = Vec::new();
        r.push(self.cimco_path.clone());
        r.push(self.fallback_program.clone());
        r
    }
}

impl Default for AppConfig {
    /// The default settings of the user running the process.
    fn default() -> (r: AppConfig)
        ensures
            exists|user: Seq<char>| is_default_for(r, user),
    {
        let user = whoami::username();
        AppConfig::default_for_user(user.as_str())
    }
}

} // verus!
