//! Running the agent as a background service: the capability every platform
//! offers, and the launch agent definition used on macOS.

use vstd::prelude::*;

verus! {

/// Installing and controlling the agent as a background service of the
/// platform. Errors carry a description of what failed.
pub trait BackgroundService {
    fn install(&self) -> Result<(), String>;

    fn uninstall(&self) -> Result<(), String>;

    fn start(&self) -> Result<(), String>;

    fn stop(&self) -> Result<(), String>;

    fn is_installed(&self) -> Result<bool, String>;

    fn is_running(&self) -> Result<bool, String>;
}

/// The opening of a launch agent definition, up to its label's name.
pub const PLIST_HEAD: &'static str = "<?xml version=\"1.0\" encoding=\"UTF-8\"?>
<!DOCTYPE plist PUBLIC \"-//Apple//DTD PLIST 1.0//EN\" \"http://www.apple.com/DTDs/PropertyList-1.0.dtd\">
<plist version=\"1.0\">
<dict>
    <key>Label</key>
    <string>com.";

/// From the label to the program's path.
pub const PLIST_PROGRAM: &'static str = "</string>
    <key>ProgramArguments</key>
    <array>
        <string>";

/// From the program's path to the error log's directory.
pub const PLIST_ERROR_LOG: &'static str = "</string>
    </array>
    <key>RunAtLoad</key>
    <true/>
    <key>KeepAlive</key>
    <true/>
    <key>StandardErrorPath</key>
    <string>";

/// From the error log's name to the output log's directory.
pub const PLIST_OUTPUT_LOG: &'static str = ".log</string>
    <key>StandardOutPath</key>
    <string>";

/// The closing of the definition, after the output log's name.
pub const PLIST_TAIL: &'static str = ".log</string>
</dict>
</plist>";

/// The launchd label of a service named `name`.
pub open spec fn label_of(name: Seq<char>) -> Seq<char> {
    "com."@ + name
}

/// Where the launch agent definition of `name` lives under `home`.
pub open spec fn plist_path_of(name: Seq<char>, home: Seq<char>) -> Seq<char> {
    home + "/Library/LaunchAgents/"@ + label_of(name) + ".plist"@
}

/// The log file of `name` under `home`, without its extension.
pub open spec fn log_stem(name: Seq<char>, home: Seq<char>) -> Seq<char> {
    home + "/Library/Logs/"@ + name
}

/// The launch agent definition: run `executable` at load, keep it alive, and
/// send both output streams to the service's log.
pub open spec fn plist_text(name: Seq<char>, executable: Seq<char>, home: Seq<char>) -> Seq<char> {
    PLIST_HEAD@ + name + PLIST_PROGRAM@ + executable + PLIST_ERROR_LOG@ + log_stem(name, home)
        + PLIST_OUTPUT_LOG@ + log_stem(name, home) + PLIST_TAIL@
}

/// A service registered with launchd as a per-user launch agent.
pub struct MacOsService {
    name: String,
    display_name: String,
    description: String,
    executable_path: String,
}

impl MacOsService {
    pub closed spec fn spec_name(&self) -> Seq<char> {
        self.name@
    }

    pub closed spec fn spec_display_name(&self) -> Seq<char> {
        self.display_name@
    }

    pub closed spec fn spec_description(&self) -> Seq<char> {
        self.description@
    }

    pub closed spec fn spec_executable_path(&self) -> Seq<char> {
        self.executable_path@
    }

    pub fn new(name: &str, display_name: &str, description: &str, executable_path: String) -> (r:
        Self)
        ensures
            r.spec_name() == name@,
            r.spec_display_name() == display_name@,
            r.spec_description() == description@,
            r.spec_executable_path() == executable_path@,
    {
        MacOsService {
            name: String::from_str(name),
            display_name: String::from_str(display_name),
            description: String::from_str(description),
            executable_path,
        }
    }

    pub fn name(&self) -> (r: &String)
        ensures
            r@ == self.spec_name(),
    {
        &self.name
    }

    pub fn display_name(&self) -> (r: &String)
        ensures
            r@ == self.spec_display_name(),
    {
        &self.display_name
    }

    pub fn description(&self) -> (r: &String)
        ensures
            r@ == self.spec_description(),
    {
        &self.description
    }

    pub fn executable_path(&self) -> (r: &String)
        ensures
            r@ == self.spec_executable_path(),
    {
        &self.executable_path
    }

    /// The launchd label: "com." followed by the name.
    pub fn label(&self) -> (r: String)
        ensures
            r@ == label_of(self.spec_name()),
    {
        let mut s = String::from_str("com.");
        s.append(self.name.as_str());
        s
    }

    /// The path of the launch agent definition for the user whose home
    /// directory is `home`.
    pub fn plist_path(&self, home: &str) -> (r: String)
        ensures
            r@ == plist_path_of(self.spec_name(), home@),
    {
        let mut s = String::from_str(home);
        s.append("/Library/LaunchAgents/");
        let label = self.label();
        s.append(label.as_str());
        s.append(".plist");
        assert(s@ =~= plist_path_of(self.spec_name(), home@));
        s
    }

    /// The launch agent definition for the user whose home directory is `home`.
    pub fn plist_content(&self, home: &str) -> (r: String)
        ensures
            r@ == plist_text(self.spec_name(), self.spec_executable_path(), home@),
    {
        let mut s = String::from_str(PLIST_HEAD);
        s.append(self.name.as_str());
        s.append(PLIST_PROGRAM);
        s.append(self.executable_path.as_str());
        s.append(PLIST_ERROR_LOG);
        s.append(home);
        s.append("/Library/Logs/");
        s.append(self.name.as_str());
        s.append(PLIST_OUTPUT_LOG);
        s.append(home);
        s.append("/Library/Logs/");
        s.append(self.name.as_str());
        s.append(PLIST_TAIL);
        assert(s@ =~= plist_text(self.spec_name(), self.spec_executable_path(), home@));
        s
    }
}

} // verus!
