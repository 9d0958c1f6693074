//! Building the executable path, classpath and argument list for the spawn.

use vstd::prelude::*;
use crate::paths::install_dir_of;

verus! {

/// The two operating-system families the launcher distinguishes.  They
/// differ only in the name of the Java runtime's graphical launcher binary.
#[derive(Clone, Copy, PartialEq, Eq, Structural, Debug)]
pub enum Platform {
    Windows,
    Unix,
}

/// The relative path, below a runtime home, of the runtime's graphical
/// launcher binary.  Both families use a backslash separator; for the Unix
/// family this keeps a long-standing quirk of the launcher rather than Unix
/// path convention.
pub open spec fn javaw_suffix(platform: Platform) -> Seq<char> {
    match platform {
        Platform::Windows => "\\bin\\javaw.exe"@,
        Platform::Unix => "\\bin\\javaw"@,
    }
}

/// The suffix appended to the install directory to form the classpath
/// argument: every jar in the sibling `lib` directory.
pub open spec fn lib_suffix() -> Seq<char> {
    "\\lib\\*"@
}

/// The name of the application class handed to the Java runtime.
pub open spec fn entry_point_name() -> Seq<char> {
    "jGnash"@
}

/// Everything one process spawn needs: the program to run, the classpath
/// argument, and the application entry point.
pub struct LaunchSpec {
    pub java_exe: String,
    pub class_path: String,
    pub entry_point: String,
}

impl LaunchSpec {
    /// A well-formed launch spec names the fixed application entry point.
    pub open spec fn wf(self) -> bool {
        self.entry_point@ == entry_point_name()
    }

    /// The argument vector handed to the spawned process: always exactly
    /// three arguments, in order `-classpath`, the classpath, the entry
    /// point.
    pub fn arguments(&self) -> (args: Vec<String>)
        ensures
            args@.len() == 3,
            args@[0]@ == "-classpath"@,
            args@[1]@ == self.class_path@,
            args@[2]@ == self.entry_point@,
            self.wf() ==> args@[2]@ == entry_point_name(),
    {
        let mut args: Vec<String> = Vec::new();
        args.push(String::from_str("-classpath"));
        args.push(self.class_path.clone());
        args.push(self.entry_point.clone());
        args
    }
}

/// Build the launch specification for a discovered runtime home: the
/// runtime's launcher binary below `java_home`, and a classpath over the
/// `lib` directory beside the launcher's own executable.
pub fn launch_jgnash(platform: Platform, java_home: String, exe_path: Option<String>) -> (r: LaunchSpec)
    ensures
        r.java_exe@ == java_home@ + javaw_suffix(platform),
        r.class_path@ == install_dir_of(exe_path) + lib_suffix(),
        r.entry_point@ == entry_point_name(),
        r.wf(),
{
    let java_exe: String = match platform {
        Platform::Windows => java_home.concat("\\bin\\javaw.exe"),
        Platform::Unix => java_home.concat("\\bin\\javaw"),
    };
    let class_path: String = crate::paths::get_execution_path(exe_path).concat("\\lib\\*");
    LaunchSpec { java_exe, class_path, entry_point: String::from_str("jGnash") }
}

} // verus!
