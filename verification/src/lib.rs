//! A minimal launcher for a Java desktop application.
//!
//! The library holds the whole decision logic of the launcher: deriving the
//! install directory from the current executable's path, building the path of
//! the Java runtime binary and the classpath argument, and choosing between
//! launching the application and showing an error dialog.  The surrounding
//! binary performs the environment probe, the dialog, and the process spawn.

pub mod launch;
pub mod paths;
pub mod program;
