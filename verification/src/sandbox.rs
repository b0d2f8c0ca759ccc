//! Sandboxes: where an agent's commands would run in isolation. Only a stub
//! exists, which refuses to start.
use vstd::prelude::*;

verus! {

/// What a sandbox offers.
pub trait SandboxProvider {
    fn start(&self) -> Result<(), String>;

    fn stop(&self) -> Result<(), String>;

    fn run(&self, command: &str) -> Result<String, String>;

    fn read_file(&self, path: &str) -> Result<String, String>;

    fn write_file(&self, path: &str, content: &str) -> Result<(), String>;

    fn repo_path(&self) -> &str;
}

/// The sandbox that is not available: starting fails, stopping succeeds, and
/// everything else fails.
pub struct StubSandbox;

impl SandboxProvider for StubSandbox {
    fn start(&self) -> (r: Result<(), String>)
        ensures
            r matches Err(e) && e@
                == "Sandbox mode is not yet available in the Rust version of gitclaw. Use the TypeScript version for sandbox support."@,
    {
        Err(
            "Sandbox mode is not yet available in the Rust version of gitclaw. Use the TypeScript version for sandbox support.".to_owned(),
        )
    }

    fn stop(&self) -> (r: Result<(), String>)
        ensures
            r is Ok,
    {
        Ok(())
    }

    fn run(&self, command: &str) -> (r: Result<String, String>)
        ensures
            r matches Err(e) && e@ == "Sandbox not available"@,
    {
        Err("Sandbox not available".to_owned())
    }

    fn read_file(&self, path: &str) -> (r: Result<String, String>)
        ensures
            r matches Err(e) && e@ == "Sandbox not available"@,
    {
        Err("Sandbox not available".to_owned())
    }

    fn write_file(&self, path: &str, content: &str) -> (r: Result<(), String>)
        ensures
            r matches Err(e) && e@ == "Sandbox not available"@,
    {
        Err("Sandbox not available".to_owned())
    }

    fn repo_path(&self) -> (r: &str)
        ensures
            r@.len() == 0,
    {
        proof {
            reveal_strlit("");
        }
        ""
    }
}

} // verus!
