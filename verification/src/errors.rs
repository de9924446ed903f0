use vstd::prelude::*;
use vstd::string::StringExecFns;

verus! {

/// A fatal condition: the host prints a two-line explanation (short title,
/// then the longer cause) and aborts.
#[derive(Clone, Debug, PartialEq)]
pub struct FatalError {
    pub title: String,
    pub explanation: String,
}

impl FatalError {
    /// The editor binary could not be located or started.
    pub fn spawn_error() -> (e: FatalError)
        ensures
            e.title@ == "Could not create nvim process"@,
            e.explanation@ == "Could not locate or start the neovim process"@,
    {
        FatalError {
            title: "Could not create nvim process".to_owned(),
            explanation: "Could not locate or start the neovim process".to_owned(),
        }
    }

    /// The first handshake request (setting the embedding marker) failed.
    pub fn communicate_error() -> (e: FatalError)
        ensures
            e.title@ == "Could not communicate."@,
            e.explanation@ == "Could not communicate with neovim process"@,
    {
        FatalError {
            title: "Could not communicate.".to_owned(),
            explanation: "Could not communicate with neovim process".to_owned(),
        }
    }

    /// The UI attach request failed.
    pub fn attach_error() -> (e: FatalError)
        ensures
            e.title@ == "Could not attach."@,
            e.explanation@ == "Could not attach ui to neovim process"@,
    {
        FatalError {
            title: "Could not attach.".to_owned(),
            explanation: "Could not attach ui to neovim process".to_owned(),
        }
    }

    /// A command was enqueued after the pump terminated.
    pub fn send_error() -> (e: FatalError)
        ensures
            e.title@ == "Could Not Send UI Command"@,
            e.explanation@
                == "Could not send UI command from the window system to the neovim process."@,
    {
        FatalError {
            title: "Could Not Send UI Command".to_owned(),
            explanation:
                "Could not send UI command from the window system to the neovim process.".to_owned(),
        }
    }

    /// The two-line message the host prints before aborting.
    pub fn message(&self) -> (m: String)
        ensures
            m@ == self.title@ + "\n"@ + self.explanation@,
    {
        let mut m = self.title.clone();
        m.append("\n");
        m.append(self.explanation.as_str());
        m
    }
}

} // verus!
