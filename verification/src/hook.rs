//! The git hook that runs the commit command whenever `git commit` runs.
use vstd::prelude::*;
use crate::text::{string_of, push_str};

verus! {

/// Installs and removes the hook.
pub struct HookManager;

impl HookManager {
    /// Where the hook lives, relative to the repository root.
    pub fn get_hook_path() -> (r: String)
        ensures
            r@ == ".git/hooks/prepare-commit-msg"@,
    {
        String::from_str(".git/hooks/prepare-commit-msg")
    }

    /// The hook script: it hands `git commit`'s arguments to this program's
    /// commit command, reading from the terminal.
    pub fn hook_script(exe_path: &str) -> (r: String)
        ensures
            r@ == "#!/bin/sh\n# gogit: AI-powered commit generation\n# Intercepts manual 'git commit' calls\nexec \""@
                + exe_path@ + "\" commit \"$@\" < /dev/tty\n"@,
    {
        let mut t: Vec<char> = Vec::new();
        push_str(&mut t, "#!/bin/sh\n# gogit: AI-powered commit generation\n# Intercepts manual 'git commit' calls\nexec \"");
        push_str(&mut t, exe_path);
        push_str(&mut t, "\" commit \"$@\" < /dev/tty\n");
        string_of(&t)
    }
}

} // verus!
