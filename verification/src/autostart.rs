//! The login autostart entry for the companion.

use vstd::prelude::*;

use crate::text::{join_path, path_join};

verus! {

/// The `.desktop` file content that starts `binary_path` at login.
pub open spec fn autostart_entry_spec(binary_path: Seq<char>) -> Seq<char> {
    "[Desktop Entry]\nType=Application\nName=AI-OS Companion\nComment=AI-OS Personal Companion\nExec="@
        + binary_path + "\nTerminal=false\nCategories=Utility;\nX-GNOME-Autostart-enabled=true\n"@
}

/// Build the autostart `.desktop` file content.
pub fn autostart_entry(binary_path: &str) -> (s: String)
    ensures
        s@ == autostart_entry_spec(binary_path@),
{
    let mut s = String::from_str(
        "[Desktop Entry]\nType=Application\nName=AI-OS Companion\nComment=AI-OS Personal Companion\nExec=",
    );
    s.append(binary_path);
    s.append("\nTerminal=false\nCategories=Utility;\nX-GNOME-Autostart-enabled=true\n");
    s
}

/// The autostart file for a user whose home directory is `home`:
/// `home/.config/autostart/ai-os-companion.desktop`.
pub open spec fn autostart_path_spec(home: Seq<char>) -> Seq<char> {
    path_join(path_join(path_join(home, ".config"@), "autostart"@), "ai-os-companion.desktop"@)
}

pub fn autostart_path_for(home: &str) -> (p: String)
    ensures
        p@ == autostart_path_spec(home@),
{
    let a = join_path(home, ".config");
    let b = join_path(a.as_str(), "autostart");
    join_path(b.as_str(), "ai-os-companion.desktop")
}

} // verus!
