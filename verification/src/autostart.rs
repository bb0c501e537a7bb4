//! Login autostart: the startup script's path and contents, and the
//! decision what to do with it. Only Windows is supported; the caller
//! performs the file writes.

use vstd::prelude::*;

use crate::credentials::Platform;

verus! {

/// Doubles every quote, as batch-file quoting wants it.
pub open spec fn spec_escape_quotes(s: Seq<char>) -> Seq<char>
    decreases s.len(),
{
    if s.len() == 0 {
        Seq::empty()
    } else {
        spec_escape_quotes(s.drop_last()) + (if s.last() == '"' {
            seq!['"', '"']
        } else {
            seq![s.last()]
        })
    }
}

/// Doubles every quote in `s`.
pub fn escape_quotes(s: &str) -> (r: String)
    ensures
        r@ == spec_escape_quotes(s@),
{
    let len = s.unicode_len();
    let mut out = String::new();
    let mut i: usize = 0;
    proof {
        assert(s@.take(0) =~= Seq::<char>::empty());
    }
    while i < len
        invariant
            len == s@.len(),
            i <= len,
            out@ == spec_escape_quotes(s@.take(i as int)),
        decreases len - i,
    {
        proof {
            assert(s@.take(i + 1).drop_last() =~= s@.take(i as int));
            assert(s@.take(i + 1).last() == s@[i as int]);
        }
        if s.get_char(i) == '"' {
            out.append("\"\"");
            proof {
                assert("\"\""@ =~= seq!['"', '"']) by {
                    reveal_strlit("\"\"");
                }
            }
        } else {
            let piece = s.substring_char(i, i + 1);
            out.append(piece);
            proof {
                assert(s@.subrange(i as int, i + 1) =~= seq![s@[i as int]]);
            }
        }
        i += 1;
    }
    proof {
        assert(s@.take(len as int) =~= s@);
    }
    out
}

/// The batch script that starts the application at login; quotes in the
/// executable path are doubled.
pub open spec fn spec_startup_script(exe: Seq<char>) -> Seq<char> {
    "@echo off\r\nstart \"\" \""@ + spec_escape_quotes(exe) + "\"\r\n"@
}

/// Builds the startup script for the given executable path.
pub fn startup_script_contents(exe_path: &str) -> (r: String)
    ensures
        r@ == spec_startup_script(exe_path@),
{
    let mut r = String::from_str("@echo off\r\nstart \"\" \"");
    let escaped = escape_quotes(exe_path);
    r.append(escaped.as_str());
    r.append("\"\r\n");
    r
}

/// Where the startup script lives, under the roaming data directory.
pub fn startup_script_path(data_dir: &str) -> (r: String)
    ensures
        r@ == data_dir@
            + "\\Microsoft\\Windows\\Start Menu\\Programs\\Startup\\ivLyrics-helper-start.bat"@,
{
    let mut r = String::from_str(data_dir);
    r.append("\\Microsoft\\Windows\\Start Menu\\Programs\\Startup\\ivLyrics-helper-start.bat");
    r
}

/// What the caller is to do to the startup script.
pub enum AutostartAction {
    WriteScript { path: String, contents: String },
    RemoveScript { path: String },
    Nothing,
}

/// Decides how to set the login autostart entry: on Windows, write or
/// remove the startup script; elsewhere enabling is refused and
/// disabling does nothing.
pub fn set_autostart(enable: bool, platform: Platform, data_dir: &str, exe_path: &str) -> (r:
    Result<AutostartAction, String>)
    ensures
        match r {
            Ok(a) => match a {
                AutostartAction::WriteScript { path, contents } => {
                    &&& platform == Platform::Windows
                    &&& enable
                    &&& path@ == data_dir@
                        + "\\Microsoft\\Windows\\Start Menu\\Programs\\Startup\\ivLyrics-helper-start.bat"@
                    &&& contents@ == spec_startup_script(exe_path@)
                },
                AutostartAction::RemoveScript { path } => {
                    &&& platform == Platform::Windows
                    &&& !enable
                    &&& path@ == data_dir@
                        + "\\Microsoft\\Windows\\Start Menu\\Programs\\Startup\\ivLyrics-helper-start.bat"@
                },
                AutostartAction::Nothing => platform != Platform::Windows && !enable,
            },
            Err(m) => {
                &&& platform != Platform::Windows
                &&& enable
                &&& m@ == "Autostart is only supported on Windows in this build"@
            },
        },
{
    match platform {
        Platform::Windows => {
            let path = startup_script_path(data_dir);
            if enable {
                let contents = startup_script_contents(exe_path);
                Ok(AutostartAction::WriteScript { path, contents })
            } else {
                Ok(AutostartAction::RemoveScript { path })
            }
        },
        _ => {
            if enable {
                Err(String::from_str("Autostart is only supported on Windows in this build"))
            } else {
                Ok(AutostartAction::Nothing)
            }
        },
    }
}

} // verus!
