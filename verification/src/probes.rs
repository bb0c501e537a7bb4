//! Where installed browsers are looked for, per platform. The caller
//! probes the filesystem (or `which`) and hands the detected browsers to
//! the credential resolver; no browser is ever launched.

use vstd::prelude::*;

use crate::credentials::Browser;

verus! {

/// One Windows browser probe: absolute install paths, and optionally a
/// path under the user's local application data.
pub struct WindowsBrowserProbe {
    pub browser: Browser,
    pub system_paths: Vec<String>,
    pub local_suffix: Option<String>,
}

/// One macOS browser probe: application bundle paths; a leading `~/` is
/// expanded by the caller.
pub struct MacBrowserProbe {
    pub browser: Browser,
    pub bundle_paths: Vec<String>,
}

/// One Linux browser probe: executable names to look up on the PATH.
pub struct LinuxBrowserProbe {
    pub browser: Browser,
    pub commands: Vec<String>,
}

fn two(a: &str, b: &str) -> (r: Vec<String>)
    ensures
        r@.len() == 2,
{
    let mut r: Vec<String> = Vec::new();
    r.push(String::from_str(a));
    r.push(String::from_str(b));
    r
}

fn one(a: &str) -> (r: Vec<String>)
    ensures
        r@.len() == 1,
{
    let mut r: Vec<String> = Vec::new();
    r.push(String::from_str(a));
    r
}

/// The Windows probe table, in probe order.
pub fn windows_browser_probes() -> (r: Vec<WindowsBrowserProbe>)
    ensures
        r@.map_values(|p: WindowsBrowserProbe| p.browser) == seq![
            Browser::Chrome,
            Browser::Edge,
            Browser::Firefox,
            Browser::Vivaldi,
            Browser::Opera,
            Browser::Brave,
            Browser::Whale,
        ],
        forall|i: int| 0 <= i < r@.len() ==> (#[trigger] r@[i]).system_paths@.len() >= 1,
{
    let mut r: Vec<WindowsBrowserProbe> = Vec::new();
    r.push(
        WindowsBrowserProbe {
            browser: Browser::Chrome,
            system_paths: two(
                "C:\\Program Files\\Google\\Chrome\\Application\\chrome.exe",
                "C:\\Program Files (x86)\\Google\\Chrome\\Application\\chrome.exe",
            ),
            local_suffix: Some(String::from_str("Google\\Chrome\\Application\\chrome.exe")),
        },
    );
    r.push(
        WindowsBrowserProbe {
            browser: Browser::Edge,
            system_paths: two(
                "C:\\Program Files (x86)\\Microsoft\\Edge\\Application\\msedge.exe",
                "C:\\Program Files\\Microsoft\\Edge\\Application\\msedge.exe",
            ),
            local_suffix: None,
        },
    );
    r.push(
        WindowsBrowserProbe {
            browser: Browser::Firefox,
            system_paths: two(
                "C:\\Program Files\\Mozilla Firefox\\firefox.exe",
                "C:\\Program Files (x86)\\Mozilla Firefox\\firefox.exe",
            ),
            local_suffix: None,
        },
    );
    r.push(
        WindowsBrowserProbe {
            browser: Browser::Vivaldi,
            system_paths: one("C:\\Program Files\\Vivaldi\\Application\\vivaldi.exe"),
            local_suffix: Some(String::from_str("Vivaldi\\Application\\vivaldi.exe")),
        },
    );
    r.push(
        WindowsBrowserProbe {
            browser: Browser::Opera,
            system_paths: two(
                "C:\\Program Files\\Opera\\launcher.exe",
                "C:\\Program Files (x86)\\Opera\\launcher.exe",
            ),
            local_suffix: Some(String::from_str("Programs\\Opera\\launcher.exe")),
        },
    );
    r.push(
        WindowsBrowserProbe {
            browser: Browser::Brave,
            system_paths: two(
                "C:\\Program Files\\BraveSoftware\\Brave-Browser\\Application\\brave.exe",
                "C:\\Program Files (x86)\\BraveSoftware\\Brave-Browser\\Application\\brave.exe",
            ),
            local_suffix: Some(
                String::from_str("BraveSoftware\\Brave-Browser\\Application\\brave.exe"),
            ),
        },
    );
    r.push(
        WindowsBrowserProbe {
            browser: Browser::Whale,
            system_paths: two(
                "C:\\Program Files\\Naver\\Naver Whale\\Application\\whale.exe",
                "C:\\Program Files (x86)\\Naver\\Naver Whale\\Application\\whale.exe",
            ),
            local_suffix: Some(String::from_str("Naver\\Naver Whale\\Application\\whale.exe")),
        },
    );
    proof {
        assert(r@.map_values(|p: WindowsBrowserProbe| p.browser) =~= seq![
            Browser::Chrome,
            Browser::Edge,
            Browser::Firefox,
            Browser::Vivaldi,
            Browser::Opera,
            Browser::Brave,
            Browser::Whale,
        ]);
    }
    r
}

/// The macOS probe table, in probe order.
pub fn macos_browser_probes() -> (r: Vec<MacBrowserProbe>)
    ensures
        r@.map_values(|p: MacBrowserProbe| p.browser) == seq![
            Browser::Chrome,
            Browser::Edge,
            Browser::Firefox,
            Browser::Vivaldi,
            Browser::Opera,
            Browser::Brave,
            Browser::Whale,
            Browser::Safari,
        ],
        forall|i: int| 0 <= i < r@.len() ==> (#[trigger] r@[i]).bundle_paths@.len() >= 1,
{
    let mut r: Vec<MacBrowserProbe> = Vec::new();
    r.push(
        MacBrowserProbe {
            browser: Browser::Chrome,
            bundle_paths: two(
                "/Applications/Google Chrome.app",
                "~/Applications/Google Chrome.app",
            ),
        },
    );
    r.push(
        MacBrowserProbe {
            browser: Browser::Edge,
            bundle_paths: two(
                "/Applications/Microsoft Edge.app",
                "~/Applications/Microsoft Edge.app",
            ),
        },
    );
    r.push(
        MacBrowserProbe {
            browser: Browser::Firefox,
            bundle_paths: two("/Applications/Firefox.app", "~/Applications/Firefox.app"),
        },
    );
    r.push(
        MacBrowserProbe {
            browser: Browser::Vivaldi,
            bundle_paths: two("/Applications/Vivaldi.app", "~/Applications/Vivaldi.app"),
        },
    );
    r.push(
        MacBrowserProbe {
            browser: Browser::Opera,
            bundle_paths: two("/Applications/Opera.app", "~/Applications/Opera.app"),
        },
    );
    r.push(
        MacBrowserProbe {
            browser: Browser::Brave,
            bundle_paths: two(
                "/Applications/Brave Browser.app",
                "~/Applications/Brave Browser.app",
            ),
        },
    );
    r.push(
        MacBrowserProbe {
            browser: Browser::Whale,
            bundle_paths: two("/Applications/Whale.app", "~/Applications/Whale.app"),
        },
    );
    r.push(
        MacBrowserProbe { browser: Browser::Safari, bundle_paths: one("/Applications/Safari.app") },
    );
    proof {
        assert(r@.map_values(|p: MacBrowserProbe| p.browser) =~= seq![
            Browser::Chrome,
            Browser::Edge,
            Browser::Firefox,
            Browser::Vivaldi,
            Browser::Opera,
            Browser::Brave,
            Browser::Whale,
            Browser::Safari,
        ]);
    }
    r
}

/// The Linux probe table, in probe order.
pub fn linux_browser_probes() -> (r: Vec<LinuxBrowserProbe>)
    ensures
        r@.map_values(|p: LinuxBrowserProbe| p.browser) == seq![
            Browser::Chrome,
            Browser::Chromium,
            Browser::Edge,
            Browser::Firefox,
            Browser::Vivaldi,
            Browser::Opera,
            Browser::Brave,
        ],
        forall|i: int| 0 <= i < r@.len() ==> (#[trigger] r@[i]).commands@.len() >= 1,
{
    let mut r: Vec<LinuxBrowserProbe> = Vec::new();
    let mut chrome: Vec<String> = Vec::new();
    chrome.push(String::from_str("google-chrome"));
    chrome.push(String::from_str("google-chrome-stable"));
    chrome.push(String::from_str("chrome"));
    r.push(LinuxBrowserProbe { browser: Browser::Chrome, commands: chrome });
    r.push(
        LinuxBrowserProbe {
            browser: Browser::Chromium,
            commands: two("chromium", "chromium-browser"),
        },
    );
    r.push(
        LinuxBrowserProbe {
            browser: Browser::Edge,
            commands: two("microsoft-edge", "microsoft-edge-stable"),
        },
    );
    r.push(LinuxBrowserProbe { browser: Browser::Firefox, commands: one("firefox") });
    r.push(
        LinuxBrowserProbe { browser: Browser::Vivaldi, commands: two("vivaldi", "vivaldi-stable") },
    );
    r.push(LinuxBrowserProbe { browser: Browser::Opera, commands: one("opera") });
    r.push(LinuxBrowserProbe { browser: Browser::Brave, commands: two("brave", "brave-browser") });
    proof {
        assert(r@.map_values(|p: LinuxBrowserProbe| p.browser) =~= seq![
            Browser::Chrome,
            Browser::Chromium,
            Browser::Edge,
            Browser::Firefox,
            Browser::Vivaldi,
            Browser::Opera,
            Browser::Brave,
        ]);
    }
    r
}

} // verus!
