use vstd::prelude::*;

verus! {

/// The host operating system, detected once at startup and used for display.
#[derive(Clone, Copy, Debug, PartialEq, Eq, Structural)]
pub enum Platform {
    Mac,
    Windows,
    Linux,
    Unknown,
}

/// Whether two strings hold the same characters.
pub fn str_equal(a: &str, b: &str) -> (r: bool)
    ensures
        r == (a@ == b@),
{
    let n = a.unicode_len();
    if n != b.unicode_len() {
        return false;
    }
    let mut i: usize = 0;
    while i < n
        invariant
            n == a@.len(),
            n == b@.len(),
            i <= n,
            forall|k: int| 0 <= k < i ==> a@[k] == b@[k],
        decreases n - i,
    {
        if a.get_char(i) != b.get_char(i) {
            return false;
        }
        i = i + 1;
    }
    assert(a@ =~= b@);
    true
}

impl Platform {
    /// The platform named by an operating-system identifier such as
    /// `std::env::consts::OS` gives it.
    pub open spec fn spec_detect(os: Seq<char>) -> Platform {
        if os == "macos"@ {
            Platform::Mac
        } else if os == "windows"@ {
            Platform::Windows
        } else if os == "linux"@ {
            Platform::Linux
        } else {
            Platform::Unknown
        }
    }

    /// The display label of each platform.
    pub open spec fn spec_label(self) -> Seq<char> {
        match self {
            Platform::Mac => "macOS"@,
            Platform::Windows => "Windows"@,
            Platform::Linux => "Linux"@,
            Platform::Unknown => "Unknown"@,
        }
    }

    /// Maps an operating-system identifier to a platform; unrecognised
    /// identifiers give `Unknown`.
    pub fn detect(os: &str) -> (r: Platform)
        ensures
            r == Platform::spec_detect(os@),
    {
        if str_equal(os, "macos") {
            Platform::Mac
        } else if str_equal(os, "windows") {
            Platform::Windows
        } else if str_equal(os, "linux") {
            Platform::Linux
        } else {
            Platform::Unknown
        }
    }

    /// The label shown on the dashboard.
    pub fn as_str(&self) -> (r: &'static str)
        ensures
            r@ == self.spec_label(),
    {
        match self {
            Platform::Mac => "macOS",
            Platform::Windows => "Windows",
            Platform::Linux => "Linux",
            Platform::Unknown => "Unknown",
        }
    }
}

} // verus!
