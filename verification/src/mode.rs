//! The four watching strategies and their names.

use vstd::prelude::*;

verus! {

/// Which strategy a watcher uses.
#[derive(Debug, Clone, Copy, PartialEq, Eq, Structural)]
pub enum WatcherMode {
    /// One watch per file.
    Manual,
    /// One recursive watch on the root directory.
    Native,
    /// One watch per file, on a subset of the files.
    ManualFiltered,
    /// One recursive watch on the root; notifications are filtered to a subset of the files.
    NativeFiltered,
}

/// The name under which `mode` is shown to a reader.
pub open spec fn display_name_of(mode: WatcherMode) -> Seq<char> {
    match mode {
        WatcherMode::Manual => "Manual Recursive"@,
        WatcherMode::Native => "Native Recursive"@,
        WatcherMode::ManualFiltered => "Manual Filtered"@,
        WatcherMode::NativeFiltered => "Native Filtered"@,
    }
}

/// The mode that a name in lower case stands for, if any.
pub open spec fn mode_named(name: Seq<char>) -> Option<WatcherMode> {
    if name == "manual"@ {
        Some(WatcherMode::Manual)
    } else if name == "native"@ {
        Some(WatcherMode::Native)
    } else if name == "manual-filtered"@ {
        Some(WatcherMode::ManualFiltered)
    } else if name == "native-filtered"@ {
        Some(WatcherMode::NativeFiltered)
    } else {
        None
    }
}

/// The name by which `mode` is asked for, in lower case.
pub open spec fn mode_name(mode: WatcherMode) -> Seq<char> {
    match mode {
        WatcherMode::Manual => "manual"@,
        WatcherMode::Native => "native"@,
        WatcherMode::ManualFiltered => "manual-filtered"@,
        WatcherMode::NativeFiltered => "native-filtered"@,
    }
}

/// Each mode is read back from its own name, and a name that stands for a
/// mode is that mode's name: no two modes share one.
pub proof fn lemma_mode_names(mode: WatcherMode, name: Seq<char>)
    ensures
        mode_named(mode_name(mode)) == Some(mode),
        mode_named(name) == Some(mode) <==> name == mode_name(mode),
{
    reveal_strlit("manual");
    reveal_strlit("native");
    reveal_strlit("manual-filtered");
    reveal_strlit("native-filtered");
    assert("manual"@.len() == 6 && "native"@.len() == 6);
    assert("manual-filtered"@.len() == 15 && "native-filtered"@.len() == 15);
    assert("manual"@[0] == 'm' && "native"@[0] == 'n');
    assert("manual-filtered"@[0] == 'm' && "native-filtered"@[0] == 'n');
}

/// The lower-case equivalent of a text, as Unicode defines it.
pub uninterp spec fn lowercase(text: Seq<char>) -> Seq<char>;

/// `str::to_lowercase`: the lower-case equivalent of `text`, which depends
/// on `text` alone.
#[verifier::external_body]
fn to_lowercase(text: &str) -> (lowered: String)
    ensures
        lowered@ == lowercase(text@),
{
    text.to_lowercase()
}

impl WatcherMode {
    /// Whether the mode works on a subset of the files.
    pub fn is_filtered(&self) -> (filtered: bool)
        ensures
            filtered == (*self == WatcherMode::ManualFiltered || *self
                == WatcherMode::NativeFiltered),
    {
        match self {
            WatcherMode::ManualFiltered => true,
            WatcherMode::NativeFiltered => true,
            _ => false,
        }
    }

    /// Reads a mode from its name, whatever the case of its letters.
    pub fn from_str(s: &str) -> (mode: Option<WatcherMode>)
        ensures
            mode == mode_named(lowercase(s@)),
    {
        let lowered = to_lowercase(s);
        WatcherMode::from_lowercase(lowered.as_str())
    }

    /// Reads a mode from its name in lower case: `manual`, `native`,
    /// `manual-filtered` or `native-filtered`.
    pub fn from_lowercase(name: &str) -> (mode: Option<WatcherMode>)
        ensures
            mode == mode_named(name@),
    {
        let given = name.to_owned();
        if given == "manual".to_owned() {
            Some(WatcherMode::Manual)
        } else if given == "native".to_owned() {
            Some(WatcherMode::Native)
        } else if given == "manual-filtered".to_owned() {
            Some(WatcherMode::ManualFiltered)
        } else if given == "native-filtered".to_owned() {
            Some(WatcherMode::NativeFiltered)
        } else {
            None
        }
    }

    /// The name under which this mode is shown to a reader.
    pub fn display_name(&self) -> (name: &'static str)
        ensures
            name@ == display_name_of(*self),
    {
        match self {
            WatcherMode::Manual => "Manual Recursive",
            WatcherMode::Native => "Native Recursive",
            WatcherMode::ManualFiltered => "Manual Filtered",
            WatcherMode::NativeFiltered => "Native Filtered",
        }
    }
}

} // verus!
