//! The platforms whose native shell a command line can be handed to.

use vstd::prelude::*;

verus! {

/// A family of operating systems that share one native shell.
#[derive(Clone, Copy, Debug, PartialEq, Eq, Structural)]
pub enum Platform {
    /// Windows, whose command interpreter is `cmd`.
    Windows,
    /// Every other system: a POSIX shell is expected under the name `sh`.
    Posix,
}

/// The operating system name that selects [`Platform::Windows`].
pub open spec fn windows_os_name() -> Seq<char> {
    seq!['w', 'i', 'n', 'd', 'o', 'w', 's']
}

impl Platform {
    /// The platform of the operating system called `os`: Windows for the name
    /// `windows`, the POSIX family for any other name.
    pub open spec fn of_os(os: Seq<char>) -> Platform {
        if os == windows_os_name() {
            Platform::Windows
        } else {
            Platform::Posix
        }
    }

    /// The name of the shell's executable.
    pub open spec fn shell_name(self) -> Seq<char> {
        match self {
            Platform::Windows => seq!['c', 'm', 'd'],
            Platform::Posix => seq!['s', 'h'],
        }
    }

    /// The flag after which the shell evaluates the next argument as a
    /// command line.
    pub open spec fn eval_flag(self) -> Seq<char> {
        match self {
            Platform::Windows => seq!['/', 'c'],
            Platform::Posix => seq!['-', 'c'],
        }
    }

    /// Whether the shell reads the command line from the unparsed tail of its
    /// own command line, so that the string has to be appended unquoted.
    pub open spec fn takes_raw_tail(self) -> bool {
        self is Windows
    }

    /// Selects the platform from an operating system name as Rust spells it
    /// for a compilation target (`linux`, `macos`, `windows`, ...).
    pub fn for_target(os: &str) -> (platform: Platform)
        ensures
            platform == Platform::of_os(os@),
    {
        proof {
            reveal_strlit("windows");
        }
        assert("windows"@ =~= windows_os_name());
        if os.to_owned() == "windows".to_owned() {
            Platform::Windows
        } else {
            Platform::Posix
        }
    }

    /// The name of the shell's executable: `cmd` or `sh`.
    pub fn shell(self) -> (name: &'static str)
        ensures
            name@ == self.shell_name(),
    {
        proof {
            reveal_strlit("cmd");
            reveal_strlit("sh");
        }
        match self {
            Platform::Windows => {
                assert("cmd"@ =~= self.shell_name());
                "cmd"
            },
            Platform::Posix => {
                assert("sh"@ =~= self.shell_name());
                "sh"
            },
        }
    }

    /// The flag that makes the shell evaluate a command line: `/c` or `-c`.
    pub fn flag(self) -> (flag: &'static str)
        ensures
            flag@ == self.eval_flag(),
    {
        proof {
            reveal_strlit("/c");
            reveal_strlit("-c");
        }
        match self {
            Platform::Windows => {
                assert("/c"@ =~= self.eval_flag());
                "/c"
            },
            Platform::Posix => {
                assert("-c"@ =~= self.eval_flag());
                "-c"
            },
        }
    }

    /// Whether the command line must reach the shell unquoted.
    pub fn raw_tail(self) -> (raw: bool)
        ensures
            raw == self.takes_raw_tail(),
    {
        match self {
            Platform::Windows => true,
            Platform::Posix => false,
        }
    }
}

} // verus!
