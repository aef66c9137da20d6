//! The description of a shell started to evaluate one command line.

use crate::platform::Platform;
use vstd::prelude::*;

verus! {

/// One argument of a process that is about to be started.
#[derive(Clone, Debug, PartialEq, Eq)]
pub enum Argument {
    /// An argument that the child must receive as exactly this one word. How
    /// the word is kept whole on the way (quoting, escaping) is left to
    /// whatever starts the process.
    Word(String),
    /// Text appended to the child's command line exactly as written, with
    /// nothing in it quoted or escaped.
    Raw(String),
}

/// The mathematical value of an [`Argument`].
pub enum ArgumentView {
    Word(Seq<char>),
    Raw(Seq<char>),
}

impl ArgumentView {
    /// The characters of the argument, whichever way it is passed.
    pub open spec fn text(self) -> Seq<char> {
        match self {
            ArgumentView::Word(text) => text,
            ArgumentView::Raw(text) => text,
        }
    }
}

impl View for Argument {
    type V = ArgumentView;

    open spec fn view(&self) -> ArgumentView {
        match self {
            Argument::Word(text) => ArgumentView::Word(text@),
            Argument::Raw(text) => ArgumentView::Raw(text@),
        }
    }
}

impl Argument {
    /// The characters of the argument, whichever way it is passed.
    pub fn text(&self) -> (text: &str)
        ensures
            text@ == self@.text(),
    {
        match self {
            Argument::Word(text) => text.as_str(),
            Argument::Raw(text) => text.as_str(),
        }
    }

    /// Whether the argument is appended to the command line unquoted.
    pub fn is_raw(&self) -> (raw: bool)
        ensures
            raw == (self@ is Raw),
    {
        match self {
            Argument::Word(_) => false,
            Argument::Raw(_) => true,
        }
    }
}

/// The mathematical value of a [`ShellCommand`]: a program and the arguments
/// it is started with, in order.
pub struct ShellCommandView {
    pub program: Seq<char>,
    pub args: Seq<ArgumentView>,
}

/// The argument that carries `command` to the shell of `platform`: one
/// ordinary word for a POSIX shell, the raw tail of the command line for the
/// Windows interpreter. Either way its text is `command`, character for
/// character.
pub open spec fn command_argument(platform: Platform, command: Seq<char>) -> ArgumentView {
    if platform.takes_raw_tail() {
        ArgumentView::Raw(command)
    } else {
        ArgumentView::Word(command)
    }
}

/// The shell of `platform`, asked to evaluate `command`: the shell's
/// executable, its evaluation flag, and then the command line as a single
/// argument.
pub open spec fn shell_command(platform: Platform, command: Seq<char>) -> ShellCommandView {
    ShellCommandView {
        program: platform.shell_name(),
        args: seq![
            ArgumentView::Word(platform.eval_flag()),
            command_argument(platform, command),
        ],
    }
}

impl ShellCommandView {
    /// The command line: the text of the last argument.
    pub open spec fn command(self) -> Seq<char> {
        self.args.last().text()
    }

    /// The platform whose shell is addressed, told by the way the command
    /// line is passed.
    pub open spec fn platform(self) -> Platform {
        if self.args.last() is Raw {
            Platform::Windows
        } else {
            Platform::Posix
        }
    }

    /// Whether this is a shell asked to evaluate one command line: the value
    /// of [`shell_command`] for some platform and some command line.
    pub open spec fn well_formed(self) -> bool {
        exists|platform: Platform, command: Seq<char>|
            self == #[trigger] shell_command(platform, command)
    }
}

/// A shell that is to be started to evaluate one command line. Every value
/// is well formed: it names the shell of one platform, followed by that
/// shell's evaluation flag and the command line.
#[derive(Debug, PartialEq, Eq)]
pub struct ShellCommand {
    program: String,
    args: Vec<Argument>,
}

/// The values of a sequence of arguments, one for one.
pub open spec fn argument_views(args: Seq<Argument>) -> Seq<ArgumentView> {
    Seq::new(args.len(), |i: int| args[i]@)
}

impl View for ShellCommand {
    type V = ShellCommandView;

    closed spec fn view(&self) -> ShellCommandView {
        ShellCommandView { program: self.program@, args: argument_views(self.args@) }
    }
}

/// Describes the shell of `platform`, started to evaluate `command`. The
/// string is taken as it is, whatever it holds: nothing in it is parsed,
/// quoted or checked, and every string is accepted.
pub fn build(platform: Platform, command: &str) -> (built: ShellCommand)
    ensures
        built@ == shell_command(platform, command@),
{
    let carrier = if platform.raw_tail() {
        Argument::Raw(command.to_owned())
    } else {
        Argument::Word(command.to_owned())
    };
    let program = platform.shell().to_owned();
    let mut args: Vec<Argument> = Vec::new();
    args.push(Argument::Word(platform.flag().to_owned()));
    args.push(carrier);
    proof {
        let described = ShellCommandView { program: program@, args: argument_views(args@) };
        assert(described.args =~= shell_command(platform, command@).args);
        assert(described == shell_command(platform, command@));
    }
    ShellCommand { program, args }
}

/// A well-formed value has exactly two arguments, the evaluation flag and
/// the command line, and is the shell command of its own platform and
/// command line.
pub proof fn lemma_well_formed_shape(described: ShellCommandView)
    requires
        described.well_formed(),
    ensures
        described.args.len() == 2,
        described.program == described.platform().shell_name(),
        described.args[0] == ArgumentView::Word(described.platform().eval_flag()),
        described.args[1] == command_argument(described.platform(), described.command()),
        described == shell_command(described.platform(), described.command()),
{
    let (platform, command) = choose|platform: Platform, command: Seq<char>|
        described == #[trigger] shell_command(platform, command);
    assert(described == shell_command(platform, command));
    assert(described.args.last() == command_argument(platform, command));
}

/// The command line reaches the shell whole and unchanged. Whatever the
/// platform and whatever the string holds (spaces, quotes, `&`, `;`, control
/// characters, nothing at all), the shell is started with exactly two
/// arguments: first its evaluation flag, then one argument whose text is the
/// command line, character for character. That argument is passed raw to the
/// Windows interpreter and to no other shell.
pub proof fn lemma_command_arrives_verbatim(platform: Platform, command: Seq<char>)
    ensures
        shell_command(platform, command).well_formed(),
        shell_command(platform, command).program == platform.shell_name(),
        shell_command(platform, command).args.len() == 2,
        shell_command(platform, command).args[0] == ArgumentView::Word(platform.eval_flag()),
        shell_command(platform, command).args[1].text() == command,
        (shell_command(platform, command).args[1] is Raw) <==> (platform is Windows),
        shell_command(platform, command).command() == command,
        shell_command(platform, command).platform() == platform,
{
}

/// Two shell commands are equal only if they were made for the same platform
/// from the same command line: no two command lines share a description,
/// and none can be mistaken for one of the other platform.
pub proof fn lemma_shell_command_injective(
    platform: Platform,
    command: Seq<char>,
    other_platform: Platform,
    other_command: Seq<char>,
)
    requires
        shell_command(platform, command) == shell_command(other_platform, other_command),
    ensures
        platform == other_platform,
        command == other_command,
{
    lemma_command_arrives_verbatim(platform, command);
    lemma_command_arrives_verbatim(other_platform, other_command);
}

impl ShellCommand {
    #[verifier::type_invariant]
    spec fn valid(self) -> bool {
        self@.well_formed()
    }

    /// The name of the shell's executable.
    pub fn program(&self) -> (program: &str)
        ensures
            program@ == self@.program,
    {
        self.program.as_str()
    }

    /// The arguments to start the shell with, in order: the evaluation flag,
    /// then the command line.
    pub fn args(&self) -> (args: &[Argument])
        ensures
            args@.len() == 2,
            argument_views(args@) == self@.args,
    {
        proof {
            use_type_invariant(self);
            lemma_well_formed_shape(self@);
        }
        self.args.as_slice()
    }

    /// The platform whose shell this command addresses. With the command
    /// line, it determines the whole value.
    pub fn platform(&self) -> (platform: Platform)
        ensures
            platform == self@.platform(),
            self@ == shell_command(platform, self@.command()),
    {
        proof {
            use_type_invariant(self);
            lemma_well_formed_shape(self@);
        }
        if self.args[1].is_raw() {
            Platform::Windows
        } else {
            Platform::Posix
        }
    }

    /// The command line that the shell is asked to evaluate.
    pub fn command(&self) -> (command: &str)
        ensures
            command@ == self@.command(),
    {
        proof {
            use_type_invariant(self);
            lemma_well_formed_shape(self@);
        }
        self.args[1].text()
    }
}

impl Clone for ShellCommand {
    fn clone(&self) -> (cloned: ShellCommand)
        ensures
            cloned@ == self@,
    {
        build(self.platform(), self.command())
    }
}

/// Construction of values that stand for a shell command.
///
/// An implementor fixes a platform and a type `T` of values, and says which
/// shell command a value of `T` stands for. What it builds from a command
/// line must then stand for the shell of that platform, asked to evaluate
/// exactly that command line.
pub trait System<T> {
    /// The platform whose shell the built values address.
    spec fn platform() -> Platform;

    /// The shell command that `built` stands for.
    spec fn described(built: &T) -> ShellCommandView;

    /// Builds the value that has the shell evaluate `command`.
    fn system(command: &str) -> (built: T)
        ensures
            Self::described(&built) == shell_command(Self::platform(), command@),
    ;
}

/// The Windows command interpreter, `cmd`.
#[derive(Clone, Copy, Debug, PartialEq, Eq)]
pub struct Cmd;

/// The POSIX shell, `sh`.
#[derive(Clone, Copy, Debug, PartialEq, Eq)]
pub struct Sh;

impl System<ShellCommand> for Cmd {
    open spec fn platform() -> Platform {
        Platform::Windows
    }

    open spec fn described(built: &ShellCommand) -> ShellCommandView {
        built@
    }

    fn system(command: &str) -> (built: ShellCommand) {
        build(Platform::Windows, command)
    }
}

impl System<ShellCommand> for Sh {
    open spec fn platform() -> Platform {
        Platform::Posix
    }

    open spec fn described(built: &ShellCommand) -> ShellCommandView {
        built@
    }

    fn system(command: &str) -> (built: ShellCommand) {
        build(Platform::Posix, command)
    }
}

} // verus!
