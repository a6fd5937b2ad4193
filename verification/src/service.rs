//! The system service of the Portmaster: whether it runs, and starting it.
//!
//! The service is managed through `systemctl`. Running a command is the
//! caller's part. What is decided here: which command line to run, what
//! the output of a command means, and which command, if any, is to follow.

use crate::text::{blank, chars_of, contains_text, is_blank, occurs_in, same_text, texts};
use vstd::prelude::*;

verus! {

/// The program that manages the system services.
pub const SYSTEMCTL: &'static str = "systemctl";

/// The unit of the Portmaster.
pub const PORTMASTER_UNIT: &'static str = "portmaster.service";

/// The places where `systemctl` is looked for. Only fixed places count, so
/// that no program of that name in the working directory is run as root.
pub const SYSTEMCTL_PATHS: [&'static str; 4] = [
    "/sbin/systemctl",
    "/bin/systemctl",
    "/usr/sbin/systemctl",
    "/usr/bin/systemctl",
];

/// What is known of the system service.
#[derive(Clone, Copy, PartialEq, Eq, Debug, Structural)]
pub enum StatusResult {
    /// The service is installed and runs.
    Running,
    /// The service is installed and does not run.
    Stopped,
    /// The service is not installed.
    NotFound,
    /// The system has no service manager that is known here.
    Unsupported,
}

/// Why a command of `systemctl` gave no result.
#[derive(Debug, PartialEq, Eq, Clone)]
pub enum SystemctlError {
    /// The output is no text; the field says why.
    FromUtf8Error(String),
    /// The command could not be run; the field says why.
    IoError(String),
    /// The command ran and failed: how it ended, and what it printed.
    Other(String, String),
}

/// An error of `systemctl` as a mathematical value.
pub enum SystemctlErrorView {
    FromUtf8Error(Seq<char>),
    IoError(Seq<char>),
    Other(Seq<char>, Seq<char>),
}

impl View for SystemctlError {
    type V = SystemctlErrorView;

    open spec fn view(&self) -> SystemctlErrorView {
        match self {
            SystemctlError::FromUtf8Error(why) => SystemctlErrorView::FromUtf8Error(why@),
            SystemctlError::IoError(why) => SystemctlErrorView::IoError(why@),
            SystemctlError::Other(status, output) => SystemctlErrorView::Other(status@, output@),
        }
    }
}

impl SystemctlErrorView {
    /// The description of the error.
    pub open spec fn text(self) -> Seq<char> {
        match self {
            SystemctlErrorView::FromUtf8Error(why) => why,
            SystemctlErrorView::IoError(why) => why,
            SystemctlErrorView::Other(status, output) => status + " output="@ + output,
        }
    }
}

impl SystemctlError {
    /// Describes the error.
    pub fn to_string(&self) -> (text: String)
        ensures
            text@ == self@.text(),
    {
        match self {
            SystemctlError::FromUtf8Error(why) => why.clone(),
            SystemctlError::IoError(why) => why.clone(),
            SystemctlError::Other(status, output) => {
                let mut text = status.clone();
                text.append(" output=");
                text.append(output.as_str());
                text
            },
        }
    }
}

/// `s` without the line end that closes it: a line feed, and the carriage
/// return before it where there is one.
pub open spec fn without_newline(s: Seq<char>) -> Seq<char> {
    if s.len() > 0 && s.last() == '\n' {
        let line = s.drop_last();
        if line.len() > 0 && line.last() == '\r' {
            line.drop_last()
        } else {
            line
        }
    } else {
        s
    }
}

/// Takes the closing line end off `s`.
pub fn trim_newline(s: &mut String)
    ensures
        final(s)@ == without_newline(old(s)@),
{
    let chars = chars_of(s.as_str());
    let len = chars.len();
    if len > 0 && chars[len - 1] == '\n' {
        let end: usize = if len > 1 && chars[len - 2] == '\r' {
            len - 2
        } else {
            len - 1
        };
        let kept = s.as_str().substring_char(0, end).to_owned();
        assert(kept@ =~= without_newline(s@));
        *s = kept;
    }
}

/// What a command left behind: whether it succeeded, how it ended in
/// words, and what it printed. Output that is no text is held as the reason
/// why it is none.
pub struct Output {
    pub success: bool,
    pub status: String,
    pub stdout: Result<String, String>,
    pub stderr: Result<String, String>,
}

/// The text of an output stream, where it is text and not blank.
pub open spec fn said(stream: Result<String, String>) -> Option<Seq<char>> {
    match stream {
        Ok(text) => if blank(text@) {
            None
        } else {
            Some(text@)
        },
        Err(_) => None,
    }
}

/// What a failed command has to say: what it printed as errors, else what
/// it printed otherwise, else a fixed sentence.
pub open spec fn complaint(stdout: Result<String, String>, stderr: Result<String, String>) -> Seq<
    char,
> {
    match said(stderr) {
        Some(text) => text,
        None => match said(stdout) {
            Some(text) => text,
            None => "Failed to run `systemctl`"@,
        },
    }
}

/// What the output of a command of `systemctl` means: its text where the
/// command succeeded, else the error that the command ended in.
pub open spec fn outcome_of(output: Output) -> Result<Seq<char>, SystemctlErrorView> {
    if output.success {
        match output.stdout {
            Ok(text) => Ok(text@),
            Err(why) => Err(SystemctlErrorView::FromUtf8Error(why@)),
        }
    } else {
        Err(SystemctlErrorView::Other(output.status@, complaint(output.stdout, output.stderr)))
    }
}

/// The result of a command as a mathematical value.
pub open spec fn outcome_view(outcome: Result<String, SystemctlError>) -> Result<
    Seq<char>,
    SystemctlErrorView,
> {
    match outcome {
        Ok(text) => Ok(text@),
        Err(err) => Err(err@),
    }
}

/// The text of an output stream, where it is text and not blank.
fn spoken(stream: Result<String, String>) -> (text: Option<String>)
    ensures
        match text {
            Some(t) => said(stream) == Some(t@),
            None => said(stream) is None,
        },
{
    match stream {
        Ok(text) => {
            if is_blank(text.as_str()) {
                None
            } else {
                Some(text)
            }
        },
        Err(_) => None,
    }
}

/// Reads the output of a command of `systemctl`.
pub fn systemctl(output: Output) -> (outcome: Result<String, SystemctlError>)
    ensures
        outcome_view(outcome) == outcome_of(output),
{
    if output.success {
        match output.stdout {
            Ok(text) => Ok(text),
            Err(why) => Err(SystemctlError::FromUtf8Error(why)),
        }
    } else {
        let msg = match spoken(output.stderr) {
            Some(text) => text,
            None => match spoken(output.stdout) {
                Some(text) => text,
                None => "Failed to run `systemctl`".to_owned(),
            },
        };
        Err(SystemctlError::Other(output.status, msg))
    }
}

/// The program that asks the user for the right to act as root.
#[derive(Clone, Copy, PartialEq, Eq, Debug, Structural)]
pub enum SudoCommand {
    Pkexec,
    Gksu,
}

/// Where `pkexec` is expected.
pub const PKEXEC_PATH: &'static str = "/usr/bin/pkexec";

/// Where `gksudo` is expected.
pub const GKSUDO_PATH: &'static str = "/usr/bin/gksudo";

/// Picks the program that asks for the right to act as root: `pkexec`
/// where it is present, else `gksudo` where that is, else none.
pub fn get_sudo_cmd(pkexec_present: bool, gksudo_present: bool) -> (cmd: Option<SudoCommand>)
    ensures
        cmd == if pkexec_present {
            Some(SudoCommand::Pkexec)
        } else if gksudo_present {
            Some(SudoCommand::Gksu)
        } else {
            None::<SudoCommand>
        },
{
    if pkexec_present {
        Some(SudoCommand::Pkexec)
    } else if gksudo_present {
        Some(SudoCommand::Gksu)
    } else {
        None
    }
}

/// A program and the arguments it is run with.
pub struct CommandLine {
    pub program: String,
    pub args: Vec<String>,
}

/// The program and the arguments that run `cmd` with `args`, as the user
/// or through `sudo` as root. Through `pkexec` its own text prompt is
/// switched off; `gksudo` is given the sentence to ask with.
pub open spec fn command_line_of(
    sudo: Option<SudoCommand>,
    cmd: Seq<char>,
    args: Seq<Seq<char>>,
) -> (Seq<char>, Seq<Seq<char>>) {
    match sudo {
        None => (cmd, args),
        Some(SudoCommand::Pkexec) => (
            PKEXEC_PATH@,
            seq!["--disable-internal-agent"@, cmd] + args,
        ),
        Some(SudoCommand::Gksu) => (
            GKSUDO_PATH@,
            seq!["--message=Please enter your password:"@, "--sudo-mode"@, cmd] + args,
        ),
    }
}

/// Builds the command line that runs `cmd` with `args`, as the user where
/// `sudo` is none, else as root through that program.
pub fn command_line(sudo: Option<SudoCommand>, cmd: &str, args: Vec<String>) -> (line: CommandLine)
    ensures
        (line.program@, texts(line.args@)) == command_line_of(sudo, cmd@, texts(args@)),
{
    let mut all: Vec<String> = Vec::new();
    let program = match sudo {
        None => cmd.to_owned(),
        Some(SudoCommand::Pkexec) => {
            all.push("--disable-internal-agent".to_owned());
            all.push(cmd.to_owned());
            PKEXEC_PATH.to_owned()
        },
        Some(SudoCommand::Gksu) => {
            all.push("--message=Please enter your password:".to_owned());
            all.push("--sudo-mode".to_owned());
            all.push(cmd.to_owned());
            GKSUDO_PATH.to_owned()
        },
    };
    let ghost front = texts(all@);
    assert(front =~= command_line_of(sudo, cmd@, Seq::empty()).1);
    let mut i: usize = 0;
    while i < args.len()
        invariant
            i <= args.len(),
            texts(all@) == front + texts(args@).take(i as int),
        decreases args.len() - i,
    {
        let ghost before = all@;
        let arg = args[i].clone();
        all.push(arg);
        i = i + 1;
        assert(texts(all@) =~= front + texts(args@).take(i as int)) by {
            assert(all@ == before.push(arg));
            assert(texts(before) == front + texts(args@).take(i - 1));
            assert(texts(args@).len() == args@.len());
            assert(texts(args@).take(i - 1).len() == i - 1);
            assert(texts(before).len() == before.len());
            assert(texts(all@).len() == all@.len());
            assert(texts(all@).len() == front.len() + i);
            assert forall|k: int| 0 <= k < texts(all@).len() implies texts(all@)[k] == (front
                + texts(args@).take(i as int))[k] by {
                if k < before.len() {
                    assert(texts(all@)[k] == texts(before)[k]);
                }
            }
        }
    }
    assert(texts(args@).take(i as int) =~= texts(args@));
    CommandLine { program, args: all }
}

/// What is known of a file: whether it is a regular file, and its
/// permission bits.
#[derive(Clone, Copy, PartialEq, Eq, Debug, Structural)]
pub struct FileFacts {
    pub is_file: bool,
    pub mode: u32,
}

/// The permission bits that let someone execute a file.
pub const EXECUTE_BITS: u32 = 0o111;

impl FileFacts {
    /// Whether the file is a program: a regular file that someone may
    /// execute.
    pub open spec fn spec_is_program(&self) -> bool {
        self.is_file && self.mode & EXECUTE_BITS != 0
    }

    /// Whether the file is a program: a regular file that someone may
    /// execute.
    #[verifier::when_used_as_spec(spec_is_program)]
    pub fn is_program(&self) -> (program: bool)
        ensures
            program == self.spec_is_program(),
    {
        self.is_file && self.mode & EXECUTE_BITS != 0
    }
}

/// The manager of the system services of a Linux system.
#[derive(Clone, Copy, PartialEq, Eq, Debug, Structural)]
pub struct SystemdServiceManager {}

impl SystemdServiceManager {
    /// Whether `systemctl` is installed, given what was found at each of
    /// the places where it is looked for (nothing where the place could not
    /// be read): whether a program stands at one of them.
    pub fn is_installed(found: &Vec<Option<FileFacts>>) -> (installed: bool)
        ensures
            installed <==> exists|i: int|
                0 <= i < found.len() && (#[trigger] found[i] matches Some(facts)
                    && facts.is_program()),
    {
        let mut i: usize = 0;
        while i < found.len()
            invariant
                i <= found.len(),
                forall|j: int|
                    0 <= j < i ==> !(#[trigger] found[j] matches Some(facts) && facts.is_program()),
            decreases found.len() - i,
        {
            match found[i] {
                Some(facts) => {
                    if facts.is_program() {
                        return true;
                    }
                },
                None => {},
            }
            i = i + 1;
        }
        false
    }
}

/// Why the system service could not be asked about or started.
#[derive(Debug, PartialEq, Eq, Clone)]
pub enum ServiceManagerError {
    UnsupportedServiceManager,
    UnsupportedOperatingSystem,
    FromUtf8Error(String),
    IoError(String),
    Other(String, String),
}

/// An error of the service manager as a mathematical value.
pub enum ServiceManagerErrorView {
    UnsupportedServiceManager,
    UnsupportedOperatingSystem,
    FromUtf8Error(Seq<char>),
    IoError(Seq<char>),
    Other(Seq<char>, Seq<char>),
}

impl View for ServiceManagerError {
    type V = ServiceManagerErrorView;

    open spec fn view(&self) -> ServiceManagerErrorView {
        match self {
            ServiceManagerError::UnsupportedServiceManager =>
                ServiceManagerErrorView::UnsupportedServiceManager,
            ServiceManagerError::UnsupportedOperatingSystem =>
                ServiceManagerErrorView::UnsupportedOperatingSystem,
            ServiceManagerError::FromUtf8Error(why) => ServiceManagerErrorView::FromUtf8Error(why@),
            ServiceManagerError::IoError(why) => ServiceManagerErrorView::IoError(why@),
            ServiceManagerError::Other(status, output) => ServiceManagerErrorView::Other(
                status@,
                output@,
            ),
        }
    }
}

impl SystemctlErrorView {
    /// The error as one of the service manager.
    pub open spec fn raised(self) -> ServiceManagerErrorView {
        match self {
            SystemctlErrorView::FromUtf8Error(why) => ServiceManagerErrorView::FromUtf8Error(why),
            SystemctlErrorView::IoError(why) => ServiceManagerErrorView::IoError(why),
            SystemctlErrorView::Other(status, output) => ServiceManagerErrorView::Other(
                status,
                output,
            ),
        }
    }
}

impl ServiceManagerErrorView {
    /// The description of the error.
    pub open spec fn text(self) -> Seq<char> {
        match self {
            ServiceManagerErrorView::UnsupportedServiceManager => "unsupported service manager"@,
            ServiceManagerErrorView::UnsupportedOperatingSystem => "unsupported operating system"@,
            ServiceManagerErrorView::FromUtf8Error(why) => why,
            ServiceManagerErrorView::IoError(why) => why,
            ServiceManagerErrorView::Other(status, output) => status + " output="@ + output,
        }
    }
}

impl ServiceManagerError {
    /// Describes the error.
    pub fn to_string(&self) -> (text: String)
        ensures
            text@ == self@.text(),
    {
        match self {
            ServiceManagerError::UnsupportedServiceManager => {
                "unsupported service manager".to_owned()
            },
            ServiceManagerError::UnsupportedOperatingSystem => {
                "unsupported operating system".to_owned()
            },
            ServiceManagerError::FromUtf8Error(why) => why.clone(),
            ServiceManagerError::IoError(why) => why.clone(),
            ServiceManagerError::Other(status, output) => {
                let mut text = status.clone();
                text.append(" output=");
                text.append(output.as_str());
                text
            },
        }
    }

    /// The error of a command as one of the service manager.
    pub fn of(err: SystemctlError) -> (raised: ServiceManagerError)
        ensures
            raised@ == err@.raised(),
    {
        match err {
            SystemctlError::FromUtf8Error(why) => ServiceManagerError::FromUtf8Error(why),
            SystemctlError::IoError(why) => ServiceManagerError::IoError(why),
            SystemctlError::Other(status, output) => ServiceManagerError::Other(status, output),
        }
    }
}

/// What `systemctl` is asked to do.
#[derive(Clone, Copy, PartialEq, Eq, Debug, Structural)]
pub enum Verb {
    Start,
    IsActive,
    Cat,
}

impl Verb {
    /// The word that stands for the verb on the command line.
    pub open spec fn word(self) -> Seq<char> {
        match self {
            Verb::Start => "start"@,
            Verb::IsActive => "is-active"@,
            Verb::Cat => "cat"@,
        }
    }

    /// The word that stands for the verb on the command line.
    pub fn as_str(&self) -> (word: &'static str)
        ensures
            word@ == self.word(),
    {
        match self {
            Verb::Start => "start",
            Verb::IsActive => "is-active",
            Verb::Cat => "cat",
        }
    }
}

/// A command of `systemctl` that is to be run: what to do, and whether as
/// root. The unit is always that of the Portmaster.
#[derive(Clone, Copy, PartialEq, Eq, Debug, Structural)]
pub struct Invocation {
    pub verb: Verb,
    pub as_root: bool,
}

/// How the end of a command is described where none was run: the end of a
/// command that succeeded.
pub const NO_FAILURE: &'static str = "exit status: 0";

/// How far an inquiry into the system service has come.
#[derive(Debug, PartialEq, Eq)]
pub enum Inquiry {
    /// The service is to be started.
    Starting,
    /// The service is to be asked whether it is active.
    Asking,
    /// The unit is to be looked up; the error of the earlier question is
    /// kept.
    Looking(SystemctlError),
    /// The inquiry has ended, with what is known of the service or with an
    /// error.
    Done(Result<StatusResult, ServiceManagerError>),
}

/// An inquiry as a mathematical value.
pub enum InquiryView {
    Starting,
    Asking,
    Looking(SystemctlErrorView),
    Done(Result<StatusResult, ServiceManagerErrorView>),
}

impl View for Inquiry {
    type V = InquiryView;

    open spec fn view(&self) -> InquiryView {
        match self {
            Inquiry::Starting => InquiryView::Starting,
            Inquiry::Asking => InquiryView::Asking,
            Inquiry::Looking(err) => InquiryView::Looking(err@),
            Inquiry::Done(Ok(status)) => InquiryView::Done(Ok(*status)),
            Inquiry::Done(Err(err)) => InquiryView::Done(Err(err@)),
        }
    }
}

impl InquiryView {
    /// The command that the inquiry waits for, if it has not ended.
    pub open spec fn pending(self) -> Option<Invocation> {
        match self {
            InquiryView::Starting => Some(Invocation { verb: Verb::Start, as_root: true }),
            InquiryView::Asking => Some(Invocation { verb: Verb::IsActive, as_root: false }),
            InquiryView::Looking(_) => Some(Invocation { verb: Verb::Cat, as_root: false }),
            InquiryView::Done(_) => None,
        }
    }

    /// How many commands the inquiry may still ask for.
    pub open spec fn commands_left(self) -> nat {
        match self {
            InquiryView::Starting => 3,
            InquiryView::Asking => 2,
            InquiryView::Looking(_) => 1,
            InquiryView::Done(_) => 0,
        }
    }

    /// The inquiry after the command it waited for gave `outcome`.
    ///
    /// A service that was started is asked whether it is active; one that
    /// could not be started ends the inquiry with that error. A service
    /// that answers "active" runs; any other answer of a successful command
    /// is an error. A failed question that printed "inactive" means that
    /// the service is stopped; after any other failure the unit is looked
    /// up. A lookup that fails with "No files found for" means that the
    /// service is not installed, and any other failed lookup is an error.
    /// After a lookup that succeeds the service is stopped where the
    /// earlier error reads "inactive", and else that error stands.
    pub open spec fn after(self, outcome: Result<Seq<char>, SystemctlErrorView>) -> InquiryView {
        match self {
            InquiryView::Starting => match outcome {
                Ok(_) => InquiryView::Asking,
                Err(err) => InquiryView::Done(Err(err.raised())),
            },
            InquiryView::Asking => match outcome {
                Ok(stdout) => if without_newline(stdout) == "active"@ {
                    InquiryView::Done(Ok(StatusResult::Running))
                } else {
                    InquiryView::Done(Err(ServiceManagerErrorView::Other(NO_FAILURE@, stdout)))
                },
                Err(err) => if err matches SystemctlErrorView::Other(_, output) && without_newline(
                    output,
                ) == "inactive"@ {
                    InquiryView::Done(Ok(StatusResult::Stopped))
                } else {
                    InquiryView::Looking(err)
                },
            },
            InquiryView::Looking(first) => match outcome {
                Err(SystemctlErrorView::Other(status, msg)) => if occurs_in(
                    "No files found for"@,
                    msg,
                ) {
                    InquiryView::Done(Ok(StatusResult::NotFound))
                } else {
                    InquiryView::Done(Err(ServiceManagerErrorView::Other(status, msg)))
                },
                Err(err) => InquiryView::Done(Err(err.raised())),
                Ok(_) => if without_newline(first.text()) == "inactive"@ {
                    InquiryView::Done(Ok(StatusResult::Stopped))
                } else {
                    InquiryView::Done(Err(first.raised()))
                },
            },
            InquiryView::Done(result) => InquiryView::Done(result),
        }
    }
}

/// Every inquiry ends: it asks for three commands at most, whatever they
/// give, and once it has ended no outcome changes it.
pub proof fn lemma_inquiry_ends(
    inquiry: InquiryView,
    first: Result<Seq<char>, SystemctlErrorView>,
    second: Result<Seq<char>, SystemctlErrorView>,
    third: Result<Seq<char>, SystemctlErrorView>,
)
    ensures
        inquiry.after(first).after(second).after(third) is Done,
        inquiry.pending() is None <==> inquiry is Done,
        inquiry is Done ==> inquiry.after(first) == inquiry,
        inquiry.pending() is Some ==> inquiry.after(first).commands_left()
            < inquiry.commands_left(),
{
}

/// Whether `text`, without its closing line end, reads `word`.
fn reads(text: &String, word: &str) -> (same: bool)
    ensures
        same == (without_newline(text@) == word@),
{
    let mut copy = text.clone();
    trim_newline(&mut copy);
    same_text(copy.as_str(), word)
}

impl Inquiry {
    /// The command that the inquiry waits for, if it has not ended.
    pub fn pending(&self) -> (invocation: Option<Invocation>)
        ensures
            invocation == self@.pending(),
    {
        match self {
            Inquiry::Starting => Some(Invocation { verb: Verb::Start, as_root: true }),
            Inquiry::Asking => Some(Invocation { verb: Verb::IsActive, as_root: false }),
            Inquiry::Looking(_) => Some(Invocation { verb: Verb::Cat, as_root: false }),
            Inquiry::Done(_) => None,
        }
    }

    /// Takes the outcome of the command that the inquiry waited for, and
    /// says how the inquiry goes on. An inquiry that still waits comes
    /// nearer to its end; one that has ended stays as it is.
    pub fn proceed(self, outcome: Result<String, SystemctlError>) -> (next: Inquiry)
        ensures
            next@ == self@.after(outcome_view(outcome)),
            self@.pending() is Some ==> next@.commands_left() < self@.commands_left(),
    {
        match self {
            Inquiry::Starting => match outcome {
                Ok(_) => Inquiry::Asking,
                Err(err) => Inquiry::Done(Err(ServiceManagerError::of(err))),
            },
            Inquiry::Asking => match outcome {
                Ok(stdout) => {
                    if reads(&stdout, "active") {
                        Inquiry::Done(Ok(StatusResult::Running))
                    } else {
                        Inquiry::Done(
                            Err(ServiceManagerError::Other(NO_FAILURE.to_owned(), stdout)),
                        )
                    }
                },
                Err(err) => {
                    let stopped = match &err {
                        SystemctlError::Other(_, output) => reads(output, "inactive"),
                        _ => false,
                    };
                    if stopped {
                        Inquiry::Done(Ok(StatusResult::Stopped))
                    } else {
                        Inquiry::Looking(err)
                    }
                },
            },
            Inquiry::Looking(first) => match outcome {
                Err(SystemctlError::Other(status, msg)) => {
                    if contains_text(msg.as_str(), "No files found for") {
                        Inquiry::Done(Ok(StatusResult::NotFound))
                    } else {
                        Inquiry::Done(Err(ServiceManagerError::Other(status, msg)))
                    }
                },
                Err(err) => Inquiry::Done(Err(ServiceManagerError::of(err))),
                Ok(_) => {
                    let stderr = first.to_string();
                    if reads(&stderr, "inactive") {
                        Inquiry::Done(Ok(StatusResult::Stopped))
                    } else {
                        Inquiry::Done(Err(ServiceManagerError::of(first)))
                    }
                },
            },
            Inquiry::Done(result) => Inquiry::Done(result),
        }
    }

    /// What the inquiry found, once it has ended.
    pub fn result(self) -> (found: Option<Result<StatusResult, ServiceManagerError>>)
        ensures
            match found {
                Some(result) => self == Inquiry::Done(result),
                None => self@.pending() is Some,
            },
    {
        match self {
            Inquiry::Done(result) => Some(result),
            _ => None,
        }
    }
}

/// A manager of system services: it can say what is known of the service
/// of the Portmaster, and start it. Each answer is an inquiry, which says
/// which commands are to be run and ends with the result.
pub trait ServiceManager {
    /// Begins an inquiry into the state of the service.
    fn status(&self) -> Inquiry;

    /// Begins an inquiry that starts the service and then asks for its
    /// state.
    fn start(&self) -> Inquiry;
}

impl ServiceManager for SystemdServiceManager {
    fn status(&self) -> (inquiry: Inquiry)
        ensures
            inquiry == Inquiry::Asking,
    {
        Inquiry::Asking
    }

    fn start(&self) -> (inquiry: Inquiry)
        ensures
            inquiry == Inquiry::Starting,
    {
        Inquiry::Starting
    }
}

/// The manager of a system whose service manager is not known: every
/// inquiry has ended before it began.
#[derive(Clone, Copy, PartialEq, Eq, Debug, Structural)]
pub struct EmptyServiceManager();

impl ServiceManager for EmptyServiceManager {
    fn status(&self) -> (inquiry: Inquiry)
        ensures
            inquiry == Inquiry::Done(Err(ServiceManagerError::UnsupportedServiceManager)),
    {
        Inquiry::Done(Err(ServiceManagerError::UnsupportedServiceManager))
    }

    fn start(&self) -> (inquiry: Inquiry)
        ensures
            inquiry == Inquiry::Done(Err(ServiceManagerError::UnsupportedServiceManager)),
    {
        Inquiry::Done(Err(ServiceManagerError::UnsupportedServiceManager))
    }
}

/// The manager of the system services: that of systemd on Linux where
/// `systemctl` is installed.
pub fn get_service_manager(linux: bool, systemctl_installed: bool) -> (manager: Result<
    SystemdServiceManager,
    ServiceManagerError,
>)
    ensures
        manager == if !linux {
            Err::<SystemdServiceManager, ServiceManagerError>(
                ServiceManagerError::UnsupportedOperatingSystem,
            )
        } else if systemctl_installed {
            Ok::<SystemdServiceManager, ServiceManagerError>(SystemdServiceManager {  })
        } else {
            Err::<SystemdServiceManager, ServiceManagerError>(
                ServiceManagerError::UnsupportedServiceManager,
            )
        },
{
    if !linux {
        Err(ServiceManagerError::UnsupportedOperatingSystem)
    } else if systemctl_installed {
        Ok(SystemdServiceManager {  })
    } else {
        Err(ServiceManagerError::UnsupportedServiceManager)
    }
}

} // verus!
