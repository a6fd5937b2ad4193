//! What is known of the program behind a process: its name and its icon,
//! as the desktop entries of the system give them.
//!
//! Reading directories and desktop entries and loading icons are the
//! caller's part. What is decided here: where desktop entries are looked
//! for, which entry belongs to a process, under which names its icon is
//! looked for, and in which order all this is tried.

use crate::store::Keyed;
use crate::text::{
    contains_text, ends_with_text, format_signed, has_suffix, lowercase, occurs_in, remove_all,
    signed_digits, split_fields, split_text, texts, to_lowercase, without,
};
use vstd::prelude::*;

verus! {

/// What is known of a program.
#[derive(Clone, Debug, PartialEq, Eq)]
pub struct AppInfo {
    pub icon_name: String,
    pub app_name: String,
    pub icon_dataurl: String,
    pub comment: String,
}

/// What is known of a program, as a mathematical value.
pub struct AppInfoView {
    pub icon_name: Seq<char>,
    pub app_name: Seq<char>,
    pub icon_dataurl: Seq<char>,
    pub comment: Seq<char>,
}

impl View for AppInfo {
    type V = AppInfoView;

    open spec fn view(&self) -> AppInfoView {
        AppInfoView {
            icon_name: self.icon_name@,
            app_name: self.app_name@,
            icon_dataurl: self.icon_dataurl@,
            comment: self.comment@,
        }
    }
}

impl Default for AppInfo {
    /// Nothing is known: every field is empty.
    fn default() -> (info: AppInfo)
        ensures
            info@ == (AppInfoView {
                icon_name: Seq::empty(),
                app_name: Seq::empty(),
                icon_dataurl: Seq::empty(),
                comment: Seq::empty(),
            }),
    {
        AppInfo {
            icon_dataurl: String::new(),
            icon_name: String::new(),
            app_name: String::new(),
            comment: String::new(),
        }
    }
}

impl AppInfo {
    /// A copy of what is known.
    pub fn copy(&self) -> (info: AppInfo)
        ensures
            info@ == self@,
    {
        AppInfo {
            icon_name: self.icon_name.clone(),
            app_name: self.app_name.clone(),
            icon_dataurl: self.icon_dataurl.clone(),
            comment: self.comment.clone(),
        }
    }

    /// What is known once the icon was found: where it lies, and its
    /// picture as a data URL.
    pub fn with_icon(self, path: String, dataurl: String) -> (info: AppInfo)
        ensures
            info@ == (AppInfoView { icon_name: path@, icon_dataurl: dataurl@, ..self@ }),
    {
        AppInfo {
            icon_name: path,
            app_name: self.app_name,
            icon_dataurl: dataurl,
            comment: self.comment,
        }
    }
}

/// A process whose program is asked for.
#[derive(Clone, Debug, PartialEq, Eq)]
pub struct ProcessInfo {
    pub exec_path: String,
    pub cmdline: String,
    pub pid: i64,
    pub matching_path: String,
}

impl ProcessInfo {
    /// The description of the process.
    pub open spec fn description(&self) -> Seq<char> {
        self.exec_path@ + " (cmdline="@ + self.cmdline@ + ") (pid="@ + signed_digits(
            self.pid as int,
        ) + ") (matching_path="@ + self.matching_path@ + ")"@
    }

    /// Describes the process.
    pub fn to_string(&self) -> (text: String)
        ensures
            text@ == self.description(),
    {
        let mut text = self.exec_path.clone();
        text.append(" (cmdline=");
        text.append(self.cmdline.as_str());
        text.append(") (pid=");
        text.append(format_signed(self.pid).as_str());
        text.append(") (matching_path=");
        text.append(self.matching_path.as_str());
        text.append(")");
        text
    }

    /// The texts by which the program of the process is looked for: the
    /// path of the program, the command line and the matching path, in
    /// this order, without those that are empty.
    pub open spec fn needles(&self) -> Seq<Seq<char>> {
        (if self.exec_path@.len() > 0 {
            seq![self.exec_path@]
        } else {
            seq![]
        }) + (if self.cmdline@.len() > 0 {
            seq![self.cmdline@]
        } else {
            seq![]
        }) + (if self.matching_path@.len() > 0 {
            seq![self.matching_path@]
        } else {
            seq![]
        })
    }
}

/// The texts by which the program of a process is looked for.
pub fn needles(process_info: &ProcessInfo) -> (needles: Vec<String>)
    ensures
        texts(needles@) == process_info.needles(),
{
    let mut needles: Vec<String> = Vec::new();
    if !process_info.exec_path.as_str().is_empty() {
        needles.push(process_info.exec_path.clone());
    }
    if !process_info.cmdline.as_str().is_empty() {
        needles.push(process_info.cmdline.clone());
    }
    if !process_info.matching_path.as_str().is_empty() {
        needles.push(process_info.matching_path.clone());
    }
    assert(texts(needles@) =~= process_info.needles());
    needles
}

/// The field of a desktop entry that a needle is held against.
#[derive(Clone, Copy, PartialEq, Eq, Debug, Structural)]
pub enum CheckType {
    Name,
    Exec,
}

/// One try to find the desktop entry of a program.
#[derive(Debug, PartialEq, Eq)]
pub struct Attempt {
    pub needle: String,
    pub check: CheckType,
}

/// The tries to find the desktop entry for the needles `needles`: first
/// each needle against the command of the entries, then each against their
/// name.
pub open spec fn attempts_for(needles: Seq<Seq<char>>) -> Seq<(Seq<char>, CheckType)> {
    needles.map_values(|needle: Seq<char>| (needle, CheckType::Exec)) + needles.map_values(
        |needle: Seq<char>| (needle, CheckType::Name),
    )
}

/// A list of tries as a mathematical value.
pub open spec fn attempts_view(attempts: Seq<Attempt>) -> Seq<(Seq<char>, CheckType)> {
    attempts.map_values(|attempt: Attempt| (attempt.needle@, attempt.check))
}

/// The tries to find the desktop entry of the program of a process, in
/// their order.
pub fn attempts(process_info: &ProcessInfo) -> (attempts: Vec<Attempt>)
    ensures
        attempts_view(attempts@) == attempts_for(process_info.needles()),
{
    let needles = needles(process_info);
    let ghost wanted = attempts_for(texts(needles@));
    let mut attempts: Vec<Attempt> = Vec::new();
    let mut i: usize = 0;
    while i < needles.len()
        invariant
            i <= needles.len(),
            attempts_view(attempts@) == wanted.take(i as int),
            wanted == attempts_for(texts(needles@)),
        decreases needles.len() - i,
    {
        let ghost before = attempts@;
        let attempt = Attempt { needle: needles[i].clone(), check: CheckType::Exec };
        attempts.push(attempt);
        i = i + 1;
        assert(attempts_view(attempts@) =~= wanted.take(i as int)) by {
            assert(attempts@ == before.push(attempt));
            assert(wanted.len() == 2 * needles.len());
            assert(attempts_view(before).len() == i - 1);
            assert(wanted[i - 1] == (texts(needles@)[i - 1], CheckType::Exec));
            assert forall|k: int| 0 <= k < i implies attempts_view(attempts@)[k] == wanted.take(
                i as int,
            )[k] by {
                if k < i - 1 {
                    assert(attempts_view(before)[k] == wanted.take(i - 1)[k]);
                }
            }
        }
    }
    let mut j: usize = 0;
    assert(wanted.len() == 2 * needles.len());
    while j < needles.len()
        invariant
            j <= needles.len(),
            attempts_view(attempts@) == wanted.take(needles.len() + j),
            wanted == attempts_for(texts(needles@)),
        decreases needles.len() - j,
    {
        let ghost before = attempts@;
        let attempt = Attempt { needle: needles[j].clone(), check: CheckType::Name };
        attempts.push(attempt);
        j = j + 1;
        assert(attempts_view(attempts@) =~= wanted.take(needles.len() + j)) by {
            assert(attempts@ == before.push(attempt));
            assert(wanted.len() == 2 * needles.len());
            assert(attempts_view(before).len() == needles.len() + j - 1);
            assert(wanted[needles.len() + j - 1] == (texts(needles@)[j - 1], CheckType::Name));
            assert forall|k: int| 0 <= k < needles.len() + j implies attempts_view(attempts@)[k]
                == wanted.take(needles.len() + j)[k] by {
                if k < needles.len() + j - 1 {
                    assert(attempts_view(before)[k] == wanted.take(needles.len() + j - 1)[k]);
                }
            }
        }
    }
    assert(wanted.take(needles.len() + j) =~= wanted);
    attempts
}

/// The tries to find the desktop entry of the program at `path`: first
/// against the command of the entries, then against their name.
pub fn find_icon(path: &str) -> (attempts: Vec<Attempt>)
    ensures
        attempts_view(attempts@) == attempts_for(seq![path@]),
{
    let mut attempts: Vec<Attempt> = Vec::new();
    attempts.push(Attempt { needle: path.to_owned(), check: CheckType::Exec });
    attempts.push(Attempt { needle: path.to_owned(), check: CheckType::Name });
    assert(attempts_view(attempts@) =~= attempts_for(seq![path@]));
    attempts
}

/// Why a lookup gave nothing: whether what was looked for is not there, or
/// something else went wrong, and a description.
#[derive(Clone, Debug, PartialEq, Eq)]
pub struct LookupError {
    pub not_found: bool,
    pub message: String,
}

/// What is said when no desktop entry belongs to a process.
pub const NO_APP_INFO: &'static str = "failed to find app info";

/// What is said when no desktop entry matches a needle.
pub const NO_DESKTOP_FILE: &'static str = "no matching .desktop files found";

/// What is said when no icon of a name can be loaded.
pub const NO_ICON: &'static str = "failed to find icon";

/// What is said when the home directory of the user is not known.
pub const NO_HOME: &'static str = "Failed to get home directory";

/// The error of something that is not there.
pub fn not_found(message: &str) -> (err: LookupError)
    ensures
        err.not_found,
        err.message@ == message@,
{
    LookupError { not_found: true, message: message.to_owned() }
}

/// How far the search for the program of a process has come.
pub enum AppSearch {
    /// The try at the index `at` of `attempts` is to be made. What is found
    /// is remembered under `exec_path`.
    Looking { attempts: Vec<Attempt>, at: usize, exec_path: String },
    /// The search has ended.
    Done(Result<AppInfo, LookupError>),
}

/// A search as a mathematical value.
pub enum AppSearchView {
    Looking { attempts: Seq<(Seq<char>, CheckType)>, at: nat, exec_path: Seq<char> },
    Found(AppInfoView),
    Failed { not_found: bool, message: Seq<char> },
}

impl View for AppSearch {
    type V = AppSearchView;

    open spec fn view(&self) -> AppSearchView {
        match self {
            AppSearch::Looking { attempts, at, exec_path } => AppSearchView::Looking {
                attempts: attempts_view(attempts@),
                at: *at as nat,
                exec_path: exec_path@,
            },
            AppSearch::Done(Ok(info)) => AppSearchView::Found(info@),
            AppSearch::Done(Err(err)) => AppSearchView::Failed {
                not_found: err.not_found,
                message: err.message@,
            },
        }
    }
}

/// The outcome of one try, as a mathematical value.
pub enum TryView {
    Found(AppInfoView),
    Failed { not_found: bool, message: Seq<char> },
}

/// The outcome of one try, as a mathematical value.
pub open spec fn try_view(outcome: Result<AppInfo, LookupError>) -> TryView {
    match outcome {
        Ok(info) => TryView::Found(info@),
        Err(err) => TryView::Failed { not_found: err.not_found, message: err.message@ },
    }
}

/// The texts under which programs are remembered.
pub open spec fn remembered(cache: Map<Seq<char>, AppInfo>) -> Map<Seq<char>, AppInfoView> {
    Map::new(|path: Seq<char>| cache.contains_key(path), |path: Seq<char>| cache[path]@)
}

impl AppSearchView {
    /// The search for a process: it has ended where the program is
    /// remembered or where there is nothing to look for, and else begins
    /// with the first try.
    pub open spec fn begin(
        cache: Map<Seq<char>, AppInfoView>,
        exec_path: Seq<char>,
        needles: Seq<Seq<char>>,
    ) -> AppSearchView {
        if cache.contains_key(exec_path) {
            AppSearchView::Found(cache[exec_path])
        } else if needles.len() == 0 {
            AppSearchView::Failed { not_found: true, message: NO_APP_INFO@ }
        } else {
            AppSearchView::Looking { attempts: attempts_for(needles), at: 0, exec_path }
        }
    }

    /// The try that the search waits for, if it has not ended.
    pub open spec fn pending(self) -> Option<(Seq<char>, CheckType)> {
        match self {
            AppSearchView::Looking { attempts, at, .. } => if at < attempts.len() {
                Some(attempts[at as int])
            } else {
                None
            },
            _ => None,
        }
    }

    /// How many tries the search may still ask for.
    pub open spec fn tries_left(self) -> nat {
        match self {
            AppSearchView::Looking { attempts, at, .. } => if at < attempts.len() {
                (attempts.len() - at) as nat
            } else {
                0
            },
            _ => 0,
        }
    }

    /// The search after the try it waited for gave `outcome`: what was
    /// found ends the search, and so does every failure but that nothing
    /// was found; after that the next try follows, and after the last the
    /// search has found nothing.
    pub open spec fn after(self, outcome: TryView) -> AppSearchView {
        match self {
            AppSearchView::Looking { attempts, at, exec_path } => match outcome {
                TryView::Found(info) => AppSearchView::Found(info),
                TryView::Failed { not_found, message } => if !not_found {
                    AppSearchView::Failed { not_found, message }
                } else if at + 1 < attempts.len() {
                    AppSearchView::Looking { attempts, at: at + 1, exec_path }
                } else {
                    AppSearchView::Failed { not_found: true, message: NO_APP_INFO@ }
                },
            },
            _ => self,
        }
    }
}

/// Begins the search for the program of a process. What `cache` remembers
/// of the program is the result at once.
pub fn get_app_info(cache: &Keyed<AppInfo>, process_info: ProcessInfo) -> (search: AppSearch)
    ensures
        search@ == AppSearchView::begin(
            remembered(cache@),
            process_info.exec_path@,
            process_info.needles(),
        ),
{
    if let Some(value) = cache.get(process_info.exec_path.as_str()) {
        return AppSearch::Done(Ok(value.copy()));
    }
    let attempts = attempts(&process_info);
    assert(attempts_view(attempts@).len() == attempts.len());
    assert(attempts_for(process_info.needles()).len() == 2 * process_info.needles().len());
    if attempts.len() == 0 {
        AppSearch::Done(Err(not_found(NO_APP_INFO)))
    } else {
        AppSearch::Looking { attempts, at: 0, exec_path: process_info.exec_path }
    }
}

impl AppSearch {
    /// The needle and the field of the try that the search waits for, if it
    /// has not ended.
    pub fn pending(&self) -> (attempt: Option<&Attempt>)
        ensures
            match attempt {
                Some(a) => self@.pending() == Some((a.needle@, a.check)),
                None => self@.pending() is None,
            },
    {
        match self {
            AppSearch::Looking { attempts, at, .. } => {
                if *at < attempts.len() {
                    Some(&attempts[*at])
                } else {
                    None
                }
            },
            _ => None,
        }
    }

    /// Takes the outcome of the try that the search waited for, and says
    /// how the search goes on. What was found is remembered in `cache`
    /// under the path of the program.
    pub fn proceed(
        self,
        outcome: Result<AppInfo, LookupError>,
        cache: &mut Keyed<AppInfo>,
    ) -> (next: AppSearch)
        ensures
            next@ == self@.after(try_view(outcome)),
            self@.pending() is Some ==> next@.tries_left() < self@.tries_left(),
            match (self, outcome) {
                (AppSearch::Looking { exec_path, .. }, Ok(info)) => remembered(final(cache)@)
                    == remembered(old(cache)@).insert(exec_path@, info@),
                _ => final(cache)@ == old(cache)@,
            },
    {
        match self {
            AppSearch::Looking { attempts, at, exec_path } => match outcome {
                Ok(info) => {
                    let kept = info.copy();
                    cache.insert(exec_path, kept);
                    assert(remembered(cache@) =~= remembered(old(cache)@).insert(
                        exec_path@,
                        info@,
                    ));
                    AppSearch::Done(Ok(info))
                },
                Err(err) => {
                    if !err.not_found {
                        AppSearch::Done(Err(err))
                    } else if at < attempts.len() && at + 1 < attempts.len() {
                        AppSearch::Looking { attempts, at: at + 1, exec_path }
                    } else {
                        AppSearch::Done(Err(not_found(NO_APP_INFO)))
                    }
                },
            },
            AppSearch::Done(result) => AppSearch::Done(result),
        }
    }

    /// What the search found, once it has ended.
    pub fn result(self) -> (found: Option<Result<AppInfo, LookupError>>)
        ensures
            match found {
                Some(result) => self == AppSearch::Done(result),
                None => self is Looking,
            },
    {
        match self {
            AppSearch::Done(result) => Some(result),
            _ => None,
        }
    }
}

/// The directory below the home directory that holds the data of the user
/// unless the environment names another.
pub const USER_DATA_DIR: &'static str = ".local/share";

/// The directory of a data directory that holds the desktop entries.
pub const APPLICATIONS_DIR: &'static str = "applications";

/// The path of `name` below the directory `dir`: both with one separator
/// in between, which `dir` may bring along; `name` alone below the empty
/// path, and where `name` starts at the root.
pub open spec fn joined(dir: Seq<char>, name: Seq<char>) -> Seq<char> {
    if name.len() > 0 && name[0] == '/' {
        name
    } else if dir.len() == 0 {
        name
    } else if dir.last() == '/' {
        dir + name
    } else {
        dir + seq!['/'] + name
    }
}

/// The path of `name` below the directory `dir`.
pub fn join_path(dir: &str, name: &str) -> (path: String)
    ensures
        path@ == joined(dir@, name@),
{
    proof {
        reveal_strlit("/");
    }
    if name.unicode_len() > 0 && name.get_char(0) == '/' {
        return name.to_owned();
    }
    let len = dir.unicode_len();
    if len == 0 {
        return name.to_owned();
    }
    let mut path = dir.to_owned();
    if dir.get_char(len - 1) != '/' {
        path.append("/");
    }
    path.append(name);
    path
}

/// The directories in which desktop entries are looked for: the
/// applications directory of each system data directory, then that of the
/// data directory of the user.
pub open spec fn directories_for(data_home: Seq<char>, data_dirs: Seq<Seq<char>>) -> Seq<
    Seq<char>,
> {
    data_dirs.map_values(|dir: Seq<char>| joined(dir, APPLICATIONS_DIR@)).push(
        joined(data_home, APPLICATIONS_DIR@),
    )
}

/// The directories in which desktop entries are looked for.
///
/// `data_home` and `data_dirs` are what the environment names as the data
/// directory of the user and as the system data directories, and `home` is
/// the home directory of the user. Where the environment names no data
/// directory of the user, it lies below the home directory, and without a
/// home directory there is no answer. Where it names no system data
/// directories, these are `/usr/share` and `/usr/local/share`.
pub fn get_application_directories(
    data_home: Option<String>,
    home: Option<String>,
    data_dirs: Option<Vec<String>>,
) -> (dirs: Result<Vec<String>, LookupError>)
    ensures
        match dirs {
            Ok(dirs) => {
                &&& data_home is Some || home is Some
                &&& texts(dirs@) == directories_for(
                    match data_home {
                        Some(path) => path@,
                        None => joined(home->0@, USER_DATA_DIR@),
                    },
                    match data_dirs {
                        Some(paths) => texts(paths@),
                        None => seq!["/usr/share"@, "/usr/local/share"@],
                    },
                )
            },
            Err(err) => data_home is None && home is None && !err.not_found && err.message@
                == NO_HOME@,
        },
{
    let xdg_home = match data_home {
        Some(path) => path,
        None => match home {
            Some(home) => join_path(home.as_str(), USER_DATA_DIR),
            None => {
                return Err(LookupError { not_found: false, message: NO_HOME.to_owned() });
            },
        },
    };
    let extra: Vec<String> = match data_dirs {
        Some(paths) => paths,
        None => {
            let mut paths: Vec<String> = Vec::new();
            paths.push("/usr/share".to_owned());
            paths.push("/usr/local/share".to_owned());
            assert(texts(paths@) =~= seq!["/usr/share"@, "/usr/local/share"@]);
            paths
        },
    };
    let ghost wanted = directories_for(xdg_home@, texts(extra@));
    let mut app_dirs: Vec<String> = Vec::new();
    let mut i: usize = 0;
    while i < extra.len()
        invariant
            i <= extra.len(),
            wanted == directories_for(xdg_home@, texts(extra@)),
            texts(app_dirs@) == wanted.take(i as int),
        decreases extra.len() - i,
    {
        let ghost before = app_dirs@;
        let dir = join_path(extra[i].as_str(), APPLICATIONS_DIR);
        app_dirs.push(dir);
        i = i + 1;
        assert(texts(app_dirs@) =~= wanted.take(i as int)) by {
            assert(app_dirs@ == before.push(dir));
            assert(texts(before).len() == i - 1);
            assert(wanted[i - 1] == joined(texts(extra@)[i - 1], APPLICATIONS_DIR@));
            assert forall|k: int| 0 <= k < i implies texts(app_dirs@)[k] == wanted.take(
                i as int,
            )[k] by {
                if k < i - 1 {
                    assert(texts(before)[k] == wanted.take(i - 1)[k]);
                }
            }
        }
    }
    let ghost before = app_dirs@;
    let last = join_path(xdg_home.as_str(), APPLICATIONS_DIR);
    app_dirs.push(last);
    assert(texts(app_dirs@) =~= wanted) by {
        assert(app_dirs@ == before.push(last));
        assert(texts(before).len() == extra.len());
        assert(wanted.take(extra.len() as int).len() == extra.len());
        assert forall|k: int| 0 <= k < wanted.len() implies texts(app_dirs@)[k] == wanted[k] by {
            if k < extra.len() {
                assert(texts(before)[k] == wanted.take(extra.len() as int)[k]);
            }
        }
    }
    Ok(app_dirs)
}

/// The ending of the name of a desktop entry.
pub const DESKTOP_SUFFIX: &'static str = ".desktop";

/// Whether an entry of a directory is a desktop entry: a file, or a link
/// to one, whose name ends in `.desktop`.
pub fn is_desktop_file(is_file: bool, is_symlink: bool, name: &str) -> (desktop: bool)
    ensures
        desktop == ((is_file || is_symlink) && has_suffix(name@, DESKTOP_SUFFIX@)),
{
    (is_file || is_symlink) && ends_with_text(name, DESKTOP_SUFFIX)
}

/// The section of a desktop entry that describes the program.
pub const DESKTOP_SECTION: &'static str = "Desktop Entry";

/// What the section of a desktop entry says of a program, as far as it is
/// read here: each field is nothing where the entry does not have it.
#[derive(Clone, Debug, PartialEq, Eq)]
pub struct DesktopEntry {
    pub name: Option<String>,
    pub command: Option<String>,
    pub icon: Option<String>,
    pub comment: Option<String>,
}

/// The text of an optional string slice.
pub open spec fn str_of(field: Option<&str>) -> Option<Seq<char>> {
    match field {
        Some(text) => Some(text@),
        None => None,
    }
}

/// The text of an optional string, and the empty text where there is none.
pub open spec fn text_or_empty(field: Option<String>) -> Seq<char> {
    match field {
        Some(text) => text@,
        None => Seq::empty(),
    }
}

/// Whether a desktop entry belongs to a needle, given the field of the
/// entry in lower case. An entry without the field belongs to no needle.
/// A name belongs to a needle where it holds the file name of the needle;
/// a command belongs to it where it holds the needle or its file name.
pub open spec fn belongs(
    check: CheckType,
    field: Option<Seq<char>>,
    needle: Seq<char>,
    file_name: Option<Seq<char>>,
) -> bool {
    match field {
        None => false,
        Some(lower) => match check {
            CheckType::Name => file_name matches Some(file_name) && occurs_in(file_name, lower),
            CheckType::Exec => occurs_in(needle, lower) || (file_name matches Some(file_name)
                && occurs_in(file_name, lower)),
        },
    }
}

/// The lower-case form of an optional string.
pub open spec fn lowered(field: Option<String>) -> Option<Seq<char>> {
    match field {
        Some(text) => Some(lowercase(text@)),
        None => None,
    }
}

/// Whether a desktop entry belongs to a needle, given the field of the
/// entry in lower case.
pub fn matches_field(
    check: CheckType,
    field: Option<&str>,
    needle: &str,
    file_name: Option<&str>,
) -> (found: bool)
    ensures
        found == belongs(check, str_of(field), needle@, str_of(file_name)),
{
    match field {
        None => false,
        Some(lower) => match check {
            CheckType::Name => match file_name {
                Some(file_name) => contains_text(lower, file_name),
                None => false,
            },
            CheckType::Exec => {
                if contains_text(lower, needle) {
                    true
                } else {
                    match file_name {
                        Some(file_name) => contains_text(lower, file_name),
                        None => false,
                    }
                }
            },
        },
    }
}

/// Whether the desktop entry `entry` belongs to the needle `needle`, whose
/// file name is `file_name`: its name or its command, whichever `check`
/// names, is held against them in lower case.
pub fn entry_matches(
    check: CheckType,
    entry: &DesktopEntry,
    needle: &str,
    file_name: Option<&str>,
) -> (found: bool)
    ensures
        found == belongs(
            check,
            lowered(
                match check {
                    CheckType::Name => entry.name,
                    CheckType::Exec => entry.command,
                },
            ),
            needle@,
            str_of(file_name),
        ),
{
    let field = match check {
        CheckType::Name => &entry.name,
        CheckType::Exec => &entry.command,
    };
    match field {
        Some(text) => {
            let lower = to_lowercase(text.as_str());
            matches_field(check, Some(lower.as_str()), needle, file_name)
        },
        None => matches_field(check, None, needle, file_name),
    }
}

/// What a desktop entry says of its program: its name, its comment and the
/// name of its icon, each empty where the entry does not have it. The
/// picture of the icon is not known yet.
pub fn parse_app_info(props: &DesktopEntry) -> (info: AppInfo)
    ensures
        info@ == (AppInfoView {
            icon_name: text_or_empty(props.icon),
            app_name: text_or_empty(props.name),
            icon_dataurl: Seq::empty(),
            comment: text_or_empty(props.comment),
        }),
{
    AppInfo {
        icon_dataurl: String::new(),
        app_name: match &props.name {
            Some(name) => name.clone(),
            None => String::new(),
        },
        comment: match &props.comment {
            Some(comment) => comment.clone(),
            None => String::new(),
        },
        icon_name: match &props.icon {
            Some(icon) => icon.clone(),
            None => String::new(),
        },
    }
}

/// The names under which the icon named `name` is looked for, in their
/// order: the name itself; where the name has an extension, the name
/// without it; and each part of that name between dashes.
pub open spec fn icon_names(name: Seq<char>, extension: Option<Seq<char>>) -> Seq<Seq<char>> {
    match extension {
        Some(ext) => {
            let bare = without(name, seq!['.'] + ext);
            seq![name, bare] + split_fields('-', bare)
        },
        None => seq![name] + split_fields('-', name),
    }
}

/// The names under which the icon named `name` is looked for, in their
/// order. `extension` is the extension of `name` as a file name, if it has
/// one.
pub fn icon_candidates(name: &str, extension: Option<&str>) -> (icons: Vec<String>)
    ensures
        texts(icons@) == icon_names(name@, str_of(extension)),
{
    let mut icons: Vec<String> = Vec::new();
    icons.push(name.to_owned());
    let bare = match extension {
        Some(ext) => {
            proof {
                reveal_strlit(".");
            }
            let mut ext_dot = ".".to_owned();
            ext_dot.append(ext);
            assert(ext_dot@ =~= seq!['.'] + ext@);
            let bare = remove_all(name, ext_dot.as_str());
            icons.push(bare.clone());
            assert(texts(icons@) =~= seq![name@, bare@]);
            bare
        },
        None => {
            assert(texts(icons@) =~= seq![name@]);
            name.to_owned()
        },
    };
    let ghost front = texts(icons@);
    let parts = split_text(bare.as_str(), '-');
    let mut i: usize = 0;
    while i < parts.len()
        invariant
            i <= parts.len(),
            texts(icons@) == front + texts(parts@).take(i as int),
        decreases parts.len() - i,
    {
        let ghost before = icons@;
        let part = parts[i].clone();
        icons.push(part);
        i = i + 1;
        assert(texts(icons@) =~= front + texts(parts@).take(i as int)) by {
            assert(icons@ == before.push(part));
            assert(texts(parts@).len() == parts@.len());
            assert(texts(parts@).take(i - 1).len() == i - 1);
            assert(texts(before).len() == before.len());
            assert(texts(icons@).len() == icons@.len());
            assert forall|k: int| 0 <= k < texts(icons@).len() implies texts(icons@)[k] == (front
                + texts(parts@).take(i as int))[k] by {
                if k < before.len() {
                    assert(texts(icons@)[k] == texts(before)[k]);
                }
            }
        }
    }
    assert(texts(parts@).take(i as int) =~= texts(parts@));
    assert(texts(icons@) =~= icon_names(name@, str_of(extension)));
    icons
}

} // verus!
