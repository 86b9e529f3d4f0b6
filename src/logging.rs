use vstd::prelude::*;

verus! {

/// The path separator used when joining path segments.
pub open spec fn separator() -> char {
    '/'
}

/// `name` adjoined to `base`: a separator goes between the two unless `base`
/// is empty or already ends with one.
pub open spec fn join_spec(base: Seq<char>, name: Seq<char>) -> Seq<char> {
    if base.len() == 0 || base.last() == separator() {
        base + name
    } else {
        base + seq![separator()] + name
    }
}

/// Name of the per-user directory that holds the log files.
pub open spec fn app_dir_name() -> Seq<char> {
    seq!['.', 'C', 'l', 'a', 'u', 'd', 'i', 'a', 'X']
}

/// The log directory of a user whose home directory is `home`.
pub open spec fn log_dir_spec(home: Seq<char>) -> Seq<char> {
    join_spec(home, app_dir_name())
}

/// Joins a relative path segment onto a base path.
pub fn join_path(base: &str, name: &str) -> (r: String)
    ensures
        r@ == join_spec(base@, name@),
{
    let n = base.unicode_len();
    let mut r = base.to_owned();
    if n > 0 && base.get_char(n - 1) != '/' {
        proof {
            reveal_strlit("/");
        }
        r.append("/");
    }
    r.append(name);
    r
}

/// Name of the file that receives the backend's own log statements.
pub open spec fn backend_file_name() -> Seq<char> {
    seq!['b', 'a', 'c', 'k', 'e', 'n', 'd', '.', 'l', 'o', 'g']
}

/// Name of the file that receives the lines sent by the frontend.
pub open spec fn frontend_file_name() -> Seq<char> {
    seq!['f', 'r', 'o', 'n', 't', 'e', 'n', 'd', '.', 'l', 'o', 'g']
}

/// Text of the error reported when the home directory cannot be found.
pub open spec fn home_not_found_text() -> Seq<char> {
    seq![
        'C', 'o', 'u', 'l', 'd', ' ', 'n', 'o', 't', ' ', 'f', 'i', 'n', 'd', ' ', 'h', 'o', 'm',
        'e', ' ', 'd', 'i', 'r', 'e', 'c', 't', 'o', 'r', 'y',
    ]
}

/// Why a log location could not be resolved or a log file could not be written.
#[derive(Debug)]
pub enum LogError {
    /// The current user's home directory could not be determined.
    HomeDirectoryNotFound,
    /// Creating, opening or writing a file failed; holds the system's text.
    Io(String),
}

impl LogError {
    /// The text shown to a caller that can only display errors.
    pub open spec fn message_spec(&self) -> Seq<char> {
        match self {
            LogError::HomeDirectoryNotFound => home_not_found_text(),
            LogError::Io(text) => text@,
        }
    }

    /// The error as human-readable text.
    pub fn message(&self) -> (r: String)
        ensures
            r@ == self.message_spec(),
    {
        match self {
            LogError::HomeDirectoryNotFound => {
                proof {
                    reveal_strlit("Could not find home directory");
                    assert("Could not find home directory"@ =~= home_not_found_text());
                }
                "Could not find home directory".to_owned()
            },
            LogError::Io(text) => text.clone(),
        }
    }
}

/// Relies on dirs::home_dir: the current user's home directory, when one can
/// be determined. What it returns depends on the environment, so nothing is
/// stated of it.
#[verifier::external_body]
pub(crate) fn home_dir() -> (r: Option<String>) {
    match dirs::home_dir() {
        Some(p) => Some(p.to_string_lossy().into_owned()),
        None => None,
    }
}

/// The log directory for a given home directory, or an error when there is none.
pub fn log_directory_for(home: Option<String>) -> (r: Result<String, LogError>)
    ensures
        match home {
            Some(h) => r matches Ok(d) && d@ == log_dir_spec(h@),
            None => r matches Err(LogError::HomeDirectoryNotFound),
        },
{
    match home {
        Some(h) => {
            proof {
                reveal_strlit(".ClaudiaX");
                assert(".ClaudiaX"@ =~= app_dir_name());
            }
            Ok(join_path(h.as_str(), ".ClaudiaX"))
        },
        None => Err(LogError::HomeDirectoryNotFound),
    }
}

/// The current user's log directory, `<home>/.ClaudiaX`. Nothing is created.
pub fn get_log_directory() -> (r: Result<String, LogError>)
    ensures
        match r {
            Ok(d) => exists|h: Seq<char>| d@ == #[trigger] log_dir_spec(h),
            Err(e) => e matches LogError::HomeDirectoryNotFound,
        },
{
    let home = home_dir();
    let ghost h = home;
    let r = log_directory_for(home);
    proof {
        if let Some(hh) = h {
            assert(r->Ok_0@ == log_dir_spec(hh@));
        }
    }
    r
}

/// The log directory is the home directory, one separator, then `.ClaudiaX`;
/// the separator is left out when the home directory is empty or already ends
/// with one, so the join never doubles a separator: two adjacent separators in
/// the result can only come from the home directory itself.
pub proof fn lemma_log_directory_layout(home: Seq<char>)
    ensures
        home.len() > 0 && home.last() != separator() ==> log_dir_spec(home) == home + seq![
            separator(),
        ] + app_dir_name(),
        home.len() == 0 || home.last() == separator() ==> log_dir_spec(home) == home
            + app_dir_name(),
        forall|i: int|
            0 <= i && i + 1 < log_dir_spec(home).len() && #[trigger] log_dir_spec(home)[i]
                == separator() && log_dir_spec(home)[i + 1] == separator() ==> i + 1 < home.len(),
{
    let r = log_dir_spec(home);
    let tail = r.subrange(home.len() as int, r.len() as int);
    assert(r.subrange(0, home.len() as int) =~= home);
    if home.len() == 0 || home.last() == separator() {
        assert(tail =~= app_dir_name());
    } else {
        assert(tail =~= seq![separator()] + app_dir_name());
    }
    assert forall|i: int|
        0 <= i && i + 1 < r.len() && #[trigger] r[i] == separator() && r[i + 1]
            == separator() implies i + 1 < home.len() by {
        if i + 1 >= home.len() {
            assert(r[i + 1] == tail[i + 1 - home.len()]);
            if i >= home.len() {
                assert(r[i] == tail[i - home.len()]);
            }
        }
    }
}

/// The backend log file inside a log directory.
pub fn backend_log_file_in(dir: &str) -> (r: String)
    ensures
        r@ == join_spec(dir@, backend_file_name()),
{
    proof {
        reveal_strlit("backend.log");
        assert("backend.log"@ =~= backend_file_name());
    }
    join_path(dir, "backend.log")
}

/// The frontend log file inside a log directory.
pub fn frontend_log_file_in(dir: &str) -> (r: String)
    ensures
        r@ == join_spec(dir@, frontend_file_name()),
{
    proof {
        reveal_strlit("frontend.log");
        assert("frontend.log"@ =~= frontend_file_name());
    }
    join_path(dir, "frontend.log")
}

/// The backend log file for a given home directory.
pub fn backend_log_path_for(home: Option<String>) -> (r: Result<String, LogError>)
    ensures
        match home {
            Some(h) => r matches Ok(p) && p@ == join_spec(log_dir_spec(h@), backend_file_name()),
            None => r matches Err(LogError::HomeDirectoryNotFound),
        },
{
    let dir = log_directory_for(home)?;
    Ok(backend_log_file_in(dir.as_str()))
}

/// The frontend log file for a given home directory.
pub fn frontend_log_path_for(home: Option<String>) -> (r: Result<String, LogError>)
    ensures
        match home {
            Some(h) => r matches Ok(p) && p@ == join_spec(log_dir_spec(h@), frontend_file_name()),
            None => r matches Err(LogError::HomeDirectoryNotFound),
        },
{
    let dir = log_directory_for(home)?;
    Ok(frontend_log_file_in(dir.as_str()))
}

/// The current user's backend log file. Nothing is created.
pub fn backend_log_path() -> (r: Result<String, LogError>)
    ensures
        match r {
            Ok(p) => exists|h: Seq<char>|
                p@ == join_spec(#[trigger] log_dir_spec(h), backend_file_name()),
            Err(e) => e matches LogError::HomeDirectoryNotFound,
        },
{
    let home = home_dir();
    let ghost h = home;
    let r = backend_log_path_for(home);
    proof {
        if let Some(hh) = h {
            assert(r->Ok_0@ == join_spec(log_dir_spec(hh@), backend_file_name()));
        }
    }
    r
}

/// The current user's frontend log file. Nothing is created.
pub fn get_frontend_log_path() -> (r: Result<String, LogError>)
    ensures
        match r {
            Ok(p) => exists|h: Seq<char>|
                p@ == join_spec(#[trigger] log_dir_spec(h), frontend_file_name()),
            Err(e) => e matches LogError::HomeDirectoryNotFound,
        },
{
    let home = home_dir();
    let ghost h = home;
    let r = frontend_log_path_for(home);
    proof {
        if let Some(hh) = h {
            assert(r->Ok_0@ == join_spec(log_dir_spec(hh@), frontend_file_name()));
        }
    }
    r
}

/// Severity of a log statement, from the most to the least severe.
#[derive(Debug, Clone, Copy, PartialEq, Eq, Structural)]
pub enum Severity {
    Error,
    Warn,
    Info,
    Debug,
    Trace,
}

impl Severity {
    /// The name written into a log line.
    pub open spec fn name_spec(self) -> Seq<char> {
        match self {
            Severity::Error => seq!['E', 'R', 'R', 'O', 'R'],
            Severity::Warn => seq!['W', 'A', 'R', 'N'],
            Severity::Info => seq!['I', 'N', 'F', 'O'],
            Severity::Debug => seq!['D', 'E', 'B', 'U', 'G'],
            Severity::Trace => seq!['T', 'R', 'A', 'C', 'E'],
        }
    }

    /// Rank of the severity: 1 for `Error` up to 5 for `Trace`.
    pub open spec fn rank(self) -> nat {
        match self {
            Severity::Error => 1,
            Severity::Warn => 2,
            Severity::Info => 3,
            Severity::Debug => 4,
            Severity::Trace => 5,
        }
    }

    /// The name written into a log line, in upper case.
    pub fn name(&self) -> (r: &'static str)
        ensures
            r@ == self.name_spec(),
    {
        proof {
            reveal_strlit("ERROR");
            reveal_strlit("WARN");
            reveal_strlit("INFO");
            reveal_strlit("DEBUG");
            reveal_strlit("TRACE");
        }
        match self {
            Severity::Error => {
                assert("ERROR"@ =~= self.name_spec());
                "ERROR"
            },
            Severity::Warn => {
                assert("WARN"@ =~= self.name_spec());
                "WARN"
            },
            Severity::Info => {
                assert("INFO"@ =~= self.name_spec());
                "INFO"
            },
            Severity::Debug => {
                assert("DEBUG"@ =~= self.name_spec());
                "DEBUG"
            },
            Severity::Trace => {
                assert("TRACE"@ =~= self.name_spec());
                "TRACE"
            },
        }
    }
}

/// The least severe level that the backend log keeps.
pub open spec fn min_recorded_severity() -> Severity {
    Severity::Debug
}

/// The least severe level that the backend log keeps.
pub fn backend_min_severity() -> (r: Severity)
    ensures
        r == min_recorded_severity(),
{
    Severity::Debug
}

/// Whether the backend log keeps a statement of this severity: everything
/// down to `Debug` is kept, `Trace` is dropped.
pub fn is_recorded(level: Severity) -> (r: bool)
    ensures
        r == (level.rank() <= min_recorded_severity().rank()),
        r == (level != Severity::Trace),
{
    match level {
        Severity::Trace => false,
        _ => true,
    }
}

/// The decimal digit for `d`, which is below ten.
pub open spec fn digit_char(d: nat) -> char {
    if d == 0 {
        '0'
    } else if d == 1 {
        '1'
    } else if d == 2 {
        '2'
    } else if d == 3 {
        '3'
    } else if d == 4 {
        '4'
    } else if d == 5 {
        '5'
    } else if d == 6 {
        '6'
    } else if d == 7 {
        '7'
    } else if d == 8 {
        '8'
    } else {
        '9'
    }
}

/// `n` written in decimal, without leading zeros.
pub open spec fn decimal(n: nat) -> Seq<char>
    decreases n,
{
    if n < 10 {
        seq![digit_char(n)]
    } else {
        decimal(n / 10) + seq![digit_char(n % 10)]
    }
}

fn digit_str(d: u32) -> (r: &'static str)
    requires
        d < 10,
    ensures
        r@ == seq![digit_char(d as nat)],
{
    proof {
        reveal_strlit("0");
        reveal_strlit("1");
        reveal_strlit("2");
        reveal_strlit("3");
        reveal_strlit("4");
        reveal_strlit("5");
        reveal_strlit("6");
        reveal_strlit("7");
        reveal_strlit("8");
        reveal_strlit("9");
    }
    let r = if d == 0 {
        "0"
    } else if d == 1 {
        "1"
    } else if d == 2 {
        "2"
    } else if d == 3 {
        "3"
    } else if d == 4 {
        "4"
    } else if d == 5 {
        "5"
    } else if d == 6 {
        "6"
    } else if d == 7 {
        "7"
    } else if d == 8 {
        "8"
    } else {
        "9"
    };
    assert(r@ =~= seq![digit_char(d as nat)]);
    r
}

/// Writes `n` in decimal.
pub fn decimal_string(n: u32) -> (r: String)
    ensures
        r@ == decimal(n as nat),
    decreases n,
{
    if n < 10 {
        digit_str(n).to_owned()
    } else {
        let mut r = decimal_string(n / 10);
        r.append(digit_str(n % 10));
        r
    }
}

/// The source file named in a backend line: the given one, or `unknown`.
pub open spec fn source_file_text(file: Option<&str>) -> Seq<char> {
    match file {
        Some(f) => f@,
        None => seq!['u', 'n', 'k', 'n', 'o', 'w', 'n'],
    }
}

/// The source line named in a backend line: the given one, or 0.
pub open spec fn source_line_number(line: Option<u32>) -> nat {
    match line {
        Some(l) => l as nat,
        None => 0,
    }
}

/// A backend log line: `[timestamp] [LEVEL] [file:line] message` and a line end.
pub open spec fn backend_line(
    timestamp: Seq<char>,
    level: Severity,
    file: Seq<char>,
    line: nat,
    message: Seq<char>,
) -> Seq<char> {
    seq!['['] + timestamp + seq![']', ' ', '['] + level.name_spec() + seq![']', ' ', '['] + file
        + seq![':'] + decimal(line) + seq![']', ' '] + message + seq!['\n']
}

/// Formats one backend log line.
pub fn format_backend_line(
    timestamp: &str,
    level: Severity,
    file: Option<&str>,
    line: Option<u32>,
    message: &str,
) -> (r: String)
    ensures
        r@ == backend_line(
            timestamp@,
            level,
            source_file_text(file),
            source_line_number(line),
            message@,
        ),
{
    proof {
        reveal_strlit("[");
        reveal_strlit("] [");
        reveal_strlit(":");
        reveal_strlit("] ");
        reveal_strlit("\n");
        reveal_strlit("unknown");
    }
    let mut r = "[".to_owned();
    r.append(timestamp);
    r.append("] [");
    r.append(level.name());
    r.append("] [");
    match file {
        Some(f) => r.append(f),
        None => r.append("unknown"),
    }
    r.append(":");
    let number = match line {
        Some(l) => l,
        None => 0,
    };
    r.append(decimal_string(number).as_str());
    r.append("] ");
    r.append(message);
    r.append("\n");
    assert(r@ =~= backend_line(
        timestamp@,
        level,
        source_file_text(file),
        source_line_number(line),
        message@,
    ));
    r
}

/// Relies on chrono::Utc::now and its `format`: the current UTC time as
/// `YYYY-MM-DD HH:MM:SS.mmm`. It depends on the clock, so nothing is stated of it.
#[verifier::external_body]
fn utc_timestamp_now() -> (r: String) {
    chrono::Utc::now().format("%Y-%m-%d %H:%M:%S%.3f").to_string()
}

/// A backend log line stamped with the current UTC time.
pub fn backend_line_now(level: Severity, file: Option<&str>, line: Option<u32>, message: &str) -> (r:
    String)
    ensures
        exists|timestamp: Seq<char>|
            r@ == #[trigger] backend_line(
                timestamp,
                level,
                source_file_text(file),
                source_line_number(line),
                message@,
            ),
{
    let timestamp = utc_timestamp_now();
    format_backend_line(timestamp.as_str(), level, file, line, message)
}

/// The text that announces where the backend log is written.
pub open spec fn announcement_spec(path: Seq<char>) -> Seq<char> {
    seq![
        'C', 'l', 'a', 'u', 'd', 'i', 'a', 'X', ' ', 'b', 'a', 'c', 'k', 'e', 'n', 'd', ' ', 'l',
        'o', 'g', 'g', 'i', 'n', 'g', ' ', 'i', 'n', 'i', 't', 'i', 'a', 'l', 'i', 'z', 'e', 'd',
        ' ', 'a', 't', ':', ' ',
    ] + path
}

/// The message logged once the backend log is in place.
pub fn initialized_message(path: &str) -> (r: String)
    ensures
        r@ == announcement_spec(path@),
{
    proof {
        reveal_strlit("ClaudiaX backend logging initialized at: ");
    }
    let mut r = "ClaudiaX backend logging initialized at: ".to_owned();
    r.append(path);
    assert(r@ =~= announcement_spec(path@));
    r
}

} // verus!
