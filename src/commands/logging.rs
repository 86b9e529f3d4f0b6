use vstd::prelude::*;

use crate::logging::{
    frontend_file_name, frontend_log_file_in, home_dir, log_dir_spec, log_directory_for,
    join_spec, LogError,
};

verus! {

/// Where frontend log lines go: the directory to create and the file inside it.
pub struct FrontendLogLocation {
    pub dir: String,
    pub path: String,
}

/// The frontend log location for a given home directory.
pub fn frontend_log_location_for(home: Option<String>) -> (r: Result<FrontendLogLocation, LogError>)
    ensures
        match home {
            Some(h) => r matches Ok(loc) && loc.dir@ == log_dir_spec(h@) && loc.path@ == join_spec(
                log_dir_spec(h@),
                frontend_file_name(),
            ),
            None => r matches Err(LogError::HomeDirectoryNotFound),
        },
{
    let dir = log_directory_for(home)?;
    let path = frontend_log_file_in(dir.as_str());
    Ok(FrontendLogLocation { dir, path })
}

/// The current user's frontend log location. The directory is left for the
/// caller to create before the file is opened.
pub fn get_frontend_log_path_internal() -> (r: Result<FrontendLogLocation, LogError>)
    ensures
        match r {
            Ok(loc) => exists|h: Seq<char>|
                loc.dir@ == #[trigger] log_dir_spec(h) && loc.path@ == join_spec(
                    log_dir_spec(h),
                    frontend_file_name(),
                ),
            Err(e) => e matches LogError::HomeDirectoryNotFound,
        },
{
    let home = home_dir();
    let ghost h = home;
    let r = frontend_log_location_for(home);
    proof {
        if let Some(hh) = h {
            assert(r->Ok_0.dir@ == log_dir_spec(hh@));
        }
    }
    r
}

/// A frontend log line: `[timestamp] [level] message` and a line end.
pub open spec fn frontend_line(timestamp: Seq<char>, level: Seq<char>, message: Seq<char>) -> Seq<
    char,
> {
    seq!['['] + timestamp + seq![']', ' ', '['] + level + seq![']', ' '] + message + seq!['\n']
}

/// Formats one frontend log line from the caller's level, message and timestamp.
pub fn format_frontend_line(level: &str, message: &str, timestamp: &str) -> (r: String)
    ensures
        r@ == frontend_line(timestamp@, level@, message@),
{
    proof {
        reveal_strlit("[");
        reveal_strlit("] [");
        reveal_strlit("] ");
        reveal_strlit("\n");
    }
    let mut r = "[".to_owned();
    r.append(timestamp);
    r.append("] [");
    r.append(level);
    r.append("] ");
    r.append(message);
    r.append("\n");
    assert(r@ =~= frontend_line(timestamp@, level@, message@));
    r
}

/// How many line ends `s` holds.
pub open spec fn line_end_count(s: Seq<char>) -> nat
    decreases s.len(),
{
    if s.len() == 0 {
        0
    } else {
        line_end_count(s.drop_last()) + if s.last() == '\n' {
            1nat
        } else {
            0nat
        }
    }
}

/// `s` holds no line end.
pub open spec fn single_line_text(s: Seq<char>) -> bool {
    forall|i: int| 0 <= i < s.len() ==> s[i] != '\n'
}

/// The text appended by a run of frontend writes, each given as
/// `(level, message, timestamp)`, in call order.
pub open spec fn frontend_log_text(entries: Seq<(Seq<char>, Seq<char>, Seq<char>)>) -> Seq<char>
    decreases entries.len(),
{
    if entries.len() == 0 {
        Seq::empty()
    } else {
        let e = entries.last();
        frontend_log_text(entries.drop_last()) + frontend_line(e.2, e.1, e.0)
    }
}

proof fn lemma_line_end_count_concat(a: Seq<char>, b: Seq<char>)
    ensures
        line_end_count(a + b) == line_end_count(a) + line_end_count(b),
    decreases b.len(),
{
    if b.len() == 0 {
        assert(a + b =~= a);
    } else {
        assert((a + b).drop_last() =~= a + b.drop_last());
        lemma_line_end_count_concat(a, b.drop_last());
    }
}

proof fn lemma_single_line_count(s: Seq<char>)
    requires
        single_line_text(s),
    ensures
        line_end_count(s) == 0,
    decreases s.len(),
{
    if s.len() > 0 {
        lemma_single_line_count(s.drop_last());
    }
}

/// A frontend line whose level, message and timestamp hold no line end is one
/// complete line: it ends with a line end and holds no other.
pub proof fn lemma_frontend_line_is_one_line(
    timestamp: Seq<char>,
    level: Seq<char>,
    message: Seq<char>,
)
    requires
        single_line_text(timestamp),
        single_line_text(level),
        single_line_text(message),
    ensures
        frontend_line(timestamp, level, message).last() == '\n',
        line_end_count(frontend_line(timestamp, level, message)) == 1,
{
    let body = seq!['['] + timestamp + seq![']', ' ', '['] + level + seq![']', ' '] + message;
    assert(frontend_line(timestamp, level, message) =~= body + seq!['\n']);
    assert(single_line_text(seq!['[']));
    assert(single_line_text(seq![']', ' ', '[']));
    assert(single_line_text(seq![']', ' ']));
    lemma_single_line_count(seq!['[']);
    lemma_single_line_count(seq![']', ' ', '[']);
    lemma_single_line_count(seq![']', ' ']);
    lemma_single_line_count(timestamp);
    lemma_single_line_count(level);
    lemma_single_line_count(message);
    lemma_line_end_count_concat(seq!['['], timestamp);
    lemma_line_end_count_concat(seq!['['] + timestamp, seq![']', ' ', '[']);
    lemma_line_end_count_concat(seq!['['] + timestamp + seq![']', ' ', '['], level);
    lemma_line_end_count_concat(
        seq!['['] + timestamp + seq![']', ' ', '['] + level,
        seq![']', ' '],
    );
    lemma_line_end_count_concat(
        seq!['['] + timestamp + seq![']', ' ', '['] + level + seq![']', ' '],
        message,
    );
    lemma_line_end_count_concat(body, seq!['\n']);
    assert(seq!['\n'].drop_last() =~= Seq::<char>::empty());
    assert(line_end_count(Seq::<char>::empty()) == 0);
    assert(line_end_count(seq!['\n']) == 1);
    assert(line_end_count(body) == 0);
}

/// Appending the lines of N frontend writes, whose fields hold no line end, to
/// any earlier content keeps that content as it was and adds exactly N line
/// ends; the appended text is the writes' lines in call order.
pub proof fn lemma_frontend_appends(
    before: Seq<char>,
    entries: Seq<(Seq<char>, Seq<char>, Seq<char>)>,
)
    requires
        forall|i: int|
            0 <= i < entries.len() ==> single_line_text(#[trigger] entries[i].0) && single_line_text(
                entries[i].1,
            ) && single_line_text(entries[i].2),
    ensures
        (before + frontend_log_text(entries)).subrange(0, before.len() as int) == before,
        line_end_count(before + frontend_log_text(entries)) == line_end_count(before)
            + entries.len(),
        entries.len() > 0 ==> frontend_log_text(entries) == frontend_log_text(entries.drop_last())
            + frontend_line(entries.last().2, entries.last().1, entries.last().0),
    decreases entries.len(),
{
    assert((before + frontend_log_text(entries)).subrange(0, before.len() as int) =~= before);
    if entries.len() > 0 {
        let e = entries.last();
        let rest = entries.drop_last();
        assert forall|i: int|
            0 <= i < rest.len() implies single_line_text(#[trigger] rest[i].0) && single_line_text(
                rest[i].1,
            ) && single_line_text(rest[i].2) by {
            assert(rest[i] == entries[i]);
            assert(single_line_text(entries[i].0));
        }
        lemma_frontend_appends(before, rest);
        assert(entries[entries.len() - 1] == e);
        lemma_frontend_line_is_one_line(e.2, e.1, e.0);
        assert(before + frontend_log_text(entries) =~= (before + frontend_log_text(rest))
            + frontend_line(e.2, e.1, e.0));
        lemma_line_end_count_concat(before + frontend_log_text(rest), frontend_line(e.2, e.1, e.0));
    } else {
        assert(before + frontend_log_text(entries) =~= before);
    }
}

} // verus!
