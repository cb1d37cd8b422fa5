//! The log files: the name of a day's file, the text of an entry, and which
//! old files a clean-up removes.
use vstd::prelude::*;
use crate::logger::{texts, VersaLog};
use crate::outside::{
    date_text, day_format, local_day_number, local_now_text, parse_ymd_day_number, ymd_day_number,
};
use crate::text::{dot_log, has_log_extension, is_log_file_name, remove_all, without_all};

verus! {

/// The file a day's lines go to: the day's `YYYY-MM-DD` stamp and `.log`.
pub open spec fn log_file_for(day_stamp: Seq<char>) -> Seq<char> {
    day_stamp + dot_log()
}

/// A saved entry: the line and a line break.
pub open spec fn entry_text(line: Seq<char>) -> Seq<char> {
    line + seq!['\n']
}

/// Whether a clean-up on day `today` (day number from the common era) that
/// keeps `days` days removes the file called `name`: a `.log` file whose
/// name, with every `.log` taken out, is a `YYYY-MM-DD` date at least `days`
/// days before today.
pub open spec fn expired(name: Seq<char>, today: i32, days: i64) -> bool {
    has_log_extension(name) && match ymd_day_number(without_all(name, dot_log())) {
        Some(day) => today - day >= days,
        None => false,
    }
}

/// The positions, in increasing order, among the first `n` names, of the
/// files a clean-up removes.
pub open spec fn expired_positions(names: Seq<Seq<char>>, today: i32, days: i64, n: int) -> Seq<
    usize,
>
    decreases n,
{
    if n <= 0 {
        Seq::empty()
    } else if expired(names[n - 1], today, days) {
        expired_positions(names, today, days, n - 1).push((n - 1) as usize)
    } else {
        expired_positions(names, today, days, n - 1)
    }
}

/// `[LOG CLEANUP] removed: `
pub open spec fn removed_label() -> Seq<char> {
    seq![
        '[', 'L', 'O', 'G', ' ', 'C', 'L', 'E', 'A', 'N', 'U', 'P', ']', ' ', 'r', 'e', 'm', 'o',
        'v', 'e', 'd', ':', ' ',
    ]
}

/// `[LOG CLEANUP WARNING] `
pub open spec fn warning_label() -> Seq<char> {
    seq![
        '[', 'L', 'O', 'G', ' ', 'C', 'L', 'E', 'A', 'N', 'U', 'P', ' ', 'W', 'A', 'R', 'N', 'I',
        'N', 'G', ']', ' ',
    ]
}

/// ` cannot be removed: `
pub open spec fn cannot_remove_label() -> Seq<char> {
    seq![
        ' ', 'c', 'a', 'n', 'n', 'o', 't', ' ', 'b', 'e', ' ', 'r', 'e', 'm', 'o', 'v', 'e', 'd', ':',
        ' ',
    ]
}

/// The console line after removing the file at `path`, or failing to with
/// `error`.
pub open spec fn cleanup_text(path: Seq<char>, error: Option<Seq<char>>) -> Seq<char> {
    match error {
        None => removed_label() + path,
        Some(e) => warning_label() + path + cannot_remove_label() + e,
    }
}

/// The name of the file for the day with stamp `day_stamp`.
pub fn log_file_name(day_stamp: &str) -> (r: String)
    ensures
        r@ == log_file_for(day_stamp@),
{
    let mut r = String::from_str(day_stamp);
    let ext = ".log";
    proof {
        reveal_strlit(".log");
        assert(ext@ =~= dot_log());
    }
    r.append(ext);
    r
}

/// The name of today's log file, by the local clock.
pub fn today_log_file_name() -> (r: String)
    ensures
        exists|stamp: Seq<char>| date_text(stamp) && r@ == #[trigger] log_file_for(stamp),
{
    let fmt = "%Y-%m-%d";
    proof {
        reveal_strlit("%Y-%m-%d");
        assert(fmt@ =~= day_format());
    }
    let stamp = local_now_text(fmt);
    let r = log_file_name(stamp.as_str());
    assert(date_text(stamp@) && r@ == log_file_for(stamp@));
    r
}

/// The text appended to a log file for a saved line.
pub fn log_entry(line: &str) -> (r: String)
    ensures
        r@ == entry_text(line@),
{
    let mut r = String::from_str(line);
    let newline = "\n";
    proof {
        reveal_strlit("\n");
    }
    r.append(newline);
    assert(r@ =~= entry_text(line@));
    r
}

/// Whether a clean-up on day `today` keeping `days` days removes `name`.
pub fn is_expired_log(name: &str, today: i32, days: i64) -> (r: bool)
    ensures
        r == expired(name@, today, days),
{
    if !is_log_file_name(name) {
        return false;
    }
    let ext = ".log";
    proof {
        reveal_strlit(".log");
        assert(ext@ =~= dot_log());
    }
    let stem = remove_all(name, ext);
    match parse_ymd_day_number(stem.as_str()) {
        Some(day) => today as i64 - day as i64 >= days,
        None => false,
    }
}

/// The positions, in increasing order, of the files among `names` that a
/// clean-up on day `today` keeping `days` days removes.
pub fn expired_logs(names: &Vec<String>, today: i32, days: i64) -> (r: Vec<usize>)
    ensures
        r@ == expired_positions(texts(names@), today, days, names@.len() as int),
{
    let ghost all = texts(names@);
    let mut r: Vec<usize> = Vec::new();
    let mut i: usize = 0;
    while i < names.len()
        invariant
            i <= names@.len(),
            all == texts(names@),
            r@ == expired_positions(all, today, days, i as int),
        decreases names@.len() - i,
    {
        assert(all[i as int] == names@[i as int]@);
        if is_expired_log(names[i].as_str(), today, days) {
            r.push(i);
        }
        i = i + 1;
    }
    r
}

impl VersaLog {
    /// Of the files in the log directory (given by name), the positions of
    /// those a clean-up today keeping `days` days removes, with today's day
    /// number by the local clock.
    pub fn cleanup_old_logs(&self, names: &Vec<String>, days: i64) -> (r: (i32, Vec<usize>))
        ensures
            r.1@ == expired_positions(texts(names@), r.0, days, names@.len() as int),
    {
        let today = local_day_number();
        (today, expired_logs(names, today, days))
    }

    /// The console line after trying to remove the file at `path` (`error`
    /// holds why it failed), or none where the logger is silent.
    pub fn cleanup_notice(&self, path: &str, error: Option<&str>) -> (r: Option<String>)
        ensures
            self@.silent ==> r is None,
            !self@.silent ==> (r matches Some(t) && t@ == cleanup_text(
                path@,
                match error {
                    Some(e) => Some(e@),
                    None => None,
                },
            )),
    {
        if self.is_silent() {
            return None;
        }
        match error {
            None => {
                let mut t = String::from_str("[LOG CLEANUP] removed: ");
                proof {
                    reveal_strlit("[LOG CLEANUP] removed: ");
                    assert(t@ =~= removed_label());
                }
                t.append(path);
                Some(t)
            },
            Some(e) => {
                let mut t = String::from_str("[LOG CLEANUP WARNING] ");
                let label = " cannot be removed: ";
                proof {
                    reveal_strlit("[LOG CLEANUP WARNING] ");
                    reveal_strlit(" cannot be removed: ");
                    assert(t@ =~= warning_label());
                    assert(label@ =~= cannot_remove_label());
                }
                t.append(path);
                t.append(label);
                t.append(e);
                assert(t@ =~= cleanup_text(path@, Some(e@)));
                Some(t)
            },
        }
    }
}

} // verus!
