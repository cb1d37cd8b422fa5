//! Properties of the logger as a whole, proved over the contracts of its
//! functions.
use vstd::prelude::*;
use crate::files::{expired, log_file_for};
use crate::levels::{
    ascii_upper, color_of, critical_level, detailed_mode, file_mode, reset_code, simple2_mode,
    simple_mode, standard_levels, symbol_of,
};
use crate::logger::{
    console_line, file_line, new_accepts, new_state, panic_text, record_fits, route_fits, saves,
    texts, LogRecord, LoggerState, SaveRoute,
};
use crate::outside::{date_text, is_digit, year_text, ymd_day_number};
use crate::text::{bracketed, dot_log, has_log_extension, shown_if, without_all};
use vstd::utf8::is_ascii_chars;

verus! {

/// What the two lines of `simple` and `simple2` mode share before the
/// level's mark: the time, the call place and the tag, as the mode shows them.
pub open spec fn line_head(st: LoggerState, tag: Seq<char>, ts: Seq<char>, caller: Seq<char>) -> Seq<
    char,
> {
    if st.mode == simple_mode() {
        shown_if(st.show_file, bracketed(caller)) + shown_if(tag.len() > 0, bracketed(tag))
    } else {
        bracketed(ts) + seq![' '] + shown_if(
            st.show_file,
            bracketed(caller) + shown_if(tag.len() > 0, bracketed(tag)),
        )
    }
}

/// In `simple` and `simple2` mode the console line is the saved line with
/// the level's colour code put before its symbol and the reset code after
/// it; nothing else differs.
pub proof fn law_console_line_is_saved_line_coloured(
    st: LoggerState,
    level: Seq<char>,
    msg: Seq<char>,
    tag: Seq<char>,
    ts: Seq<char>,
    caller: Seq<char>,
)
    requires
        st.mode == simple_mode() || st.mode == simple2_mode(),
    ensures
        console_line(st, level, msg, tag, ts, caller) == line_head(st, tag, ts, caller) + color_of(
            level,
        ) + symbol_of(level) + reset_code() + seq![' '] + msg,
        file_line(st, level, msg, tag, ts, caller) == line_head(st, tag, ts, caller) + symbol_of(
            level,
        ) + seq![' '] + msg,
{
    assert(console_line(st, level, msg, tag, ts, caller) =~= line_head(st, tag, ts, caller)
        + color_of(level) + symbol_of(level) + reset_code() + seq![' '] + msg);
    assert(file_line(st, level, msg, tag, ts, caller) =~= line_head(st, tag, ts, caller)
        + symbol_of(level) + seq![' '] + msg);
}

/// In every mode both lines end with the message.
pub proof fn law_lines_end_with_message(
    st: LoggerState,
    level: Seq<char>,
    msg: Seq<char>,
    tag: Seq<char>,
    ts: Seq<char>,
    caller: Seq<char>,
)
    ensures
        ({
            let c = console_line(st, level, msg, tag, ts, caller);
            c.len() >= msg.len() && c.skip(c.len() - msg.len()) == msg
        }),
        ({
            let f = file_line(st, level, msg, tag, ts, caller);
            f.len() >= msg.len() && f.skip(f.len() - msg.len()) == msg
        }),
{
    let c = console_line(st, level, msg, tag, ts, caller);
    let f = file_line(st, level, msg, tag, ts, caller);
    assert(c.skip(c.len() - msg.len()) =~= msg);
    assert(f.skip(f.len() - msg.len()) =~= msg);
}

/// What a logging call produces is fixed by the logger, the message, the
/// tags, the time and call place it read, and the level up to ASCII case:
/// two calls that read the same time and place give the same lines, the same
/// printing, the same route (up to the clean-up flag of an immediate write)
/// and the same notice. In particular the lower-case level methods and the
/// capitalised ones, and `log` with `info` and with `INFO`, agree.
pub proof fn law_record_fixed_by_readings(
    st: LoggerState,
    msg: Seq<char>,
    level1: Seq<char>,
    level2: Seq<char>,
    tags: Seq<&str>,
    r1: LogRecord,
    r2: LogRecord,
)
    requires
        level1 == level2 || (is_ascii_chars(level1) && is_ascii_chars(level2) && ascii_upper(level1)
            == ascii_upper(level2)),
        record_fits(st, msg, level1, tags, r1),
        record_fits(st, msg, level2, tags, r2),
        r1.timestamp@ == r2.timestamp@,
        r1.caller@ == r2.caller@,
    ensures
        r1.level@ == r2.level@,
        r1.output@ == r2.output@,
        r1.plain@ == r2.plain@,
        r1.print == r2.print,
        r1.save == r2.save || (r1.save is WriteNow && r2.save is WriteNow),
        r1.notice is Some <==> r2.notice is Some,
        r1.notice matches Some(n1) ==> (r2.notice matches Some(n2) && n1.summary@ == n2.summary@
            && n1.body@ == n2.body@),
{
}

/// Silencing a logger only stops the printing: with the same readings, the
/// lines, the route and the notice stay as they were.
pub proof fn law_silence_only_stops_printing(
    st: LoggerState,
    silent: bool,
    msg: Seq<char>,
    level: Seq<char>,
    tags: Seq<&str>,
    r1: LogRecord,
    r2: LogRecord,
)
    requires
        record_fits(st, msg, level, tags, r1),
        record_fits(LoggerState { silent, ..st }, msg, level, tags, r2),
        r1.timestamp@ == r2.timestamp@,
        r1.caller@ == r2.caller@,
    ensures
        r2.print == !silent,
        r1.output@ == r2.output@,
        r1.plain@ == r2.plain@,
        r1.save == r2.save || (r1.save is WriteNow && r2.save is WriteNow),
        r1.notice is Some <==> r2.notice is Some,
{
    let st2 = LoggerState { silent, ..st };
    assert(crate::logger::chosen_tag(st, tags) == crate::logger::chosen_tag(st2, tags));
}

/// A logger as the library makes it never writes a line itself: every
/// saved line goes to the background writer.
pub proof fn law_saved_lines_go_to_writer(st: LoggerState, level: Seq<char>, route: SaveRoute)
    requires
        st.wf(),
        route_fits(st, level, route),
    ensures
        route == SaveRoute::Skip || route == SaveRoute::Queue,
        saves(st, level) <==> route == SaveRoute::Queue,
{
}

/// A logger told to save without a list of levels saves every standard
/// level.
pub proof fn law_default_save_levels(
    mode: Seq<char>,
    show_file: bool,
    show_tag: bool,
    tag: Seq<char>,
    enable_all: bool,
    notice: bool,
    all_save: bool,
    catch_exceptions: bool,
    level: Seq<char>,
)
    requires
        new_accepts(mode, enable_all, all_save, Seq::empty()),
        all_save || enable_all,
        standard_levels().contains(level),
    ensures
        saves(
            new_state(
                mode,
                show_file,
                show_tag,
                tag,
                enable_all,
                notice,
                all_save,
                Seq::empty(),
                catch_exceptions,
            ),
            level,
        ),
{
}

/// The file written on a day is, to the clean-up, a log file of that day:
/// for a day stamp without a `.`, the name has the `log` extension and,
/// with `.log` taken out, gives the stamp back.
pub proof fn law_day_file_reads_back(stamp: Seq<char>)
    requires
        stamp.len() > 0,
        !stamp.contains('.'),
    ensures
        has_log_extension(log_file_for(stamp)),
        without_all(log_file_for(stamp), dot_log()) == stamp,
{
    let name = log_file_for(stamp);
    assert(name.skip(name.len() - 4) =~= dot_log());
    lemma_strip_suffix(stamp);
}

/// Taking `.log` out of a stamp without `.` followed by `.log` gives the
/// stamp.
proof fn lemma_strip_suffix(stamp: Seq<char>)
    requires
        !stamp.contains('.'),
    ensures
        without_all(stamp + dot_log(), dot_log()) == stamp,
    decreases stamp.len(),
{
    let s = stamp + dot_log();
    if stamp.len() == 0 {
        assert(s =~= dot_log());
        assert(s.take(4) =~= dot_log());
        assert(s.skip(4) =~= Seq::<char>::empty());
        assert(without_all(s.skip(4), dot_log()) =~= Seq::<char>::empty());
        assert(without_all(s, dot_log()) == without_all(s.skip(4), dot_log()));
    } else {
        assert(s[0] == stamp[0]);
        assert(stamp[0] != '.');
        assert(s.take(4)[0] != dot_log()[0]);
        let rest = stamp.skip(1);
        assert forall|c: char| rest.contains(c) implies c != '.' by {
            let k = choose|k: int| 0 <= k < rest.len() && rest[k] == c;
            assert(stamp[k + 1] == c);
        }
        lemma_strip_suffix(rest);
        assert(s.skip(1) =~= rest + dot_log());
        assert(seq![s[0]] + rest =~= stamp);
        assert(!(s.take(4) == dot_log()));
        assert(without_all(s, dot_log()) == seq![s[0]] + without_all(s.skip(1), dot_log()));
    }
}

/// A clean-up that keeps at least one day never removes the file of the
/// day it runs on.
pub proof fn law_todays_file_is_kept(name: Seq<char>, today: i32, days: i64)
    requires
        days > 0,
        ymd_day_number(without_all(name, dot_log())) == Some(today),
    ensures
        !expired(name, today, days),
{
}

/// A tag given with a call is the line's tag, whatever the logger's own tag
/// and its `show_tag` switch: in `simple` mode the saved line is the call
/// place (where shown), the given tag in brackets, the symbol and the
/// message; in `simple2` mode with the call place shown, the tag follows the
/// place; in `detailed` mode it follows the level, whether or not the place
/// is shown; in `file` mode no tag is shown at all.
pub proof fn law_given_tag_is_shown(
    st: LoggerState,
    msg: Seq<char>,
    level: Seq<char>,
    tags: Seq<&str>,
    r: LogRecord,
)
    requires
        record_fits(st, msg, level, tags, r),
        tags.len() > 0,
        tags[0]@.len() > 0,
    ensures
        st.mode == simple_mode() ==> r.plain@ == (if st.show_file {
            bracketed(r.caller@)
        } else {
            Seq::empty()
        }) + bracketed(tags[0]@) + symbol_of(r.level@) + seq![' '] + msg,
        st.mode == simple_mode() ==> r.output@ == (if st.show_file {
            bracketed(r.caller@)
        } else {
            Seq::empty()
        }) + bracketed(tags[0]@) + color_of(r.level@) + symbol_of(r.level@) + reset_code() + seq![
            ' ',
        ] + msg,
        st.mode == simple2_mode() && st.show_file ==> r.plain@ == bracketed(r.timestamp@) + seq![
            ' ',
        ] + bracketed(r.caller@) + bracketed(tags[0]@) + symbol_of(r.level@) + seq![' '] + msg,
        st.mode == detailed_mode() ==> r.plain@ == bracketed(r.timestamp@) + bracketed(r.level@)
            + bracketed(tags[0]@) + (if st.show_file {
            bracketed(r.caller@)
        } else {
            Seq::empty()
        }) + seq![' ', ':', ' '] + msg,
        st.mode == detailed_mode() ==> r.output@ == bracketed(r.timestamp@) + color_of(r.level@)
            + r.level@ + bracketed(reset_code()) + bracketed(tags[0]@) + (if st.show_file {
            bracketed(r.caller@)
        } else {
            Seq::empty()
        }) + seq![' ', ':', ' '] + msg,
        st.mode == file_mode() ==> r.plain@ == bracketed(r.caller@) + bracketed(r.level@) + seq![' ']
            + msg,
{
    let t = tags[0]@;
    let p = r.plain@;
    let o = r.output@;
    assert(simple_mode().len() != simple2_mode().len());
    assert(detailed_mode().len() != simple2_mode().len());
    assert(file_mode().len() != simple2_mode().len());
    assert(file_mode().len() != detailed_mode().len());
    assert(file_mode().len() != simple_mode().len());
    assert(simple_mode().len() != detailed_mode().len());
    if st.mode == simple_mode() {
        assert(p =~= (if st.show_file {
            bracketed(r.caller@)
        } else {
            Seq::empty()
        }) + bracketed(t) + symbol_of(r.level@) + seq![' '] + msg);
        assert(o =~= (if st.show_file {
            bracketed(r.caller@)
        } else {
            Seq::empty()
        }) + bracketed(t) + color_of(r.level@) + symbol_of(r.level@) + reset_code() + seq![' ']
            + msg);
    } else if st.mode == simple2_mode() {
        if st.show_file {
            assert(crate::logger::chosen_tag(st, tags) == t);
            assert(shown_if(t.len() > 0, bracketed(t)) == bracketed(t));
            assert(shown_if(true, bracketed(r.caller@) + bracketed(t)) == bracketed(r.caller@)
                + bracketed(t));
            assert(p =~= bracketed(r.timestamp@) + seq![' '] + bracketed(r.caller@) + bracketed(t)
                + symbol_of(r.level@) + seq![' '] + msg);
        }
    } else if st.mode == detailed_mode() {
        assert(p =~= bracketed(r.timestamp@) + bracketed(r.level@) + bracketed(t) + (if st.show_file {
            bracketed(r.caller@)
        } else {
            Seq::empty()
        }) + seq![' ', ':', ' '] + msg);
        assert(o =~= bracketed(r.timestamp@) + color_of(r.level@) + r.level@ + bracketed(
            reset_code(),
        ) + bracketed(t) + (if st.show_file {
            bracketed(r.caller@)
        } else {
            Seq::empty()
        }) + seq![' ', ':', ' '] + msg);
    }
}

/// Without a non-empty given tag, a logger that shows its own non-empty tag
/// puts it where a given tag would stand; one that does not shows no tag: in
/// `simple` mode without the call place the saved line is then the own tag
/// in brackets (or nothing), the symbol and the message.
pub proof fn law_own_tag_stands_in(
    st: LoggerState,
    msg: Seq<char>,
    level: Seq<char>,
    tags: Seq<&str>,
    r: LogRecord,
)
    requires
        record_fits(st, msg, level, tags, r),
        tags.len() == 0 || tags[0]@.len() == 0,
        st.mode == simple_mode(),
        !st.show_file,
    ensures
        st.show_tag && st.tag.len() > 0 ==> r.plain@ == bracketed(st.tag) + symbol_of(r.level@)
            + seq![' '] + msg,
        !(st.show_tag && st.tag.len() > 0) ==> r.plain@ == symbol_of(r.level@) + seq![' '] + msg,
{
    if st.show_tag && st.tag.len() > 0 {
        assert(r.plain@ =~= bracketed(st.tag) + symbol_of(r.level@) + seq![' '] + msg);
    } else {
        assert(r.plain@ =~= symbol_of(r.level@) + seq![' '] + msg);
    }
}

/// The layout of `detailed` mode for any tag: the time, the level (coloured
/// on the console, with the reset code in brackets after it), the tag in
/// brackets exactly when it is not empty, the call place in brackets exactly
/// when the file is shown, ` : ` and the message. The tag does not depend on
/// showing the file.
pub proof fn law_detailed_layout(
    st: LoggerState,
    level: Seq<char>,
    msg: Seq<char>,
    tag: Seq<char>,
    ts: Seq<char>,
    caller: Seq<char>,
)
    requires
        st.mode == detailed_mode(),
    ensures
        file_line(st, level, msg, tag, ts, caller) == bracketed(ts) + bracketed(level) + (if tag.len()
            > 0 {
            bracketed(tag)
        } else {
            Seq::empty()
        }) + (if st.show_file {
            bracketed(caller)
        } else {
            Seq::empty()
        }) + seq![' ', ':', ' '] + msg,
        console_line(st, level, msg, tag, ts, caller) == bracketed(ts) + color_of(level) + level
            + bracketed(reset_code()) + (if tag.len() > 0 {
            bracketed(tag)
        } else {
            Seq::empty()
        }) + (if st.show_file {
            bracketed(caller)
        } else {
            Seq::empty()
        }) + seq![' ', ':', ' '] + msg,
{
    assert(file_line(st, level, msg, tag, ts, caller) =~= bracketed(ts) + bracketed(level) + (if tag.len()
        > 0 {
        bracketed(tag)
    } else {
        Seq::empty()
    }) + (if st.show_file {
        bracketed(caller)
    } else {
        Seq::empty()
    }) + seq![' ', ':', ' '] + msg);
    assert(console_line(st, level, msg, tag, ts, caller) =~= bracketed(ts) + color_of(level) + level
        + bracketed(reset_code()) + (if tag.len() > 0 {
        bracketed(tag)
    } else {
        Seq::empty()
    }) + (if st.show_file {
        bracketed(caller)
    } else {
        Seq::empty()
    }) + seq![' ', ':', ' '] + msg);
}

/// A logger made with a non-empty list of levels saves exactly the levels
/// in that list where it saves at all (`all_save` or `enable_all`), and
/// nothing otherwise; `enable_all` does not widen the list.
pub proof fn law_given_save_levels_are_kept(
    mode: Seq<char>,
    show_file: bool,
    show_tag: bool,
    tag: Seq<char>,
    enable_all: bool,
    notice: bool,
    all_save: bool,
    save_levels: Seq<Seq<char>>,
    catch_exceptions: bool,
    level: Seq<char>,
)
    requires
        save_levels.len() > 0,
    ensures
        saves(
            new_state(
                mode,
                show_file,
                show_tag,
                tag,
                enable_all,
                notice,
                all_save,
                save_levels,
                catch_exceptions,
            ),
            level,
        ) <==> (all_save || enable_all) && save_levels.contains(level),
        new_state(
            mode,
            show_file,
            show_tag,
            tag,
            enable_all,
            notice,
            all_save,
            save_levels,
            catch_exceptions,
        ).save_levels == save_levels,
{
}

/// The report of a panic ends, on the console and in the saved line, with
/// the call-stack text the record carries, after the panic's message and
/// place.
pub proof fn law_panic_report_ends_with_trace(
    st: LoggerState,
    msg: Seq<char>,
    loc: Option<(Seq<char>, u32, u32)>,
    r: LogRecord,
)
    requires
        record_fits(st, panic_text(msg, loc, r.trace@), critical_level(), Seq::empty(), r),
    ensures
        r.plain@.len() >= r.trace@.len(),
        r.plain@.skip(r.plain@.len() - r.trace@.len()) == r.trace@,
        r.output@.len() >= r.trace@.len(),
        r.output@.skip(r.output@.len() - r.trace@.len()) == r.trace@,
{
    let text = panic_text(msg, loc, r.trace@);
    let tag = crate::logger::chosen_tag(st, Seq::<&str>::empty());
    assert(r.plain@ == file_line(st, r.level@, text, tag, r.timestamp@, r.caller@));
    assert(r.output@ == console_line(st, r.level@, text, tag, r.timestamp@, r.caller@));
    law_lines_end_with_message(st, r.level@, text, tag, r.timestamp@, r.caller@);
    assert(text.skip(text.len() - r.trace@.len()) =~= r.trace@);
    lemma_suffix_of_suffix(r.plain@, text, r.trace@);
    lemma_suffix_of_suffix(r.output@, text, r.trace@);
}

/// A suffix of a suffix is a suffix.
proof fn lemma_suffix_of_suffix(a: Seq<char>, m: Seq<char>, t: Seq<char>)
    requires
        a.len() >= m.len(),
        a.skip(a.len() - m.len()) == m,
        m.len() >= t.len(),
        m.skip(m.len() - t.len()) == t,
    ensures
        a.len() >= t.len(),
        a.skip(a.len() - t.len()) == t,
{
    assert(a.skip(a.len() - t.len()) =~= m.skip(m.len() - t.len()));
}

/// The name of a day's file, for any date stamp the clock gives, is read
/// back by the clean-up as that date: it has the `log` extension and, with
/// `.log` taken out, is the stamp.
pub proof fn law_dated_file_reads_back(stamp: Seq<char>)
    requires
        date_text(stamp),
    ensures
        has_log_extension(log_file_for(stamp)),
        without_all(log_file_for(stamp), dot_log()) == stamp,
{
    let n = stamp.len() as int;
    assert forall|c: char| stamp.contains(c) implies c != '.' by {
        let k = choose|k: int| 0 <= k < n && stamp[k] == c;
        if k < n - 6 {
            assert(stamp.take(n - 6)[k] == c);
            assert(year_text(stamp.take(n - 6)));
            if k > 0 || stamp.take(n - 6).len() == 4 {
                assert(is_digit(stamp.take(n - 6)[k]));
            }
        } else if n - 5 <= k < n - 3 {
            assert(stamp.subrange(n - 5, n - 3)[k - (n - 5)] == c);
        } else if n - 2 <= k {
            assert(stamp.skip(n - 2)[k - (n - 2)] == c);
        }
    }
    law_day_file_reads_back(stamp);
}

} // verus!
