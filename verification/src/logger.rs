//! The logger: how it is configured, what each call writes to the console
//! and to the log file, and where a saved line goes.
use vstd::prelude::*;
use crate::levels::{
    ascii_upper, critical_level, critical_text, debug_level, debug_text, error_level, error_text,
    info_level, info_text, warning_level, warning_text, color_of, color_text, file_mode, file_text, is_standard_level, reset_code, reset_text, simple2_mode,
    simple2_text, simple_mode, simple_text, symbol_of, symbol_text, is_standard_level_text, is_valid_mode, standard_level_list,
    standard_levels,
};
use crate::text::{bracketed, bracketed_text, decimal, decimal_text, shown_if, space_text};
use crate::outside::{
    backtrace_text, captured_frames, local_day_number, local_now_text, timestamp_format,
    timestamp_text, to_upper,
    upper_case,
};
use vstd::utf8::is_ascii_chars;

verus! {

/// The abstract state of a logger.
pub struct LoggerState {
    /// One of `simple`, `simple2`, `detailed`, `file`.
    pub mode: Seq<char>,
    /// The logger's own tag, shown when `show_tag` is set and no tag is given.
    pub tag: Seq<char>,
    /// Whether lines name the place of the call.
    pub show_file: bool,
    /// Whether the logger's own tag is shown.
    pub show_tag: bool,
    /// Whether errors and critical messages raise a desktop notice.
    pub notice: bool,
    /// The switch that turned all the above on.
    pub enable_all: bool,
    /// Whether lines are saved to the log file.
    pub all_save: bool,
    /// The levels whose lines are saved.
    pub save_levels: Seq<Seq<char>>,
    /// Whether console output is suppressed.
    pub silent: bool,
    /// Whether a background writer takes the saved lines.
    pub writer_attached: bool,
    /// The day (number from the common era) old logs were last cleaned up.
    pub last_cleanup_day: Option<i32>,
    /// Whether unhandled failures are to be reported through the logger.
    pub catch_exceptions: bool,
}

impl LoggerState {
    /// What every logger keeps: a known mode, `file` mode naming the place
    /// of the call, `enable_all` having switched everything on, when saving
    /// at least one level saved and only standard ones, a background writer
    /// exactly when saving, and
    /// no clean-up recorded.
    pub open spec fn wf(self) -> bool {
        &&& is_valid_mode(self.mode)
        &&& self.mode == file_mode() ==> self.show_file
        &&& self.enable_all ==> self.show_file && self.show_tag && self.notice && self.all_save
        &&& self.all_save ==> forall|i: int|
            0 <= i < self.save_levels.len() ==> is_standard_level(#[trigger] self.save_levels[i])
        &&& self.all_save ==> self.save_levels.len() > 0
        &&& self.writer_attached == self.all_save
        &&& self.last_cleanup_day is None
    }
}

/// The texts of a list of strings.
pub open spec fn texts(v: Seq<String>) -> Seq<Seq<char>> {
    v.map_values(|s: String| s@)
}

/// Whether `NewVersaLog` accepts its arguments: a known mode, and, where
/// lines are saved, only standard levels in the list.
pub open spec fn new_accepts(
    mode: Seq<char>,
    enable_all: bool,
    all_save: bool,
    save_levels: Seq<Seq<char>>,
) -> bool {
    &&& is_valid_mode(mode)
    &&& (all_save || enable_all) ==> forall|i: int|
        0 <= i < save_levels.len() ==> is_standard_level(#[trigger] save_levels[i])
}

/// The logger `NewVersaLog` makes.
pub open spec fn new_state(
    mode: Seq<char>,
    show_file: bool,
    show_tag: bool,
    tag: Seq<char>,
    enable_all: bool,
    notice: bool,
    all_save: bool,
    save_levels: Seq<Seq<char>>,
    catch_exceptions: bool,
) -> LoggerState {
    let saving = all_save || enable_all;
    LoggerState {
        mode,
        tag,
        show_file: show_file || enable_all || mode == file_mode(),
        show_tag: show_tag || enable_all,
        notice: notice || enable_all,
        enable_all,
        all_save: saving,
        save_levels: if saving && save_levels.len() == 0 {
            standard_levels()
        } else {
            save_levels
        },
        silent: false,
        writer_attached: saving,
        last_cleanup_day: None,
        catch_exceptions,
    }
}

/// A logger.
pub struct VersaLog {
    enum_mode: String,
    tag: String,
    show_file: bool,
    show_tag: bool,
    notice: bool,
    enable_all: bool,
    all_save: bool,
    save_levels: Vec<String>,
    silent: bool,
    writer_attached: bool,
    last_cleanup_day: Option<i32>,
    catch_exceptions: bool,
}

impl View for VersaLog {
    type V = LoggerState;

    closed spec fn view(&self) -> LoggerState {
        LoggerState {
            mode: self.enum_mode@,
            tag: self.tag@,
            show_file: self.show_file,
            show_tag: self.show_tag,
            notice: self.notice,
            enable_all: self.enable_all,
            all_save: self.all_save,
            save_levels: texts(self.save_levels@),
            silent: self.silent,
            writer_attached: self.writer_attached,
            last_cleanup_day: self.last_cleanup_day,
            catch_exceptions: self.catch_exceptions,
        }
    }
}

/// Whether every entry of `levels` is one of the five standard levels.
pub fn all_standard_levels(levels: &Vec<String>) -> (r: bool)
    ensures
        r == forall|i: int| 0 <= i < levels@.len() ==> is_standard_level(#[trigger] texts(levels@)[i]),
{
    let mut i: usize = 0;
    while i < levels.len()
        invariant
            i <= levels@.len(),
            forall|j: int| 0 <= j < i ==> is_standard_level(#[trigger] texts(levels@)[j]),
        decreases levels@.len() - i,
    {
        if !is_standard_level_text(levels[i].as_str()) {
            assert(!is_standard_level(texts(levels@)[i as int]));
            return false;
        }
        i = i + 1;
    }
    true
}

/// Makes a logger. `enum_mode` must be one of `simple`, `simple2`,
/// `detailed`, `file`; where lines are saved (`all_save` or `enable_all`),
/// `save_levels` must hold only standard levels, and an empty list stands for
/// all five. `enable_all` switches on the place of the call, the tag, the
/// notices and saving; `file` mode always shows the place of the call.
#[allow(non_snake_case)]
pub fn NewVersaLog(
    enum_mode: &str,
    show_file: bool,
    show_tag: bool,
    tag: &str,
    enable_all: bool,
    notice: bool,
    all_save: bool,
    save_levels: Vec<String>,
    catch_exceptions: bool,
) -> (r: VersaLog)
    requires
        new_accepts(enum_mode@, enable_all, all_save, texts(save_levels@)),
    ensures
        r@ == new_state(
            enum_mode@,
            show_file,
            show_tag,
            tag@,
            enable_all,
            notice,
            all_save,
            texts(save_levels@),
            catch_exceptions,
        ),
        r@.wf(),
        enable_all ==> r@.show_file && r@.show_tag && r@.notice && r@.all_save,
        enum_mode@ == file_mode() ==> r@.show_file,
        (all_save || enable_all) && save_levels@.len() == 0 ==> r@.save_levels == standard_levels(),
        save_levels@.len() > 0 ==> r@.save_levels == texts(save_levels@),
        !r@.silent,
{
    let mut show_file = show_file;
    let mut show_tag = show_tag;
    let mut notice_enabled = notice;
    let mut all_save = all_save;
    let mut levels = save_levels;
    if enable_all {
        show_file = true;
        show_tag = true;
        notice_enabled = true;
        all_save = true;
    }
    if String::from_str(enum_mode) == file_text() {
        show_file = true;
    }
    if all_save && levels.len() == 0 {
        levels = standard_level_list();
    }
    let r = VersaLog {
        enum_mode: String::from_str(enum_mode),
        tag: String::from_str(tag),
        show_file,
        show_tag,
        notice: notice_enabled,
        enable_all,
        all_save,
        save_levels: levels,
        silent: false,
        writer_attached: all_save,
        last_cleanup_day: None,
        catch_exceptions,
    };
    assert(r@ =~= new_state(
        enum_mode@,
        show_file,
        show_tag,
        tag@,
        enable_all,
        notice,
        all_save,
        texts(save_levels@),
        catch_exceptions,
    ));
    r
}

/// Makes a logger with every option off.
#[allow(non_snake_case)]
pub fn NewVersaLogSimple(enum_mode: &str, tag: &str) -> (r: VersaLog)
    requires
        is_valid_mode(enum_mode@),
    ensures
        r@ == new_state(enum_mode@, false, false, tag@, false, false, false, Seq::empty(), false),
        r@.wf(),
{
    let none: Vec<String> = Vec::new();
    assert(texts(none@) =~= Seq::<Seq<char>>::empty());
    NewVersaLog(enum_mode, false, false, tag, false, false, false, none, false)
}

/// Makes a logger with every option off but `enable_all`.
#[allow(non_snake_case)]
pub fn NewVersaLogSimple2(enum_mode: &str, tag: &str, enable_all: bool) -> (r: VersaLog)
    requires
        is_valid_mode(enum_mode@),
    ensures
        r@ == new_state(enum_mode@, false, false, tag@, enable_all, false, false, Seq::empty(), false),
        r@.wf(),
{
    let none: Vec<String> = Vec::new();
    assert(texts(none@) =~= Seq::<Seq<char>>::empty());
    NewVersaLog(enum_mode, false, false, tag, enable_all, false, false, none, false)
}

/// ` : `, between the head of a detailed line and its message.
pub open spec fn colon_gap() -> Seq<char> {
    seq![' ', ':', ' ']
}

/// The line a logger in state `st` shows on the console for a message `msg`
/// at `level`, with tag `tag`, time `ts` and call place `caller`. In `simple`
/// and `simple2` mode the level's symbol stands between its colour code and
/// the reset code; in `file` and `detailed` mode the level's name follows its
/// colour code and the reset code stands in brackets after it.
pub open spec fn console_line(
    st: LoggerState,
    level: Seq<char>,
    msg: Seq<char>,
    tag: Seq<char>,
    ts: Seq<char>,
    caller: Seq<char>,
) -> Seq<char> {
    let color = color_of(level);
    let symbol = symbol_of(level);
    if st.mode == simple_mode() {
        shown_if(st.show_file, bracketed(caller)) + shown_if(tag.len() > 0, bracketed(tag)) + color + symbol
            + reset_code() + seq![' '] + msg
    } else if st.mode == simple2_mode() {
        bracketed(ts) + seq![' '] + shown_if(
            st.show_file,
            bracketed(caller) + shown_if(tag.len() > 0, bracketed(tag)),
        ) + color + symbol + reset_code() + seq![' '] + msg
    } else if st.mode == file_mode() {
        bracketed(caller) + color + level + bracketed(reset_code()) + msg
    } else {
        bracketed(ts) + color + level + bracketed(reset_code()) + shown_if(tag.len() > 0, bracketed(tag))
            + shown_if(st.show_file, bracketed(caller)) + colon_gap() + msg
    }
}

/// The uncoloured line a logger in state `st` saves for the same message.
pub open spec fn file_line(
    st: LoggerState,
    level: Seq<char>,
    msg: Seq<char>,
    tag: Seq<char>,
    ts: Seq<char>,
    caller: Seq<char>,
) -> Seq<char> {
    let symbol = symbol_of(level);
    if st.mode == simple_mode() {
        shown_if(st.show_file, bracketed(caller)) + shown_if(tag.len() > 0, bracketed(tag)) + symbol + seq![
            ' ',
        ] + msg
    } else if st.mode == simple2_mode() {
        bracketed(ts) + seq![' '] + shown_if(
            st.show_file,
            bracketed(caller) + shown_if(tag.len() > 0, bracketed(tag)),
        ) + symbol + seq![' '] + msg
    } else if st.mode == file_mode() {
        bracketed(caller) + bracketed(level) + seq![' '] + msg
    } else {
        bracketed(ts) + bracketed(level) + shown_if(tag.len() > 0, bracketed(tag)) + shown_if(
            st.show_file,
            bracketed(caller),
        ) + colon_gap() + msg
    }
}

/// Whether a logger in mode `mode` reads the clock for a line: in `simple2`
/// and `detailed` mode.
pub open spec fn needs_time(mode: Seq<char>) -> bool {
    !(mode == simple_mode() || mode == file_mode())
}

/// Whether a logger names the place of the call: where it shows the file or
/// is in `file` mode.
pub open spec fn needs_caller(st: LoggerState) -> bool {
    st.show_file || st.mode == file_mode()
}

/// The tag a line carries: the first tag given, where it is not empty; else
/// the logger's own tag, where it is shown and not empty; else none.
pub open spec fn chosen_tag(st: LoggerState, tags: Seq<&str>) -> Seq<char> {
    if tags.len() > 0 && tags[0]@.len() > 0 {
        tags[0]@
    } else if st.show_tag && st.tag.len() > 0 {
        st.tag
    } else {
        Seq::empty()
    }
}

/// `unknown:0`, the place named when the call stack does not tell.
pub open spec fn unknown_place() -> Seq<char> {
    seq!['u', 'n', 'k', 'n', 'o', 'w', 'n', ':', '0']
}

/// The place of a call as shown: `file:line`, or `unknown:0`.
pub open spec fn place_text(loc: Option<(Seq<char>, u32)>) -> Seq<char> {
    match loc {
        Some((file, line)) => file + seq![':'] + decimal(line as nat),
        None => unknown_place(),
    }
}

/// The texts of a call place.
pub open spec fn place_view(loc: Option<(String, u32)>) -> Option<(Seq<char>, u32)> {
    match loc {
        Some((file, line)) => Some((file@, line)),
        None => None,
    }
}

/// Writes a call place as `file:line`, or `unknown:0` where there is none.
pub fn format_place(loc: Option<(String, u32)>) -> (r: String)
    ensures
        r@ == place_text(place_view(loc)),
{
    match loc {
        Some((file, line)) => {
            let mut r = file;
            let colon = ":";
            proof {
                reveal_strlit(":");
            }
            r.append(colon);
            let digits = decimal_text(line as u64);
            r.append(digits.as_str());
            assert(r@ =~= place_text(place_view(loc)));
            r
        },
        None => {
            let r = String::from_str("unknown:0");
            proof {
                reveal_strlit("unknown:0");
            }
            assert(r@ =~= unknown_place());
            r
        },
    }
}

/// The frame, counted from where the call stack is read, of the code that
/// called one of the logging methods: the reading itself, `get_caller`,
/// `log`, the level method, then its caller.
pub const CALLER_FRAME: usize = 4;

/// The place a call stack names at frame `depth`: the file name and line of
/// the frame's first symbol, written `file:line`, where the frame, its first
/// symbol and both parts exist; else `unknown:0`.
pub open spec fn frame_place(frames: Seq<Vec<(Option<String>, Option<u32>)>>, depth: int) -> Seq<
    char,
> {
    if 0 <= depth < frames.len() && frames[depth]@.len() > 0 {
        match frames[depth]@[0] {
            (Some(file), Some(line)) => place_text(Some((file@, line))),
            _ => unknown_place(),
        }
    } else {
        unknown_place()
    }
}

/// The place a call stack names at frame `depth`.
pub fn caller_place(frames: &Vec<Vec<(Option<String>, Option<u32>)>>, depth: usize) -> (r: String)
    ensures
        r@ == frame_place(frames@, depth as int),
{
    if depth < frames.len() && frames[depth].len() > 0 {
        match &frames[depth][0] {
            (Some(file), Some(line)) => format_place(Some((file.clone(), *line))),
            _ => format_place(None),
        }
    } else {
        format_place(None)
    }
}

impl VersaLog {
    /// The line for the console and the line for the log file, given the
    /// (upper-case) level, the chosen tag, the time and the call place.
    pub fn render(&self, msg: &str, level: &str, tag: &str, timestamp: &str, caller: &str) -> (r: (
        String,
        String,
    ))
        ensures
            r.0@ == console_line(self@, level@, msg@, tag@, timestamp@, caller@),
            r.1@ == file_line(self@, level@, msg@, tag@, timestamp@, caller@),
    {
        let color = color_text(level);
        let symbol = symbol_text(level);
        let reset = reset_text();
        let space = space_text();
        let has_tag = !tag.is_empty();
        if self.enum_mode == simple_text() {
            let mut head = String::new();
            if self.show_file {
                head.append(bracketed_text(caller).as_str());
            }
            if has_tag {
                head.append(bracketed_text(tag).as_str());
            }
            let mut out = head.clone();
            out.append(color.as_str());
            out.append(symbol.as_str());
            out.append(reset.as_str());
            out.append(space.as_str());
            out.append(msg);
            let mut plain = head;
            plain.append(symbol.as_str());
            plain.append(space.as_str());
            plain.append(msg);
            assert(out@ =~= console_line(self@, level@, msg@, tag@, timestamp@, caller@));
            assert(plain@ =~= file_line(self@, level@, msg@, tag@, timestamp@, caller@));
            (out, plain)
        } else if self.enum_mode == simple2_text() {
            let mut head = bracketed_text(timestamp);
            head.append(space.as_str());
            if self.show_file {
                head.append(bracketed_text(caller).as_str());
                if has_tag {
                    head.append(bracketed_text(tag).as_str());
                }
            }
            let mut out = head.clone();
            out.append(color.as_str());
            out.append(symbol.as_str());
            out.append(reset.as_str());
            out.append(space.as_str());
            out.append(msg);
            let mut plain = head;
            plain.append(symbol.as_str());
            plain.append(space.as_str());
            plain.append(msg);
            assert(out@ =~= console_line(self@, level@, msg@, tag@, timestamp@, caller@));
            assert(plain@ =~= file_line(self@, level@, msg@, tag@, timestamp@, caller@));
            (out, plain)
        } else if self.enum_mode == file_text() {
            let place = bracketed_text(caller);
            let mut out = place.clone();
            out.append(color.as_str());
            out.append(level);
            out.append(bracketed_text(reset.as_str()).as_str());
            out.append(msg);
            let mut plain = place;
            plain.append(bracketed_text(level).as_str());
            plain.append(space.as_str());
            plain.append(msg);
            assert(out@ =~= console_line(self@, level@, msg@, tag@, timestamp@, caller@));
            assert(plain@ =~= file_line(self@, level@, msg@, tag@, timestamp@, caller@));
            (out, plain)
        } else {
            let time = bracketed_text(timestamp);
            let mut out = time.clone();
            out.append(color.as_str());
            out.append(level);
            out.append(bracketed_text(reset.as_str()).as_str());
            let mut plain = time;
            plain.append(bracketed_text(level).as_str());
            let mut extra = String::new();
            if has_tag {
                extra.append(bracketed_text(tag).as_str());
            }
            if self.show_file {
                extra.append(bracketed_text(caller).as_str());
            }
            let gap = String::from_str(" : ");
            proof {
                reveal_strlit(" : ");
            }
            assert(gap@ =~= colon_gap());
            extra.append(gap.as_str());
            extra.append(msg);
            out.append(extra.as_str());
            plain.append(extra.as_str());
            assert(out@ =~= console_line(self@, level@, msg@, tag@, timestamp@, caller@));
            assert(plain@ =~= file_line(self@, level@, msg@, tag@, timestamp@, caller@));
            (out, plain)
        }
    }
}

/// How many days of log files a clean-up keeps.
pub const LOG_RETENTION_DAYS: i64 = 7;

/// Where the saved line of a logging call goes.
pub enum SaveRoute {
    /// The line is not saved.
    Skip,
    /// The line is handed to the background writer.
    Queue,
    /// The line is written at once; `cleanup` tells whether old logs are to
    /// be cleaned up afterwards, keeping the last `keep_days` days.
    WriteNow { cleanup: bool, keep_days: i64 },
}

/// A desktop notice.
pub struct Notice {
    /// `LEVEL Log notice`
    pub summary: String,
    /// The message.
    pub body: String,
}

/// What one logging call produces: the upper-case level, the time it read,
/// the call stack it read and the call place it names there (each empty where
/// the mode does not show it), the console line, the line to save, whether the
/// console line is printed, where the saved line goes, the desktop notice
/// that is due, if any, and, in the report of a panic, the text of the call
/// stack read for it (empty in every other record).
pub struct LogRecord {
    pub level: String,
    pub timestamp: String,
    pub call_stack: Vec<Vec<(Option<String>, Option<u32>)>>,
    pub caller: String,
    pub output: String,
    pub plain: String,
    pub print: bool,
    pub save: SaveRoute,
    pub notice: Option<Notice>,
    pub trace: String,
}

/// Whether a logger saves lines of `level`.
pub open spec fn saves(st: LoggerState, level: Seq<char>) -> bool {
    st.all_save && st.save_levels.contains(level)
}

/// The route a saved line of `level` takes: none where the logger does not
/// save the level, the background writer where there is one, else an
/// immediate write, followed by a clean-up where none was recorded.
pub open spec fn route_fits(st: LoggerState, level: Seq<char>, route: SaveRoute) -> bool {
    if !saves(st, level) {
        route == SaveRoute::Skip
    } else if st.writer_attached {
        route == SaveRoute::Queue
    } else {
        route matches SaveRoute::WriteNow { cleanup, keep_days } && keep_days == LOG_RETENTION_DAYS
            && (st.last_cleanup_day is None ==> cleanup)
    }
}

/// ` Log notice`
pub open spec fn notice_suffix() -> Seq<char> {
    seq![' ', 'L', 'o', 'g', ' ', 'n', 'o', 't', 'i', 'c', 'e']
}

/// A notice is due for errors and critical messages where notices are on;
/// its summary is the level followed by ` Log notice`, its body the message.
pub open spec fn notice_fits(
    st: LoggerState,
    level: Seq<char>,
    msg: Seq<char>,
    notice: Option<Notice>,
) -> bool {
    if st.notice && (level == error_level() || level == critical_level()) {
        notice matches Some(n) && n.summary@ == level + notice_suffix() && n.body@ == msg
    } else {
        notice is None
    }
}

/// What a logger in state `st` produces for `msg` at level `level_in` with
/// `tags`: the level is upper-cased, the time and call place are read only
/// where the mode shows them (the time then in `%Y-%m-%d %H:%M:%S` form),
/// and the lines, the printing, the route and the
/// notice follow from them.
pub open spec fn record_fits(
    st: LoggerState,
    msg: Seq<char>,
    level_in: Seq<char>,
    tags: Seq<&str>,
    r: LogRecord,
) -> bool {
    &&& r.level@ == upper_case(level_in)
    &&& is_ascii_chars(level_in) ==> r.level@ == ascii_upper(level_in)
    &&& needs_caller(st) ==> r.caller@ == frame_place(r.call_stack@, CALLER_FRAME as int)
    &&& !needs_caller(st) ==> r.caller@ == Seq::<char>::empty() && r.call_stack@.len() == 0
    &&& !needs_time(st.mode) ==> r.timestamp@ == Seq::<char>::empty()
    &&& needs_time(st.mode) ==> timestamp_text(r.timestamp@)
    &&& r.output@ == console_line(st, r.level@, msg, chosen_tag(st, tags), r.timestamp@, r.caller@)
    &&& r.plain@ == file_line(st, r.level@, msg, chosen_tag(st, tags), r.timestamp@, r.caller@)
    &&& r.print == !st.silent
    &&& route_fits(st, r.level@, r.save)
    &&& notice_fits(st, r.level@, msg, r.notice)
}

/// `Unhandled exception:` and a line break.
pub open spec fn exception_intro() -> Seq<char> {
    seq![
        'U', 'n', 'h', 'a', 'n', 'd', 'l', 'e', 'd', ' ', 'e', 'x', 'c', 'e', 'p', 't', 'i', 'o', 'n',
        ':', '\n',
    ]
}

/// `Exception Type: `
pub open spec fn exception_type_label() -> Seq<char> {
    seq!['E', 'x', 'c', 'e', 'p', 't', 'i', 'o', 'n', ' ', 'T', 'y', 'p', 'e', ':', ' ']
}

/// A line break and `Exception Value: `
pub open spec fn exception_value_label() -> Seq<char> {
    seq![
        '\n', 'E', 'x', 'c', 'e', 'p', 't', 'i', 'o', 'n', ' ', 'V', 'a', 'l', 'u', 'e', ':', ' ',
    ]
}

/// A line break, `Traceback:` and a line break.
pub open spec fn traceback_label() -> Seq<char> {
    seq!['\n', 'T', 'r', 'a', 'c', 'e', 'b', 'a', 'c', 'k', ':', '\n']
}

/// The message logged for an unhandled exception.
pub open spec fn exception_text(kind: Seq<char>, value: Seq<char>, trace: Seq<char>) -> Seq<char> {
    exception_intro() + exception_type_label() + kind + exception_value_label() + value
        + traceback_label() + trace
}

/// `Unhandled panic: `
pub open spec fn panic_intro() -> Seq<char> {
    seq!['U', 'n', 'h', 'a', 'n', 'd', 'l', 'e', 'd', ' ', 'p', 'a', 'n', 'i', 'c', ':', ' ']
}

/// `at file:line:column` and a line break, the place a panic happened.
pub open spec fn panic_place(loc: Option<(Seq<char>, u32, u32)>) -> Seq<char> {
    match loc {
        Some((file, line, column)) => seq!['a', 't', ' '] + file + seq![':'] + decimal(line as nat)
            + seq![':'] + decimal(column as nat) + seq!['\n'],
        None => Seq::empty(),
    }
}

/// The texts of a panic's place.
pub open spec fn panic_place_view(loc: Option<(String, u32, u32)>) -> Option<(Seq<char>, u32, u32)> {
    match loc {
        Some((file, line, column)) => Some((file@, line, column)),
        None => None,
    }
}

/// The message logged for an unhandled panic: the panic's message, a line
/// break, its place where known, and the call stack.
pub open spec fn panic_text(
    msg: Seq<char>,
    loc: Option<(Seq<char>, u32, u32)>,
    trace: Seq<char>,
) -> Seq<char> {
    panic_intro() + msg + seq!['\n'] + panic_place(loc) + trace
}

/// The five standard levels are ASCII and already upper case.
proof fn lemma_standard_levels_upper()
    ensures
        is_ascii_chars(info_level()) && ascii_upper(info_level()) == info_level(),
        is_ascii_chars(error_level()) && ascii_upper(error_level()) == error_level(),
        is_ascii_chars(warning_level()) && ascii_upper(warning_level()) == warning_level(),
        is_ascii_chars(debug_level()) && ascii_upper(debug_level()) == debug_level(),
        is_ascii_chars(critical_level()) && ascii_upper(critical_level()) == critical_level(),
{
    assert(ascii_upper(info_level()) =~= info_level());
    assert(ascii_upper(error_level()) =~= error_level());
    assert(ascii_upper(warning_level()) =~= warning_level());
    assert(ascii_upper(debug_level()) =~= debug_level());
    assert(ascii_upper(critical_level()) =~= critical_level());
}

/// Writes the message logged for an unhandled exception.
pub fn exception_message(kind: &str, value: &str, trace: &str) -> (r: String)
    ensures
        r@ == exception_text(kind@, value@, trace@),
{
    let mut r = String::from_str("Unhandled exception:\n");
    let type_label = "Exception Type: ";
    let value_label = "\nException Value: ";
    let trace_label = "\nTraceback:\n";
    proof {
        reveal_strlit("Unhandled exception:\n");
        reveal_strlit("Exception Type: ");
        reveal_strlit("\nException Value: ");
        reveal_strlit("\nTraceback:\n");
        assert(r@ =~= exception_intro());
        assert(type_label@ =~= exception_type_label());
        assert(value_label@ =~= exception_value_label());
        assert(trace_label@ =~= traceback_label());
    }
    r.append(type_label);
    r.append(kind);
    r.append(value_label);
    r.append(value);
    r.append(trace_label);
    r.append(trace);
    assert(r@ =~= exception_text(kind@, value@, trace@));
    r
}

/// Writes the message logged for an unhandled panic.
pub fn panic_message(msg: &str, loc: Option<(String, u32, u32)>, trace: &str) -> (r: String)
    ensures
        r@ == panic_text(msg@, panic_place_view(loc), trace@),
{
    let mut r = String::from_str("Unhandled panic: ");
    let newline = "\n";
    let colon = ":";
    proof {
        reveal_strlit("Unhandled panic: ");
        reveal_strlit("\n");
        reveal_strlit(":");
        assert(r@ =~= panic_intro());
    }
    r.append(msg);
    r.append(newline);
    let ghost before = r@;
    match loc {
        Some((file, line, column)) => {
            let at = "at ";
            proof {
                reveal_strlit("at ");
            }
            r.append(at);
            r.append(file.as_str());
            r.append(colon);
            r.append(decimal_text(line as u64).as_str());
            r.append(colon);
            r.append(decimal_text(column as u64).as_str());
            r.append(newline);
            assert(r@ =~= before + panic_place(panic_place_view(loc)));
        },
        None => {
            assert(r@ =~= before + panic_place(panic_place_view(loc)));
        },
    }
    r.append(trace);
    assert(r@ =~= panic_text(msg@, panic_place_view(loc), trace@));
    r
}

impl VersaLog {
    /// Whether the logger saves lines of `level`.
    fn saves_level(&self, level: &str) -> (r: bool)
        ensures
            r == saves(self@, level@),
    {
        if !self.all_save {
            return false;
        }
        let wanted = String::from_str(level);
        let mut i: usize = 0;
        while i < self.save_levels.len()
            invariant
                i <= self.save_levels@.len(),
                wanted@ == level@,
                self.all_save,
                forall|j: int| 0 <= j < i ==> texts(self.save_levels@)[j] != level@,
            decreases self.save_levels@.len() - i,
        {
            if self.save_levels[i] == wanted {
                assert(texts(self.save_levels@)[i as int] == level@);
                return true;
            }
            i = i + 1;
        }
        assert(!texts(self.save_levels@).contains(level@));
        false
    }

    /// Routes the saved line of a call at `level`: not saved, handed to the
    /// background writer, or written at once.
    pub fn save_log(&self, level: &str) -> (r: SaveRoute)
        ensures
            route_fits(self@, level@, r),
    {
        if !self.saves_level(level) {
            return SaveRoute::Skip;
        }
        if self.writer_attached {
            return SaveRoute::Queue;
        }
        self.save_log_sync(level)
    }

    /// Routes a line that is written at once: not at all where the level is
    /// not saved; else written, and followed by a clean-up of old logs where
    /// none was recorded for today.
    pub fn save_log_sync(&self, level: &str) -> (r: SaveRoute)
        ensures
            !saves(self@, level@) ==> r == SaveRoute::Skip,
            saves(self@, level@) ==> (r matches SaveRoute::WriteNow { cleanup, keep_days }
                && keep_days == LOG_RETENTION_DAYS && (self@.last_cleanup_day is None ==> cleanup)),
    {
        if !self.saves_level(level) {
            return SaveRoute::Skip;
        }
        let today = local_day_number();
        let cleanup = match self.last_cleanup_day {
            Some(day) => day != today,
            None => true,
        };
        SaveRoute::WriteNow { cleanup, keep_days: LOG_RETENTION_DAYS }
    }

    /// The notice due for a message at `level`.
    fn notice_for(&self, level: &str, msg: &str) -> (r: Option<Notice>)
        ensures
            notice_fits(self@, level@, msg@, r),
    {
        let l = String::from_str(level);
        if self.notice && (l == error_text() || l == critical_text()) {
            let mut summary = l;
            let suffix = " Log notice";
            proof {
                reveal_strlit(" Log notice");
                assert(suffix@ =~= notice_suffix());
            }
            summary.append(suffix);
            Some(Notice { summary, body: String::from_str(msg) })
        } else {
            None
        }
    }

    /// The local time, as `YYYY-MM-DD HH:MM:SS`.
    fn get_time(&self) -> (r: String)
        ensures
            timestamp_text(r@),
    {
        let fmt = "%Y-%m-%d %H:%M:%S";
        proof {
            reveal_strlit("%Y-%m-%d %H:%M:%S");
            assert(fmt@ =~= timestamp_format());
        }
        local_now_text(fmt)
    }

    /// The place of the code that called the logging method, as
    /// `file:line`, or `unknown:0` where the call stack does not tell, with
    /// the call stack it was read from.
    fn get_caller(&self) -> (r: (String, Vec<Vec<(Option<String>, Option<u32>)>>))
        ensures
            r.0@ == frame_place(r.1@, CALLER_FRAME as int),
    {
        let frames = captured_frames();
        let place = caller_place(&frames, CALLER_FRAME);
        (place, frames)
    }

    /// Logs `msg` at `level` (any text; it is upper-cased) with `tags`, of
    /// which the first, where given and not empty, is the line's tag. The
    /// record says what to print, what to save and where, and which notice
    /// to raise.
    pub fn log(&self, msg: String, level: String, tags: &[&str]) -> (r: LogRecord)
        ensures
            record_fits(self@, msg@, level@, tags@, r),
            r.trace@.len() == 0,
    {
        let level = to_upper(level.as_str());
        let (caller, call_stack) = if self.show_file || self.enum_mode == file_text() {
            self.get_caller()
        } else {
            (String::new(), Vec::new())
        };
        let timestamp = if self.enum_mode == simple_text() || self.enum_mode == file_text() {
            String::new()
        } else {
            self.get_time()
        };
        let tag = if tags.len() > 0 && !tags[0].is_empty() {
            String::from_str(tags[0])
        } else if self.show_tag && !self.tag.as_str().is_empty() {
            self.tag.clone()
        } else {
            String::new()
        };
        assert(tag@ == chosen_tag(self@, tags@));
        let lines = self.render(
            msg.as_str(),
            level.as_str(),
            tag.as_str(),
            timestamp.as_str(),
            caller.as_str(),
        );
        let save = self.save_log(level.as_str());
        let notice = self.notice_for(level.as_str(), msg.as_str());
        LogRecord {
            level,
            timestamp,
            call_stack,
            caller,
            output: lines.0,
            plain: lines.1,
            print: !self.silent,
            save,
            notice,
            trace: String::new(),
        }
    }

    /// Turns console output off (`true`) or on (`false`); nothing else
    /// changes.
    pub fn set_silent(&mut self, silent: bool)
        ensures
            final(self)@ == (LoggerState { silent, ..old(self)@ }),
            old(self)@.wf() ==> final(self)@.wf(),
    {
        self.silent = silent;
    }

    /// Logs the report of an unhandled exception at `CRITICAL`, without tags.
    pub fn handle_exception(&self, exc_type: &str, exc_value: &str, exc_traceback: &str) -> (r:
        LogRecord)
        ensures
            record_fits(
                self@,
                exception_text(exc_type@, exc_value@, exc_traceback@),
                critical_level(),
                Seq::empty(),
                r,
            ),
            r.level@ == critical_level(),
    {
        let text = exception_message(exc_type, exc_value, exc_traceback);
        self.Critical_no_tag(text.as_str())
    }

    /// Logs the report of an unhandled panic with message `msg` at `loc`, at
    /// `CRITICAL` without tags; the report ends with the text of the call
    /// stack read here, which the record also carries.
    pub fn report_panic(&self, msg: &str, loc: Option<(String, u32, u32)>) -> (r: LogRecord)
        ensures
            record_fits(
                self@,
                panic_text(msg@, panic_place_view(loc), r.trace@),
                critical_level(),
                Seq::empty(),
                r,
            ),
            r.level@ == critical_level(),
    {
        let stack_text = backtrace_text();
        let report = panic_message(msg, loc, stack_text.as_str());
        let mut r = self.Critical_no_tag(report.as_str());
        r.trace = stack_text;
        r
    }
}

impl VersaLog {
    /// Logs `msg` at `INFO` with `tags`.
    #[allow(non_snake_case)]
    pub fn Info(&self, msg: &str, tags: &[&str]) -> (r: LogRecord)
        ensures
            record_fits(self@, msg@, info_level(), tags@, r),
            r.level@ == info_level(),
    {
        let r = self.log(String::from_str(msg), info_text(), tags);
        proof {
            lemma_standard_levels_upper();
        }
        r
    }

    /// Logs `msg` at `ERROR` with `tags`.
    #[allow(non_snake_case)]
    pub fn Error(&self, msg: &str, tags: &[&str]) -> (r: LogRecord)
        ensures
            record_fits(self@, msg@, error_level(), tags@, r),
            r.level@ == error_level(),
    {
        let r = self.log(String::from_str(msg), error_text(), tags);
        proof {
            lemma_standard_levels_upper();
        }
        r
    }

    /// Logs `msg` at `WARNING` with `tags`.
    #[allow(non_snake_case)]
    pub fn Warning(&self, msg: &str, tags: &[&str]) -> (r: LogRecord)
        ensures
            record_fits(self@, msg@, warning_level(), tags@, r),
            r.level@ == warning_level(),
    {
        let r = self.log(String::from_str(msg), warning_text(), tags);
        proof {
            lemma_standard_levels_upper();
        }
        r
    }

    /// Logs `msg` at `DEBUG` with `tags`.
    #[allow(non_snake_case)]
    pub fn Debug(&self, msg: &str, tags: &[&str]) -> (r: LogRecord)
        ensures
            record_fits(self@, msg@, debug_level(), tags@, r),
            r.level@ == debug_level(),
    {
        let r = self.log(String::from_str(msg), debug_text(), tags);
        proof {
            lemma_standard_levels_upper();
        }
        r
    }

    /// Logs `msg` at `CRITICAL` with `tags`.
    #[allow(non_snake_case)]
    pub fn Critical(&self, msg: &str, tags: &[&str]) -> (r: LogRecord)
        ensures
            record_fits(self@, msg@, critical_level(), tags@, r),
            r.level@ == critical_level(),
    {
        let r = self.log(String::from_str(msg), critical_text(), tags);
        proof {
            lemma_standard_levels_upper();
        }
        r
    }

    /// Logs `msg` at `INFO` with `tags`, as `Info` does.
    pub fn info(&self, msg: &str, tags: &[&str]) -> (r: LogRecord)
        ensures
            record_fits(self@, msg@, info_level(), tags@, r),
            r.level@ == info_level(),
    {
        self.Info(msg, tags)
    }

    /// Logs `msg` at `ERROR` with `tags`, as `Error` does.
    pub fn error(&self, msg: &str, tags: &[&str]) -> (r: LogRecord)
        ensures
            record_fits(self@, msg@, error_level(), tags@, r),
            r.level@ == error_level(),
    {
        self.Error(msg, tags)
    }

    /// Logs `msg` at `WARNING` with `tags`, as `Warning` does.
    pub fn warning(&self, msg: &str, tags: &[&str]) -> (r: LogRecord)
        ensures
            record_fits(self@, msg@, warning_level(), tags@, r),
            r.level@ == warning_level(),
    {
        self.Warning(msg, tags)
    }

    /// Logs `msg` at `DEBUG` with `tags`, as `Debug` does.
    pub fn debug(&self, msg: &str, tags: &[&str]) -> (r: LogRecord)
        ensures
            record_fits(self@, msg@, debug_level(), tags@, r),
            r.level@ == debug_level(),
    {
        self.Debug(msg, tags)
    }

    /// Logs `msg` at `CRITICAL` with `tags`, as `Critical` does.
    pub fn critical(&self, msg: &str, tags: &[&str]) -> (r: LogRecord)
        ensures
            record_fits(self@, msg@, critical_level(), tags@, r),
            r.level@ == critical_level(),
    {
        self.Critical(msg, tags)
    }

    /// Logs `msg` at `INFO` without tags.
    #[allow(non_snake_case)]
    pub fn Info_no_tag(&self, msg: &str) -> (r: LogRecord)
        ensures
            record_fits(self@, msg@, info_level(), Seq::empty(), r),
            r.level@ == info_level(),
    {
        let none: Vec<&str> = Vec::new();
        let r = self.log(String::from_str(msg), info_text(), none.as_slice());
        proof {
            lemma_standard_levels_upper();
            assert(none@ =~= Seq::<&str>::empty());
        }
        r
    }

    /// Logs `msg` at `ERROR` without tags.
    #[allow(non_snake_case)]
    pub fn Error_no_tag(&self, msg: &str) -> (r: LogRecord)
        ensures
            record_fits(self@, msg@, error_level(), Seq::empty(), r),
            r.level@ == error_level(),
    {
        let none: Vec<&str> = Vec::new();
        let r = self.log(String::from_str(msg), error_text(), none.as_slice());
        proof {
            lemma_standard_levels_upper();
            assert(none@ =~= Seq::<&str>::empty());
        }
        r
    }

    /// Logs `msg` at `WARNING` without tags.
    #[allow(non_snake_case)]
    pub fn Warning_no_tag(&self, msg: &str) -> (r: LogRecord)
        ensures
            record_fits(self@, msg@, warning_level(), Seq::empty(), r),
            r.level@ == warning_level(),
    {
        let none: Vec<&str> = Vec::new();
        let r = self.log(String::from_str(msg), warning_text(), none.as_slice());
        proof {
            lemma_standard_levels_upper();
            assert(none@ =~= Seq::<&str>::empty());
        }
        r
    }

    /// Logs `msg` at `DEBUG` without tags.
    #[allow(non_snake_case)]
    pub fn Debug_no_tag(&self, msg: &str) -> (r: LogRecord)
        ensures
            record_fits(self@, msg@, debug_level(), Seq::empty(), r),
            r.level@ == debug_level(),
    {
        let none: Vec<&str> = Vec::new();
        let r = self.log(String::from_str(msg), debug_text(), none.as_slice());
        proof {
            lemma_standard_levels_upper();
            assert(none@ =~= Seq::<&str>::empty());
        }
        r
    }

    /// Logs `msg` at `CRITICAL` without tags.
    #[allow(non_snake_case)]
    pub fn Critical_no_tag(&self, msg: &str) -> (r: LogRecord)
        ensures
            record_fits(self@, msg@, critical_level(), Seq::empty(), r),
            r.level@ == critical_level(),
    {
        let none: Vec<&str> = Vec::new();
        let r = self.log(String::from_str(msg), critical_text(), none.as_slice());
        proof {
            lemma_standard_levels_upper();
            assert(none@ =~= Seq::<&str>::empty());
        }
        r
    }
}

impl VersaLog {
    /// Whether console output is suppressed.
    pub fn is_silent(&self) -> (r: bool)
        ensures
            r == self@.silent,
    {
        self.silent
    }

    /// Whether the logger expects a background writer for its saved lines.
    pub fn has_writer(&self) -> (r: bool)
        ensures
            r == self@.writer_attached,
    {
        self.writer_attached
    }
}

} // verus!
