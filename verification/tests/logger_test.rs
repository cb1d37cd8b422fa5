use versalogrs::{
    all_standard_levels, caller_place, exception_message, format_place, is_standard_level_text,
    is_valid_mode_text, panic_message, NewVersaLog, NewVersaLogSimple, NewVersaLogSimple2,
    SaveRoute, VersaLog, LOG_RETENTION_DAYS,
};

const GREEN: &str = "\x1b[32m";
const RED: &str = "\x1b[31m";
const YELLOW: &str = "\x1b[33m";
const CYAN: &str = "\x1b[36m";
const MAGENTA: &str = "\x1b[35m";
const RESET: &str = "\x1b[0m";

fn plain_logger(mode: &str) -> VersaLog {
    NewVersaLog(mode, false, false, "VersaLog", false, false, false, vec![], false)
}

#[test]
fn simple_lines_without_options() {
    let logger = plain_logger("simple");
    let r = logger.Info("info", &[]);
    assert_eq!(r.level, "INFO");
    assert_eq!(r.plain, "[+] info");
    assert_eq!(r.output, format!("{}[+]{} info", GREEN, RESET));
    assert_eq!(r.timestamp, "");
    assert_eq!(r.caller, "");
    assert!(r.call_stack.is_empty());
    assert!(r.print);
    assert!(matches!(r.save, SaveRoute::Skip));
    assert!(r.notice.is_none());
}

#[test]
fn simple_symbols_and_colors_of_each_level() {
    let logger = plain_logger("simple");
    let cases = [
        (logger.Info("m", &[]), GREEN, "[+]"),
        (logger.Error("m", &[]), RED, "[-]"),
        (logger.Warning("m", &[]), YELLOW, "[!]"),
        (logger.Debug("m", &[]), CYAN, "[D]"),
        (logger.Critical("m", &[]), MAGENTA, "[C]"),
    ];
    for (r, color, symbol) in cases.iter() {
        assert_eq!(r.plain, format!("{} m", symbol));
        assert_eq!(r.output, format!("{}{}{} m", color, symbol, RESET));
    }
}

#[test]
fn given_tag_comes_first() {
    let logger = NewVersaLog("simple", false, true, "Own", false, false, false, vec![], false);
    let r = logger.Warning("warning.", &["Net"]);
    assert_eq!(r.plain, "[Net][!] warning.");
    let r = logger.Warning("warning.", &[""]);
    assert_eq!(r.plain, "[Own][!] warning.");
    let r = logger.Warning_no_tag("warning.");
    assert_eq!(r.plain, "[Own][!] warning.");
}

#[test]
fn own_tag_hidden_unless_shown() {
    let logger = plain_logger("simple");
    let r = logger.Debug("debug", &[]);
    assert_eq!(r.plain, "[D] debug");
}

#[test]
fn render_simple_with_file() {
    let logger = NewVersaLog("simple", true, false, "T", false, false, false, vec![], false);
    let (out, plain) = logger.render("hello", "ERROR", "Tag", "2024-01-02 03:04:05", "main.rs:7");
    assert_eq!(plain, "[main.rs:7][Tag][-] hello");
    assert_eq!(out, format!("[main.rs:7][Tag]{}[-]{} hello", RED, RESET));
    let (_, plain) = logger.render("hello", "ERROR", "", "ts", "main.rs:7");
    assert_eq!(plain, "[main.rs:7][-] hello");
}

#[test]
fn render_simple2() {
    let with_file = NewVersaLog("simple2", true, false, "T", false, false, false, vec![], false);
    let (out, plain) = with_file.render("hi", "INFO", "Tag", "2024-01-02 03:04:05", "a.rs:1");
    assert_eq!(plain, "[2024-01-02 03:04:05] [a.rs:1][Tag][+] hi");
    assert_eq!(out, format!("[2024-01-02 03:04:05] [a.rs:1][Tag]{}[+]{} hi", GREEN, RESET));
    let (_, plain) = with_file.render("hi", "INFO", "", "ts", "a.rs:1");
    assert_eq!(plain, "[ts] [a.rs:1][+] hi");
    let without_file = plain_logger("simple2");
    let (out, plain) = without_file.render("hi", "INFO", "Tag", "ts", "a.rs:1");
    assert_eq!(plain, "[ts] [+] hi");
    assert_eq!(out, format!("[ts] {}[+]{} hi", GREEN, RESET));
}

#[test]
fn render_file_mode() {
    let logger = plain_logger("file");
    let (out, plain) = logger.render("info", "INFO", "", "", "main.rs:3");
    assert_eq!(plain, "[main.rs:3][INFO] info");
    assert_eq!(out, format!("[main.rs:3]{}INFO[{}]info", GREEN, RESET));
}

#[test]
fn render_detailed() {
    let logger = NewVersaLog("detailed", true, false, "T", false, false, false, vec![], false);
    let (out, plain) = logger.render("boom", "CRITICAL", "Tag", "ts", "x.rs:9");
    assert_eq!(plain, "[ts][CRITICAL][Tag][x.rs:9] : boom");
    assert_eq!(out, format!("[ts]{}CRITICAL[{}][Tag][x.rs:9] : boom", MAGENTA, RESET));
    let bare = plain_logger("detailed");
    let (_, plain) = bare.render("boom", "DEBUG", "", "ts", "x.rs:9");
    assert_eq!(plain, "[ts][DEBUG] : boom");
}

#[test]
fn file_mode_names_the_call_place() {
    let logger = plain_logger("file");
    let r = logger.Info("info", &[]);
    assert!(!r.caller.is_empty());
    assert_eq!(r.timestamp, "");
    assert_eq!(r.plain, format!("[{}][INFO] info", r.caller));
    assert_eq!(r.caller, caller_place(&r.call_stack, 4));
    assert!(!r.call_stack.is_empty());
    let colon = r.caller.rfind(':').unwrap();
    assert!(r.caller[colon + 1..].chars().all(|c| c.is_ascii_digit()));
}

#[test]
fn detailed_mode_reads_the_clock() {
    let logger = plain_logger("detailed");
    let r = logger.Warning("careful", &[]);
    assert_eq!(r.timestamp.len(), 19);
    assert_eq!(r.caller, "");
    assert_eq!(r.plain, format!("[{}][WARNING] : careful", r.timestamp));
    for (i, c) in r.timestamp.chars().enumerate() {
        match i {
            4 | 7 => assert_eq!(c, '-'),
            10 => assert_eq!(c, ' '),
            13 | 16 => assert_eq!(c, ':'),
            _ => assert!(c.is_ascii_digit()),
        }
    }
}

#[test]
fn simple2_mode_reads_the_clock() {
    let logger = plain_logger("simple2");
    let r = logger.Info("x", &[]);
    assert_eq!(r.timestamp.len(), 19);
    assert_eq!(r.plain, format!("[{}] [+] x", r.timestamp));
}

#[test]
fn level_is_upper_cased() {
    let logger = plain_logger("simple");
    let r = logger.log("m".to_string(), "warning".to_string(), &[]);
    assert_eq!(r.level, "WARNING");
    assert_eq!(r.plain, "[!] m");
    let upper = logger.log("m".to_string(), "WARNING".to_string(), &[]);
    assert_eq!(upper.output, r.output);
}

#[test]
fn unknown_level_has_no_color_or_symbol() {
    let logger = plain_logger("simple");
    let r = logger.log("m".to_string(), "trace".to_string(), &[]);
    assert_eq!(r.level, "TRACE");
    assert_eq!(r.plain, " m");
    assert_eq!(r.output, format!("{} m", RESET));
    let detailed = plain_logger("detailed");
    let (out, plain) = detailed.render("m", "TRACE", "", "ts", "");
    assert_eq!(plain, "[ts][TRACE] : m");
    assert_eq!(out, format!("[ts]TRACE[{}] : m", RESET));
}

#[test]
fn lower_case_methods_match() {
    let logger = plain_logger("simple");
    assert_eq!(logger.info("a", &["t"]).plain, logger.Info("a", &["t"]).plain);
    assert_eq!(logger.error("a", &["t"]).plain, logger.Error("a", &["t"]).plain);
    assert_eq!(logger.warning("a", &["t"]).plain, logger.Warning("a", &["t"]).plain);
    assert_eq!(logger.debug("a", &["t"]).plain, logger.Debug("a", &["t"]).plain);
    assert_eq!(logger.critical("a", &["t"]).plain, logger.Critical("a", &["t"]).plain);
    assert_eq!(logger.Info_no_tag("a").plain, logger.Info("a", &[]).plain);
    assert_eq!(logger.Error_no_tag("a").plain, logger.Error("a", &[]).plain);
    assert_eq!(logger.Debug_no_tag("a").plain, logger.Debug("a", &[]).plain);
    assert_eq!(logger.Critical_no_tag("a").plain, logger.Critical("a", &[]).plain);
}

#[test]
fn notices_for_errors_only() {
    let logger = NewVersaLog("simple", false, false, "V", false, true, false, vec![], false);
    let r = logger.Error("disk full", &[]);
    let n = r.notice.unwrap();
    assert_eq!(n.summary, "ERROR Log notice");
    assert_eq!(n.body, "disk full");
    let n = logger.Critical("down", &[]).notice.unwrap();
    assert_eq!(n.summary, "CRITICAL Log notice");
    assert!(logger.Info("fine", &[]).notice.is_none());
    assert!(logger.Warning("hm", &[]).notice.is_none());
    let quiet = plain_logger("simple");
    assert!(quiet.Error("disk full", &[]).notice.is_none());
}

#[test]
fn saving_chosen_levels() {
    let logger = NewVersaLog(
        "simple",
        false,
        false,
        "V",
        false,
        false,
        true,
        vec!["ERROR".to_string()],
        false,
    );
    assert!(logger.has_writer());
    assert!(matches!(logger.Error("e", &[]).save, SaveRoute::Queue));
    assert!(matches!(logger.Info("i", &[]).save, SaveRoute::Skip));
    assert!(matches!(logger.save_log("ERROR"), SaveRoute::Queue));
    assert!(matches!(logger.save_log("error"), SaveRoute::Skip));
}

#[test]
fn saving_all_levels_by_default() {
    let logger = NewVersaLog("detailed", false, false, "V", false, false, true, vec![], false);
    for level in ["INFO", "ERROR", "WARNING", "DEBUG", "CRITICAL"] {
        assert!(matches!(logger.save_log(level), SaveRoute::Queue));
    }
    assert!(matches!(logger.save_log("TRACE"), SaveRoute::Skip));
    assert!(matches!(logger.save_log_sync("TRACE"), SaveRoute::Skip));
    assert!(matches!(logger.save_log_sync("INFO"), SaveRoute::WriteNow { cleanup: true, keep_days: 7 }));
}

#[test]
fn not_saving_without_the_switch() {
    let logger = plain_logger("simple");
    assert!(!logger.has_writer());
    assert!(matches!(logger.save_log("INFO"), SaveRoute::Skip));
}

#[test]
fn enable_all_switches_everything_on() {
    let logger = NewVersaLog("simple", false, false, "VersaLog", true, false, false, vec![], false);
    assert!(logger.has_writer());
    let r = logger.Error("info", &[]);
    assert!(!r.caller.is_empty());
    assert_eq!(r.plain, format!("[{}][VersaLog][-] info", r.caller));
    assert!(matches!(r.save, SaveRoute::Queue));
    assert_eq!(r.notice.unwrap().summary, "ERROR Log notice");
}

#[test]
fn simple_constructors() {
    let a = NewVersaLogSimple("simple", "Tag");
    assert_eq!(a.Info("x", &[]).plain, "[+] x");
    assert!(!a.has_writer());
    let b = NewVersaLogSimple2("simple", "Tag", true);
    assert!(b.has_writer());
    let r = b.Info("x", &[]);
    assert_eq!(r.plain, format!("[{}][Tag][+] x", r.caller));
    let c = NewVersaLogSimple2("simple", "Tag", false);
    assert_eq!(c.Info("x", &[]).plain, "[+] x");
}

#[test]
fn silence_stops_printing_only() {
    let mut logger = plain_logger("simple");
    assert!(!logger.is_silent());
    let before = logger.Info("x", &[]);
    logger.set_silent(true);
    assert!(logger.is_silent());
    let after = logger.Info("x", &[]);
    assert!(before.print);
    assert!(!after.print);
    assert_eq!(before.output, after.output);
    assert_eq!(before.plain, after.plain);
    logger.set_silent(false);
    assert!(logger.Info("x", &[]).print);
}

#[test]
fn exception_report() {
    assert_eq!(
        exception_message("ValueError", "bad", "line 1"),
        "Unhandled exception:\nException Type: ValueError\nException Value: bad\nTraceback:\nline 1"
    );
    let logger = plain_logger("simple");
    let r = logger.handle_exception("ValueError", "bad", "line 1");
    assert_eq!(r.level, "CRITICAL");
    assert_eq!(
        r.plain,
        "[C] Unhandled exception:\nException Type: ValueError\nException Value: bad\nTraceback:\nline 1"
    );
}

#[test]
fn panic_report() {
    assert_eq!(
        panic_message("oops", Some(("main.rs".to_string(), 12, 5)), "TRACE"),
        "Unhandled panic: oops\nat main.rs:12:5\nTRACE"
    );
    assert_eq!(panic_message("oops", None, ""), "Unhandled panic: oops\n");
    let logger = plain_logger("simple");
    let r = logger.report_panic("oops", None);
    assert_eq!(r.level, "CRITICAL");
    assert!(r.plain.starts_with("[C] Unhandled panic: oops\n"));
}

#[test]
fn call_place_text() {
    assert_eq!(format_place(Some(("lib.rs".to_string(), 42))), "lib.rs:42");
    assert_eq!(format_place(Some(("a.rs".to_string(), 0))), "a.rs:0");
    assert_eq!(format_place(None), "unknown:0");
}

#[test]
fn mode_and_level_checks() {
    for m in ["simple", "simple2", "detailed", "file"] {
        assert!(is_valid_mode_text(m));
    }
    assert!(!is_valid_mode_text("Simple"));
    assert!(!is_valid_mode_text("verbose"));
    assert!(!is_valid_mode_text(""));
    assert!(is_standard_level_text("CRITICAL"));
    assert!(!is_standard_level_text("info"));
    assert!(all_standard_levels(&vec!["INFO".to_string(), "DEBUG".to_string()]));
    assert!(all_standard_levels(&vec![]));
    assert!(!all_standard_levels(&vec!["INFO".to_string(), "TRACE".to_string()]));
}

#[test]
fn colored_line_is_saved_line_with_color() {
    let logger = NewVersaLog("simple2", true, false, "T", false, false, false, vec![], false);
    let (out, plain) = logger.render("msg", "DEBUG", "tag", "ts", "f.rs:1");
    assert_eq!(out.replace(CYAN, "").replace(RESET, ""), plain);
    let (out, plain) = plain_logger("simple").render("msg", "INFO", "tag", "ts", "f.rs:1");
    assert_eq!(out.replace(GREEN, "").replace(RESET, ""), plain);
}

#[test]
fn lines_end_with_the_message() {
    for mode in ["simple", "simple2", "detailed", "file"] {
        let logger = NewVersaLog(mode, true, true, "T", false, false, false, vec![], false);
        let (out, plain) = logger.render("the end", "INFO", "g", "ts", "c.rs:2");
        assert!(out.ends_with("the end"));
        assert!(plain.ends_with("the end"));
    }
}

#[test]
fn retention_is_a_week() {
    assert_eq!(LOG_RETENTION_DAYS, 7);
}

#[test]
fn simple2_time_has_timestamp_shape() {
    let logger = NewVersaLog("simple2", true, false, "T", false, false, false, vec![], false);
    let r = logger.Error("x", &[]);
    assert_eq!(r.timestamp.len(), 19);
    assert!(chrono::NaiveDateTime::parse_from_str(&r.timestamp, "%Y-%m-%d %H:%M:%S").is_ok());
    assert_eq!(r.plain, format!("[{}] [{}][-] x", r.timestamp, r.caller));
}

#[test]
fn place_from_call_stack() {
    let frames = vec![
        vec![(Some("outside.rs".to_string()), Some(3))],
        vec![],
        vec![(Some("main.rs".to_string()), None)],
        vec![(None, Some(9))],
        vec![(Some("user.rs".to_string()), Some(42)), (Some("other.rs".to_string()), Some(1))],
    ];
    assert_eq!(caller_place(&frames, 0), "outside.rs:3");
    assert_eq!(caller_place(&frames, 1), "unknown:0");
    assert_eq!(caller_place(&frames, 2), "unknown:0");
    assert_eq!(caller_place(&frames, 3), "unknown:0");
    assert_eq!(caller_place(&frames, 4), "user.rs:42");
    assert_eq!(caller_place(&frames, 5), "unknown:0");
}
