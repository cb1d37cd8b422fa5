//! The fixed vocabulary of the logger: its modes, its five levels, and the
//! colour code and symbol that each level is shown with.
use vstd::prelude::*;

verus! {

/// `INFO`
pub open spec fn info_level() -> Seq<char> {
    seq!['I', 'N', 'F', 'O']
}

/// `ERROR`
pub open spec fn error_level() -> Seq<char> {
    seq!['E', 'R', 'R', 'O', 'R']
}

/// `WARNING`
pub open spec fn warning_level() -> Seq<char> {
    seq!['W', 'A', 'R', 'N', 'I', 'N', 'G']
}

/// `DEBUG`
pub open spec fn debug_level() -> Seq<char> {
    seq!['D', 'E', 'B', 'U', 'G']
}

/// `CRITICAL`
pub open spec fn critical_level() -> Seq<char> {
    seq!['C', 'R', 'I', 'T', 'I', 'C', 'A', 'L']
}

/// The levels that may be saved, in the order a logger lists them when it
/// is told to save without being given a list.
pub open spec fn standard_levels() -> Seq<Seq<char>> {
    seq![info_level(), error_level(), warning_level(), debug_level(), critical_level()]
}

/// One of the five standard levels.
pub open spec fn is_standard_level(level: Seq<char>) -> bool {
    standard_levels().contains(level)
}

/// `simple`
pub open spec fn simple_mode() -> Seq<char> {
    seq!['s', 'i', 'm', 'p', 'l', 'e']
}

/// `simple2`
pub open spec fn simple2_mode() -> Seq<char> {
    seq!['s', 'i', 'm', 'p', 'l', 'e', '2']
}

/// `detailed`
pub open spec fn detailed_mode() -> Seq<char> {
    seq!['d', 'e', 't', 'a', 'i', 'l', 'e', 'd']
}

/// `file`
pub open spec fn file_mode() -> Seq<char> {
    seq!['f', 'i', 'l', 'e']
}

/// One of the four modes a logger can be made with (spelt exactly so).
pub open spec fn is_valid_mode(mode: Seq<char>) -> bool {
    mode == simple_mode() || mode == simple2_mode() || mode == detailed_mode() || mode
        == file_mode()
}

/// The terminal code that ends a coloured stretch: ESC `[0m`.
pub open spec fn reset_code() -> Seq<char> {
    seq!['\x1b', '[', '0', 'm']
}

/// ESC `[3` `d` `m`: the terminal code for foreground colour `d`.
pub open spec fn fg_code(d: char) -> Seq<char> {
    seq!['\x1b', '[', '3', d, 'm']
}

/// The colour a level is shown in: green, red, yellow, cyan, magenta for the
/// five standard levels, nothing for any other text.
pub open spec fn color_of(level: Seq<char>) -> Seq<char> {
    if level == info_level() {
        fg_code('2')
    } else if level == error_level() {
        fg_code('1')
    } else if level == warning_level() {
        fg_code('3')
    } else if level == debug_level() {
        fg_code('6')
    } else if level == critical_level() {
        fg_code('5')
    } else {
        Seq::empty()
    }
}

/// The symbol a level is marked with: `[+]`, `[-]`, `[!]`, `[D]`, `[C]` for the
/// five standard levels, nothing for any other text.
pub open spec fn symbol_of(level: Seq<char>) -> Seq<char> {
    if level == info_level() {
        seq!['[', '+', ']']
    } else if level == error_level() {
        seq!['[', '-', ']']
    } else if level == warning_level() {
        seq!['[', '!', ']']
    } else if level == debug_level() {
        seq!['[', 'D', ']']
    } else if level == critical_level() {
        seq!['[', 'C', ']']
    } else {
        Seq::empty()
    }
}

/// The ASCII upper-case form of a character: `a`..`z` become `A`..`Z`,
/// every other character stays.
pub open spec fn ascii_upper_char(c: char) -> char {
    if 'a' <= c <= 'z' {
        ((c as int) - 32) as char
    } else {
        c
    }
}

/// Every character of `s` in ASCII upper case.
pub open spec fn ascii_upper(s: Seq<char>) -> Seq<char> {
    Seq::new(s.len(), |i: int| ascii_upper_char(s[i]))
}

/// The text `INFO`.
pub fn info_text() -> (r: String)
    ensures
        r@ == info_level(),
{
    let r = String::from_str("INFO");
    proof {
        reveal_strlit("INFO");
    }
    assert(r@ =~= info_level());
    r
}

/// The text `ERROR`.
pub fn error_text() -> (r: String)
    ensures
        r@ == error_level(),
{
    let r = String::from_str("ERROR");
    proof {
        reveal_strlit("ERROR");
    }
    assert(r@ =~= error_level());
    r
}

/// The text `WARNING`.
pub fn warning_text() -> (r: String)
    ensures
        r@ == warning_level(),
{
    let r = String::from_str("WARNING");
    proof {
        reveal_strlit("WARNING");
    }
    assert(r@ =~= warning_level());
    r
}

/// The text `DEBUG`.
pub fn debug_text() -> (r: String)
    ensures
        r@ == debug_level(),
{
    let r = String::from_str("DEBUG");
    proof {
        reveal_strlit("DEBUG");
    }
    assert(r@ =~= debug_level());
    r
}

/// The text `CRITICAL`.
pub fn critical_text() -> (r: String)
    ensures
        r@ == critical_level(),
{
    let r = String::from_str("CRITICAL");
    proof {
        reveal_strlit("CRITICAL");
    }
    assert(r@ =~= critical_level());
    r
}

/// The five standard levels as a list.
pub fn standard_level_list() -> (r: Vec<String>)
    ensures
        r@.map_values(|s: String| s@) == standard_levels(),
{
    let mut r: Vec<String> = Vec::new();
    r.push(info_text());
    r.push(error_text());
    r.push(warning_text());
    r.push(debug_text());
    r.push(critical_text());
    assert(r@.map_values(|s: String| s@) =~= standard_levels());
    r
}

/// Whether `level` is one of the five standard levels (spelt exactly so).
pub fn is_standard_level_text(level: &str) -> (r: bool)
    ensures
        r == is_standard_level(level@),
{
    let l = String::from_str(level);
    let r = l == info_text() || l == error_text() || l == warning_text() || l == debug_text()
        || l == critical_text();
    proof {
        let s = standard_levels();
        assert(s[0] == info_level());
        assert(s[1] == error_level());
        assert(s[2] == warning_level());
        assert(s[3] == debug_level());
        assert(s[4] == critical_level());
        if is_standard_level(level@) {
            let k = choose|k: int| 0 <= k < s.len() && s[k] == level@;
            assert(0 <= k < 5);
        }
    }
    r
}

/// The text `simple`.
pub fn simple_text() -> (r: String)
    ensures
        r@ == simple_mode(),
{
    let r = String::from_str("simple");
    proof {
        reveal_strlit("simple");
    }
    assert(r@ =~= simple_mode());
    r
}

/// The text `simple2`.
pub fn simple2_text() -> (r: String)
    ensures
        r@ == simple2_mode(),
{
    let r = String::from_str("simple2");
    proof {
        reveal_strlit("simple2");
    }
    assert(r@ =~= simple2_mode());
    r
}

/// The text `detailed`.
pub fn detailed_text() -> (r: String)
    ensures
        r@ == detailed_mode(),
{
    let r = String::from_str("detailed");
    proof {
        reveal_strlit("detailed");
    }
    assert(r@ =~= detailed_mode());
    r
}

/// The text `file`.
pub fn file_text() -> (r: String)
    ensures
        r@ == file_mode(),
{
    let r = String::from_str("file");
    proof {
        reveal_strlit("file");
    }
    assert(r@ =~= file_mode());
    r
}

/// Whether `mode` is one of the four modes (spelt exactly so).
pub fn is_valid_mode_text(mode: &str) -> (r: bool)
    ensures
        r == is_valid_mode(mode@),
{
    let m = String::from_str(mode);
    m == simple_text() || m == simple2_text() || m == detailed_text() || m == file_text()
}

/// The text of `c`.
fn text_of(c: &str) -> (r: String)
    ensures
        r@ == c@,
{
    String::from_str(c)
}

/// The colour code for `level`.
pub fn color_text(level: &str) -> (r: String)
    ensures
        r@ == color_of(level@),
{
    let l = String::from_str(level);
    if l == info_text() {
        let r = text_of("\x1b[32m");
        proof {
            reveal_strlit("\x1b[32m");
        }
        assert(r@ =~= fg_code('2'));
        r
    } else if l == error_text() {
        let r = text_of("\x1b[31m");
        proof {
            reveal_strlit("\x1b[31m");
        }
        assert(r@ =~= fg_code('1'));
        r
    } else if l == warning_text() {
        let r = text_of("\x1b[33m");
        proof {
            reveal_strlit("\x1b[33m");
        }
        assert(r@ =~= fg_code('3'));
        r
    } else if l == debug_text() {
        let r = text_of("\x1b[36m");
        proof {
            reveal_strlit("\x1b[36m");
        }
        assert(r@ =~= fg_code('6'));
        r
    } else if l == critical_text() {
        let r = text_of("\x1b[35m");
        proof {
            reveal_strlit("\x1b[35m");
        }
        assert(r@ =~= fg_code('5'));
        r
    } else {
        String::new()
    }
}

/// The symbol for `level`.
pub fn symbol_text(level: &str) -> (r: String)
    ensures
        r@ == symbol_of(level@),
{
    let l = String::from_str(level);
    if l == info_text() {
        let r = text_of("[+]");
        proof {
            reveal_strlit("[+]");
        }
        assert(r@ =~= seq!['[', '+', ']']);
        r
    } else if l == error_text() {
        let r = text_of("[-]");
        proof {
            reveal_strlit("[-]");
        }
        assert(r@ =~= seq!['[', '-', ']']);
        r
    } else if l == warning_text() {
        let r = text_of("[!]");
        proof {
            reveal_strlit("[!]");
        }
        assert(r@ =~= seq!['[', '!', ']']);
        r
    } else if l == debug_text() {
        let r = text_of("[D]");
        proof {
            reveal_strlit("[D]");
        }
        assert(r@ =~= seq!['[', 'D', ']']);
        r
    } else if l == critical_text() {
        let r = text_of("[C]");
        proof {
            reveal_strlit("[C]");
        }
        assert(r@ =~= seq!['[', 'C', ']']);
        r
    } else {
        String::new()
    }
}

/// The code that ends a coloured stretch.
pub fn reset_text() -> (r: String)
    ensures
        r@ == reset_code(),
{
    let r = text_of("\x1b[0m");
    proof {
        reveal_strlit("\x1b[0m");
    }
    assert(r@ =~= reset_code());
    r
}

} // verus!
