//! Building the text of report lines: decimal and hexadecimal numbers and
//! the lines themselves.
use vstd::prelude::*;
use vstd::string::StringExecFns;
use crate::decimal::decimal_text;
use crate::hexcodec::hex_char;

verus! {

/// The level at which a report line is logged.
#[derive(Debug, Clone, Copy, PartialEq, Eq, Structural)]
pub enum LogLevel {
    Info,
    Warn,
}

/// One line of a report, with the level at which it is logged.
#[derive(Debug)]
pub struct LogLine {
    pub level: LogLevel,
    pub text: String,
}

impl LogLine {
    pub open spec fn view(&self) -> (LogLevel, Seq<char>) {
        (self.level, self.text@)
    }
}

/// The levels and texts of a sequence of lines.
pub open spec fn lines_view(lines: Seq<LogLine>) -> Seq<(LogLevel, Seq<char>)> {
    lines.map_values(|l: LogLine| l.view())
}

/// Appends `c` to `text` with `String::push`.
#[verifier::external_body]
pub(crate) fn push_char(text: &mut String, c: char)
    ensures
        final(text)@ == old(text)@.push(c),
{
    text.push(c);
}

/// Appends the decimal text of `n` to `text`.
pub fn push_decimal(text: &mut String, n: u128)
    ensures
        final(text)@ == old(text)@ + decimal_text(n as nat),
    decreases n,
{
    if n >= 10 {
        push_decimal(text, n / 10);
    }
    let digit = (n % 10) as u32 + 48;
    let c = char_of_ascii(digit);
    push_char(text, c);
    assert(final(text)@ =~= old(text)@ + decimal_text(n as nat));
}

/// The character with an ASCII code below 128.
fn char_of_ascii(code: u32) -> (c: char)
    requires
        code < 128,
    ensures
        c as u32 == code,
{
    let b = code as u8;
    b as char
}

/// The decimal text of `n`.
pub fn decimal_string(n: u128) -> (text: String)
    ensures
        text@ == decimal_text(n as nat),
{
    let mut text = String::new();
    push_decimal(&mut text, n);
    assert(text@ =~= decimal_text(n as nat));
    text
}

/// 16 raised to the power `n`.
pub open spec fn pow16(n: nat) -> nat
    decreases n,
{
    if n == 0 {
        1
    } else {
        16 * pow16((n - 1) as nat)
    }
}

/// The `width` lowest hexadecimal digits of `v`, lower case, most
/// significant first (zero-padded, as `{:0width$x}` writes a number below
/// `16^width`).
pub open spec fn hex_padded(v: nat, width: nat) -> Seq<char>
    decreases width,
{
    if width == 0 {
        Seq::empty()
    } else {
        hex_padded(v / 16, (width - 1) as nat).push(hex_char(v % 16))
    }
}

/// Appends the `width` lowest hexadecimal digits of `v` to `text`.
pub fn push_hex_padded(text: &mut String, v: u128, width: usize)
    ensures
        final(text)@ == old(text)@ + hex_padded(v as nat, width as nat),
    decreases width,
{
    if width > 0 {
        push_hex_padded(text, v / 16, width - 1);
        let d = (v % 16) as u32;
        let c = if d < 10 {
            char_of_ascii(d + 48)
        } else {
            char_of_ascii(d - 10 + 97)
        };
        push_char(text, c);
    }
    assert(final(text)@ =~= old(text)@ + hex_padded(v as nat, width as nat));
}

/// The short form of an account id: `0x`, its top 32 bits in eight
/// hexadecimal digits, `...`, and its low 32 bits in eight digits.
pub open spec fn account_short_text(account: u128) -> Seq<char> {
    "0x"@ + hex_padded(account as nat / 0x1_0000_0000_0000_0000_0000_0000, 8) + "..."@
        + hex_padded(account as nat % 0x1_0000_0000, 8)
}

/// Writes an account id in short form, as `0x{:08x}...{:08x}` of its top
/// and low 32 bits.
pub fn format_account_short(account: u128) -> (text: String)
    ensures
        text@ == account_short_text(account),
{
    let mut text = String::from_str("0x");
    push_hex_padded(&mut text, account / 0x1_0000_0000_0000_0000_0000_0000, 8);
    text.append("...");
    push_hex_padded(&mut text, account % 0x1_0000_0000, 8);
    text
}

/// A line holding `text`.
pub fn line_of(level: LogLevel, text: &str) -> (line: LogLine)
    ensures
        line.view() == (level, text@),
{
    LogLine { level, text: String::from_str(text) }
}

/// A line holding `prefix` followed by the decimal text of `n` and `suffix`.
pub fn number_line(level: LogLevel, prefix: &str, n: u128, suffix: &str) -> (line: LogLine)
    ensures
        line.view() == (level, prefix@ + decimal_text(n as nat) + suffix@),
{
    let mut text = String::from_str(prefix);
    push_decimal(&mut text, n);
    text.append(suffix);
    LogLine { level, text }
}

/// A line holding `prefix` followed by `rest`.
pub fn joined_line(level: LogLevel, prefix: &str, rest: &str) -> (line: LogLine)
    ensures
        line.view() == (level, prefix@ + rest@),
{
    let mut text = String::from_str(prefix);
    text.append(rest);
    LogLine { level, text }
}

/// Appends `line` to `lines`.
pub fn push_line(lines: &mut Vec<LogLine>, line: LogLine)
    ensures
        lines_view(final(lines)@) == lines_view(old(lines)@).push(line.view()),
{
    let ghost v = line.view();
    lines.push(line);
    assert(lines_view(lines@) =~= lines_view(old(lines)@).push(v));
}

/// An info line.
pub open spec fn info(text: Seq<char>) -> (LogLevel, Seq<char>) {
    (LogLevel::Info, text)
}

/// A warning line.
pub open spec fn warn(text: Seq<char>) -> (LogLevel, Seq<char>) {
    (LogLevel::Warn, text)
}

/// Whether `text` holds the character `c` at position `i`.
pub open spec fn char_at(text: Seq<char>, i: int, c: char) -> bool {
    0 <= i < text.len() && text[i] == c
}

/// The lines of a report made of two parts hold a line exactly when one of
/// the parts holds it.
pub proof fn lemma_lines_contains_concat(
    a: Seq<(LogLevel, Seq<char>)>,
    b: Seq<(LogLevel, Seq<char>)>,
    x: (LogLevel, Seq<char>),
)
    ensures
        (a + b).contains(x) <==> a.contains(x) || b.contains(x),
{
    if (a + b).contains(x) {
        let i = choose|i: int| 0 <= i < (a + b).len() && (a + b)[i] == x;
        if i < a.len() {
            assert(a[i] == x);
        } else {
            assert(b[i - a.len()] == x);
        }
    }
    if a.contains(x) {
        let i = choose|i: int| 0 <= i < a.len() && a[i] == x;
        assert((a + b)[i] == x);
    }
    if b.contains(x) {
        let i = choose|i: int| 0 <= i < b.len() && b[i] == x;
        assert((a + b)[i + a.len()] == x);
    }
}

/// No line of `lines` has the property `p`, so a line that has it is not
/// among them.
pub proof fn lemma_line_absent(
    lines: Seq<(LogLevel, Seq<char>)>,
    p: spec_fn((LogLevel, Seq<char>)) -> bool,
    x: (LogLevel, Seq<char>),
)
    requires
        forall|j: int| 0 <= j < lines.len() ==> !p(#[trigger] lines[j]),
        p(x),
    ensures
        !lines.contains(x),
{
    if lines.contains(x) {
        let i = choose|i: int| 0 <= i < lines.len() && lines[i] == x;
        assert(!p(lines[i]));
    }
}

} // verus!
