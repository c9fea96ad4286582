use vstd::prelude::*;
use vstd::string::StrSliceExecFns;
use vstd::string::StringExecFns;

verus! {

/// Exit status of the process after the generated program signals a panic.
pub const PANIC_EXIT_CODE: i32 = 1;

/// The banner printed before the text of a panic message.
pub open spec fn panic_banner() -> Seq<char> {
    seq!['R', 'o', 'c', ' ', 'h', 'i', 't', ' ', 'a', ' ', 'p', 'a', 'n', 'i', 'c', ':', ' ']
}

/// The text that `write-line` sends to standard output.
pub fn line_output(text: &str) -> (r: String)
    ensures
        r@ == text@.push('\n'),
{
    let mut out = String::from_str(text);
    proof {
        reveal_strlit("\n");
    }
    out.append("\n");
    out
}

/// What a line of input means once its terminator is removed.
pub open spec fn line_content(raw: Seq<char>) -> Seq<char> {
    if raw.len() > 0 && raw.last() == '\n' {
        let t = raw.drop_last();
        if t.len() > 0 && t.last() == '\r' {
            t.drop_last()
        } else {
            t
        }
    } else {
        raw
    }
}

/// Turns what one read of standard input produced into the line handed to
/// `read-line`: `None` when the input was already exhausted (nothing was
/// read), otherwise the text without its `\n` or `\r\n` terminator.
pub fn take_line(raw: &str) -> (r: Option<String>)
    ensures
        raw@.len() == 0 ==> r.is_none(),
        raw@.len() > 0 ==> r.is_some() && r.unwrap()@ == line_content(raw@),
{
    let n = raw.unicode_len();
    if n == 0 {
        return None;
    }
    let mut end: usize = n;
    if raw.get_char(end - 1) == '\n' {
        end = end - 1;
        if end > 0 && raw.get_char(end - 1) == '\r' {
            end = end - 1;
        }
    }
    let line = raw.substring_char(0, end);
    let r = String::from_str(line);
    assert(r@ =~= line_content(raw@));
    Some(r)
}

/// The report written to the error stream for a panic with the given tag:
/// for tag 0 the banner followed by the message; for any other tag `None`,
/// as no other kind of panic is defined.
pub fn panic_report(tag: u32, message: &str) -> (r: Option<String>)
    ensures
        tag == 0 ==> r.is_some() && r.unwrap()@ == panic_banner() + message@,
        tag != 0 ==> r.is_none(),
{
    if tag != 0 {
        return None;
    }
    let mut out = String::from_str("Roc hit a panic: ");
    proof {
        reveal_strlit("Roc hit a panic: ");
    }
    assert(out@ =~= panic_banner());
    out.append(message);
    Some(out)
}

} // verus!
