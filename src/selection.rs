use vstd::prelude::*;
use vstd::string::*;

verus! {

/// Whether the character at (`line`, `col`) of the console is highlighted.
/// Nothing is highlighted unless both endpoints are set; the start and end
/// are taken as given, so after an upward drag no line lies between them.
pub open spec fn in_selection(
    start: Option<(usize, usize)>,
    end: Option<(usize, usize)>,
    line: int,
    col: int,
) -> bool {
    match (start, end) {
        (Some((sl, sc)), Some((el, ec))) => {
            ||| (line == sl && col >= sc)
            ||| (line == el && col <= ec)
            ||| (sl < line < el)
        },
        _ => false,
    }
}

/// Executable form of `in_selection`.
pub fn is_selected(
    start: Option<(usize, usize)>,
    end: Option<(usize, usize)>,
    line: usize,
    col: usize,
) -> (r: bool)
    ensures
        r == in_selection(start, end, line as int, col as int),
{
    match (start, end) {
        (Some((sl, sc)), Some((el, ec))) => (line == sl && col >= sc) || (line == el && col <= ec)
            || (sl < line && line < el),
        _ => false,
    }
}

/// One flag per character of `message`, shown as line `line` of the console:
/// whether that character is drawn highlighted.
pub fn highlight_line(
    start: Option<(usize, usize)>,
    end: Option<(usize, usize)>,
    line: usize,
    message: &str,
) -> (r: Vec<bool>)
    ensures
        r@.len() == message@.len(),
        forall|i: int|
            0 <= i < r@.len() ==> #[trigger] r@[i] == in_selection(start, end, line as int, i),
{
    let n = message.unicode_len();
    let mut flags: Vec<bool> = Vec::new();
    let mut i: usize = 0;
    while i < n
        invariant
            i <= n,
            n == message@.len(),
            flags@.len() == i,
            forall|j: int|
                0 <= j < i ==> #[trigger] flags@[j] == in_selection(start, end, line as int, j),
        decreases n - i,
    {
        flags.push(is_selected(start, end, line, i));
        i = i + 1;
    }
    flags
}

} // verus!
