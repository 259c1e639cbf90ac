//! Layout of the info panel on the terminal.

use vstd::prelude::*;

use ratatui::layout::Rect;
use vstd::string::StrSliceExecFns;

verus! {

#[verifier::external_type_specification]
pub struct ExRect(Rect);

/// Relies on ratatui's `Rect::new`: it keeps `x` and `y` and clamps the width
/// and height so that the right and bottom edges stay within `u16`.
pub assume_specification[ Rect::new ](x: u16, y: u16, width: u16, height: u16) -> (r: Rect)
    ensures
        r.x == x,
        r.y == y,
        r.width == if width > u16::MAX - x { (u16::MAX - x) as u16 } else { width },
        r.height == if height > u16::MAX - y { (u16::MAX - y) as u16 } else { height },
;

/// The offset that centres a length within another, zero when it does not fit.
pub open spec fn centred_offset(outer: u16, inner: u16) -> u16 {
    if outer > inner {
        ((outer - inner) / 2) as u16
    } else {
        0
    }
}

/// A rectangle of the given size, centred in `area`'s width and height, with
/// its origin at the top left of the terminal. Sizes are taken modulo 2^16.
pub fn centered_area(width: usize, height: usize, area: Rect) -> (r: Rect)
    ensures
        r.x == centred_offset(area.width, width as u16),
        r.y == centred_offset(area.height, height as u16),
        r.width == (width as u16),
        r.height == (height as u16),
{
    let x = area.width.saturating_sub(width as u16) / 2;
    let y = area.height.saturating_sub(height as u16) / 2;
    Rect::new(x, y, width as u16, height as u16)
}

/// Scans a text as `str::lines` splits it, at "\n" or "\r\n": the lines
/// ended so far, the longest of them in characters, the length of the line
/// being read, and whether that line ends with '\r' so far.
pub open spec fn scan_lines(s: Seq<char>) -> (nat, nat, nat, bool)
    decreases s.len(),
{
    if s.len() == 0 {
        (0, 0, 0, false)
    } else {
        let (count, longest, cur, cr) = scan_lines(s.drop_last());
        if s.last() == '\n' {
            let line: nat = if cr { (cur - 1) as nat } else { cur };
            (count + 1, if line > longest { line } else { longest }, 0, false)
        } else {
            (count, longest, cur + 1, s.last() == '\r')
        }
    }
}

/// The number of lines of a text and the length of its longest line; the
/// last line needs no line ending, and an empty text has no line.
pub open spec fn line_stats(s: Seq<char>) -> (nat, nat) {
    let (count, longest, cur, _) = scan_lines(s);
    if cur > 0 {
        (count + 1, if cur > longest { cur } else { longest })
    } else {
        (count, longest)
    }
}

proof fn lemma_scan_bounds(s: Seq<char>)
    ensures
        scan_lines(s).0 <= s.len(),
        scan_lines(s).1 <= s.len(),
        scan_lines(s).2 <= s.len(),
        scan_lines(s).0 + scan_lines(s).2 <= s.len(),
        scan_lines(s).3 ==> scan_lines(s).2 > 0,
    decreases s.len(),
{
    if s.len() > 0 {
        lemma_scan_bounds(s.drop_last());
    }
}

pub fn text_lines(text: &str) -> (r: (usize, usize))
    ensures
        r.0 as nat == line_stats(text@).0,
        r.1 as nat == line_stats(text@).1,
{
    let n = text.unicode_len();
    let mut count: usize = 0;
    let mut longest: usize = 0;
    let mut cur: usize = 0;
    let mut cr = false;
    let mut i: usize = 0;
    while i < n
        invariant
            n == text@.len(),
            i <= n,
            (count as nat, longest as nat, cur as nat, cr) == scan_lines(text@.subrange(0, i as int)),
        decreases n - i,
    {
        proof {
            lemma_scan_bounds(text@.subrange(0, i as int));
        }
        let c = text.get_char(i);
        if c == '\n' {
            let line = if cr { cur - 1 } else { cur };
            if line > longest {
                longest = line;
            }
            count = count + 1;
            cur = 0;
            cr = false;
        } else {
            cur = cur + 1;
            cr = c == '\r';
        }
        assert(text@.subrange(0, i + 1).drop_last() =~= text@.subrange(0, i as int));
        i = i + 1;
    }
    assert(text@.subrange(0, n as int) =~= text@);
    proof {
        lemma_scan_bounds(text@);
    }
    if cur > 0 {
        (count + 1, if cur > longest { cur } else { longest })
    } else {
        (count, longest)
    }
}

/// The info panel is at least this wide when the terminal allows.
pub const INFO_MIN_WIDTH: u16 = 50;

/// Width and height of the info panel for a text: as wide as its longest
/// line and at least [`INFO_MIN_WIDTH`], as high as its lines plus a border,
/// and at most the area less a border. Lengths are taken modulo 2^16.
pub open spec fn info_size(text: Seq<char>, area: Rect) -> (u16, u16) {
    let (count, longest) = line_stats(text);
    let max_width: u16 = if area.width > 2 { (area.width - 2) as u16 } else { 0 };
    let max_height: u16 = if area.height > 2 { (area.height - 2) as u16 } else { 0 };
    let wanted: u16 = if (longest as u16) > INFO_MIN_WIDTH { longest as u16 } else { INFO_MIN_WIDTH };
    let high: u16 = (count as u16).wrapping_add(2);
    (
        if max_width < wanted { max_width } else { wanted },
        if max_height < high { max_height } else { high },
    )
}

/// Where the info panel for `text` stands within `area`: centred, sized by
/// [`info_size`].
pub fn info_area(text: &str, area: Rect) -> (r: Rect)
    ensures
        r.width == info_size(text@, area).0,
        r.height == info_size(text@, area).1,
        r.x == centred_offset(area.width, r.width),
        r.y == centred_offset(area.height, r.height),
{
    let (count, longest) = text_lines(text);
    let max_width = area.width.saturating_sub(2);
    let max_height = area.height.saturating_sub(2);
    let wanted = if (longest as u16) > INFO_MIN_WIDTH { longest as u16 } else { INFO_MIN_WIDTH };
    let high = (count as u16).wrapping_add(2);
    let width = if max_width < wanted { max_width } else { wanted };
    let height = if max_height < high { max_height } else { high };
    centered_area(width as usize, height as usize, area)
}

} // verus!
