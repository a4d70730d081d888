//! The two-line character display: how the host pads a line for the wire,
//! how the keypad controller takes it back, and how a line that is longer
//! than the row is scrolled.
//!
//! The text of a line is kept in a fixed-capacity string of the `fixedstr`
//! crate, which holds at most 31 bytes. Lines are ASCII; a line with any
//! other byte is shown as `Invalid ASCII`.

use vstd::prelude::*;

verus! {

/// The characters of one row of the display.
pub const LCD_ROW_LENGTH: usize = 16;

/// The bytes of a line on the wire.
pub const LINE_BYTES: usize = 32;

/// The most bytes that the text of a line can hold.
pub const TEXT_CAPACITY: usize = 31;

/// The time between two steps of the display, in milliseconds.
pub const DISPLAY_STEP_MS: u32 = 250;

/// The text of a display line: a `fixedstr::str32`.
#[verifier::external_body]
pub struct LineText {
    inner: fixedstr::str32,
}

/// The bytes that a text holds.
pub uninterp spec fn line_bytes(text: LineText) -> Seq<u8>;

/// Whether every byte is ASCII.
pub open spec fn is_ascii_bytes(bytes: Seq<u8>) -> bool {
    forall|i: int| 0 <= i < bytes.len() ==> (#[trigger] bytes[i]) < 128
}

/// The first `TEXT_CAPACITY` bytes.
pub open spec fn capped(bytes: Seq<u8>) -> Seq<u8> {
    if bytes.len() <= TEXT_CAPACITY {
        bytes
    } else {
        bytes.take(TEXT_CAPACITY as int)
    }
}

/// `fixedstr::str32::from`, on the string that the ASCII bytes spell: the
/// text holds the bytes, cut to the 31 that it has room for.
#[verifier::external_body]
fn line_make(bytes: &Vec<u8>) -> (text: LineText)
    requires
        is_ascii_bytes(bytes@),
    ensures
        line_bytes(text) == capped(bytes@),
{
    LineText { inner: fixedstr::str32::from(core::str::from_utf8(bytes).unwrap_or("")) }
}

/// `len` of `fixedstr::str32`: the number of bytes that the text holds.
#[verifier::external_body]
fn line_len(text: &LineText) -> (len: usize)
    ensures
        len == line_bytes(*text).len(),
{
    text.inner.len()
}

/// `as_bytes` of `fixedstr::str32`: the bytes that the text holds.
#[verifier::external_body]
fn line_text(text: &LineText) -> (bytes: Vec<u8>)
    ensures
        bytes@ == line_bytes(*text),
{
    text.inner.as_bytes().to_vec()
}

/// Whether a byte is white space: tab, line feed, vertical tab, form feed,
/// carriage return, or blank.
pub open spec fn is_space(byte: u8) -> bool {
    (0x09 <= byte <= 0x0D) || byte == 0x20
}

/// The bytes without the white space at their end.
pub open spec fn trim_end(bytes: Seq<u8>) -> Seq<u8>
    decreases bytes.len(),
{
    if bytes.len() == 0 || !is_space(bytes.last()) {
        bytes
    } else {
        trim_end(bytes.drop_last())
    }
}

/// The message for a line that is not ASCII.
pub open spec fn invalid_message() -> Seq<u8> {
    seq![
        0x49u8, 0x6E, 0x76, 0x61, 0x6C, 0x69, 0x64, 0x20, 0x41, 0x53, 0x43, 0x49, 0x49,
    ]
}

/// What a line of the wire says: its bytes without the padding at the end,
/// or the message for a line that is not ASCII.
pub open spec fn line_content(line: Seq<u8>) -> Seq<u8> {
    if is_ascii_bytes(line) {
        trim_end(line)
    } else {
        invalid_message()
    }
}

/// A line as the host sends it: the first 32 bytes of the text, padded with
/// blanks to 32.
pub open spec fn padded(text: Seq<u8>) -> Seq<u8> {
    Seq::new(
        LINE_BYTES as nat,
        |i: int|
            if i < text.len() {
                text[i]
            } else {
                0x20u8
            },
    )
}

/// A number in decimal digits.
pub open spec fn decimal(n: nat) -> Seq<u8>
    decreases n,
{
    if n < 10 {
        seq![(0x30 + n) as u8]
    } else {
        decimal(n / 10).push((0x30 + n % 10) as u8)
    }
}

/// An amount of pence as pounds, a point, and two digits of pence.
pub open spec fn price_text(pence: u16) -> Seq<u8> {
    decimal((pence / 100) as nat) + seq![0x2Eu8, (0x30 + pence % 100 / 10) as u8, (0x30 + pence % 10) as u8]
}

/// One line of the display.
pub struct DisplayLine {
    text: LineText,
    changed: bool,
    scrolling: bool,
    scroll_index: usize,
}

/// A line of the display as a value of the logic.
pub ghost struct DisplayLineModel {
    pub text: Seq<u8>,
    /// The line has new text that the display does not show yet.
    pub changed: bool,
    /// The text is longer than the row and moves through it.
    pub scrolling: bool,
    /// The byte of the text that stands at the left of the row.
    pub scroll_index: usize,
}

/// The line after new text has come in for it.
pub open spec fn line_set(line: Seq<u8>) -> DisplayLineModel {
    DisplayLineModel {
        text: capped(line_content(line)),
        changed: true,
        scrolling: line_content(line).len() > LCD_ROW_LENGTH,
        scroll_index: 0,
    }
}

/// One step of a line: what to write into its row, if anything, and the line
/// afterwards.
///
/// A line is written when its text is new or scrolls: the row is cleared
/// and gets the text from the scroll position on. A scrolling line then
/// moves on by one byte, and starts again after it has run out.
pub open spec fn line_step(l: DisplayLineModel) -> (DisplayLineModel, Option<Seq<u8>>) {
    (
        DisplayLineModel {
            changed: if l.changed || l.scrolling {
                false
            } else {
                l.changed
            },
            scroll_index: if !l.scrolling {
                l.scroll_index
            } else if l.scroll_index >= l.text.len() {
                0
            } else {
                (l.scroll_index + 1) as usize
            },
            ..l
        },
        if l.changed || l.scrolling {
            Some(l.text.skip(l.scroll_index as int))
        } else {
            None
        },
    )
}

/// Whether every byte is ASCII.
pub fn is_ascii(bytes: &[u8]) -> (ascii: bool)
    ensures
        ascii == is_ascii_bytes(bytes@),
{
    let mut i: usize = 0;
    while i < bytes.len()
        invariant
            i <= bytes.len(),
            forall|k: int| 0 <= k < i ==> (#[trigger] bytes@[k]) < 128,
        decreases bytes.len() - i,
    {
        if bytes[i] >= 128 {
            return false;
        }
        i = i + 1;
    }
    true
}

/// The bytes without the white space at their end.
pub fn trimmed(bytes: &[u8]) -> (out: Vec<u8>)
    ensures
        out@ == trim_end(bytes@),
{
    let mut end: usize = bytes.len();
    proof {
        assert(bytes@.take(end as int) =~= bytes@);
    }
    while end > 0 && ((0x09 <= bytes[end - 1] && bytes[end - 1] <= 0x0D) || bytes[end - 1] == 0x20)
        invariant
            end <= bytes.len(),
            trim_end(bytes@) == trim_end(bytes@.take(end as int)),
        decreases end,
    {
        proof {
            assert(bytes@.take(end as int).drop_last() =~= bytes@.take(end - 1));
        }
        end = end - 1;
    }
    let mut out: Vec<u8> = Vec::new();
    let mut i: usize = 0;
    while i < end
        invariant
            i <= end <= bytes.len(),
            out@ == bytes@.take(i as int),
        decreases end - i,
    {
        out.push(bytes[i]);
        i = i + 1;
        proof {
            assert(out@ =~= bytes@.take(i as int));
        }
    }
    out
}

/// What a line of the wire says.
pub fn content_of(line: &[u8]) -> (content: Vec<u8>)
    ensures
        content@ == line_content(line@),
        is_ascii_bytes(content@),
{
    if is_ascii(line) {
        let content = trimmed(line);
        proof {
            lemma_trim_is_prefix(line@);
        }
        content
    } else {
        let mut content: Vec<u8> = Vec::new();
        content.push(0x49);
        content.push(0x6E);
        content.push(0x76);
        content.push(0x61);
        content.push(0x6C);
        content.push(0x69);
        content.push(0x64);
        content.push(0x20);
        content.push(0x41);
        content.push(0x53);
        content.push(0x43);
        content.push(0x49);
        content.push(0x49);
        proof {
            assert(content@ =~= invalid_message());
        }
        content
    }
}

/// Pads a line for the wire: the first 32 bytes of the text, then blanks.
pub fn pad_line(text: &[u8]) -> (line: [u8; 32])
    ensures
        line@ == padded(text@),
{
    let mut line: [u8; 32] = [0x20; 32];
    let mut i: usize = 0;
    while i < 32 && i < text.len()
        invariant
            i <= 32,
            i <= text.len(),
            forall|k: int| 0 <= k < i ==> line[k] == text@[k],
            forall|k: int| i <= k < 32 ==> line[k] == 0x20,
        decreases 32 - i,
    {
        line[i] = text[i];
        i = i + 1;
    }
    proof {
        assert(line@ =~= padded(text@));
    }
    line
}

/// Writes an amount of pence as pounds, a point, and two digits of pence.
pub fn format_price(pence: u16) -> (text: Vec<u8>)
    ensures
        text@ == price_text(pence),
{
    let pounds = pence / 100;
    let mut text: Vec<u8> = Vec::new();
    if pounds >= 100 {
        text.push(0x30 + (pounds / 100) as u8);
    }
    if pounds >= 10 {
        text.push(0x30 + (pounds / 10 % 10) as u8);
    }
    text.push(0x30 + (pounds % 10) as u8);
    proof {
        let p = pounds as nat;
        assert(decimal(p % 10) =~= seq![(0x30 + p % 10) as u8]);
        if p >= 10 {
            assert(decimal(p / 10 % 10) =~= seq![(0x30 + p / 10 % 10) as u8]);
            if p >= 100 {
                assert(decimal(p / 100) =~= seq![(0x30 + p / 100) as u8]);
                assert(decimal(p / 10) =~= decimal(p / 100).push((0x30 + p / 10 % 10) as u8));
            }
        }
        assert(text@ =~= decimal(p));
    }
    text.push(0x2E);
    text.push(0x30 + (pence % 100 / 10) as u8);
    text.push(0x30 + (pence % 10) as u8);
    proof {
        assert(text@ =~= price_text(pence));
    }
    text
}

impl DisplayLine {
    /// The scroll position lies within the text.
    #[verifier::type_invariant]
    spec fn within_text(self) -> bool {
        self.scroll_index <= line_bytes(self.text).len()
    }

    /// The line as a value of the logic.
    pub closed spec fn view(self) -> DisplayLineModel {
        DisplayLineModel {
            text: line_bytes(self.text),
            changed: self.changed,
            scrolling: self.scrolling,
            scroll_index: self.scroll_index,
        }
    }

    /// A line with the text that the bytes say, to be written at the next
    /// step; it scrolls if the text is longer than the row.
    pub fn new(line: &[u8]) -> (l: DisplayLine)
        ensures
            l@ == line_set(line@),
    {
        let content = content_of(line);
        let scrolling = content.len() > LCD_ROW_LENGTH;
        DisplayLine { text: line_make(&content), changed: true, scrolling, scroll_index: 0 }
    }

    /// Takes new text for the line, as it came over the wire.
    pub fn set_text(&mut self, line: &[u8; 32])
        ensures
            final(self)@ == line_set(line@),
    {
        let content = content_of(line.as_slice());
        self.scroll_index = 0;
        self.scrolling = content.len() > LCD_ROW_LENGTH;
        self.text = line_make(&content);
        self.changed = true;
    }

    /// One step of the line: returns what to write into its row after the
    /// row was cleared, if anything.
    pub fn step(&mut self) -> (write: Option<Vec<u8>>)
        ensures
            final(self)@ == line_step(old(self)@).0,
            match write {
                Some(bytes) => line_step(old(self)@).1 == Some(bytes@),
                None => line_step(old(self)@).1 is None,
            },
    {
        proof {
            use_type_invariant(&*self);
        }
        let len = line_len(&self.text);
        let write = if self.changed || self.scrolling {
            let text = line_text(&self.text);
            let mut tail: Vec<u8> = Vec::new();
            let mut i: usize = self.scroll_index;
            let start = self.scroll_index;
            while i < text.len()
                invariant
                    start <= i <= text.len(),
                    tail@ == text@.subrange(start as int, i as int),
                decreases text.len() - i,
            {
                tail.push(text[i]);
                i = i + 1;
                proof {
                    assert(tail@ =~= text@.subrange(start as int, i as int));
                }
            }
            proof {
                assert(tail@ =~= text@.skip(start as int));
            }
            self.changed = false;
            Some(tail)
        } else {
            None
        };
        if self.scrolling {
            if self.scroll_index >= len {
                self.scroll_index = 0;
            } else {
                self.scroll_index = self.scroll_index + 1;
            }
        }
        write
    }

    /// The text of the line.
    pub fn text(&self) -> (bytes: Vec<u8>)
        ensures
            bytes@ == self@.text,
    {
        line_text(&self.text)
    }

    /// Whether the line scrolls.
    pub fn is_scrolling(&self) -> (scrolling: bool)
        ensures
            scrolling == self@.scrolling,
    {
        self.scrolling
    }

    /// The byte of the text that stands at the left of the row.
    pub fn scroll_index(&self) -> (index: usize)
        ensures
            index == self@.scroll_index,
    {
        self.scroll_index
    }
}

/// Trimming takes bytes away at the end only: what is left is a prefix, so
/// it is ASCII where the bytes are, and it does not end in white space.
pub proof fn lemma_trim_is_prefix(bytes: Seq<u8>)
    ensures
        trim_end(bytes).len() <= bytes.len(),
        trim_end(bytes) == bytes.take(trim_end(bytes).len() as int),
        is_ascii_bytes(bytes) ==> is_ascii_bytes(trim_end(bytes)),
        trim_end(bytes).len() > 0 ==> !is_space(trim_end(bytes).last()),
    decreases bytes.len(),
{
    if bytes.len() == 0 || !is_space(bytes.last()) {
        assert(bytes.take(bytes.len() as int) =~= bytes);
    } else {
        lemma_trim_is_prefix(bytes.drop_last());
        let n = trim_end(bytes).len() as int;
        assert(bytes.drop_last().take(n) =~= bytes.take(n));
    }
}

/// Blanks at the end are trimmed away.
pub proof fn lemma_trim_padding(text: Seq<u8>, line: Seq<u8>)
    requires
        text.len() <= line.len(),
        line.take(text.len() as int) == text,
        forall|i: int| text.len() <= i < line.len() ==> line[i] == 0x20,
    ensures
        trim_end(line) == trim_end(text),
    decreases line.len() - text.len(),
{
    if text.len() == line.len() {
        assert(line.take(line.len() as int) =~= line);
    } else {
        assert(is_space(line.last()));
        assert(line.drop_last().take(text.len() as int) =~= line.take(text.len() as int));
        lemma_trim_padding(text, line.drop_last());
    }
}

/// What the host sends is what the display shows: an ASCII text of at most
/// 31 bytes that does not end in white space comes out of the line on the
/// wire exactly as it went in, to be written at the next step, and it
/// scrolls if and only if it is longer than the row.
pub proof fn lemma_line_round_trip(text: Seq<u8>)
    requires
        is_ascii_bytes(text),
        text.len() <= TEXT_CAPACITY,
        text.len() > 0 ==> !is_space(text.last()),
    ensures
        line_set(padded(text)) == (DisplayLineModel {
            text,
            changed: true,
            scrolling: text.len() > LCD_ROW_LENGTH,
            scroll_index: 0,
        }),
        line_step(line_set(padded(text))).1 == Some(text),
{
    let line = padded(text);
    assert(is_ascii_bytes(line));
    assert(line.take(text.len() as int) =~= text);
    lemma_trim_padding(text, line);
    assert(text.skip(0) =~= text);
}

/// A scrolling line keeps its position within the text: it moves from the
/// start to the end one byte at a time and then starts again, and a line
/// that does not scroll is written once and then left alone.
pub proof fn lemma_scroll_stays_in_text(l: DisplayLineModel)
    requires
        l.scroll_index <= l.text.len(),
        l.text.len() <= TEXT_CAPACITY,
    ensures
        line_step(l).0.scroll_index <= l.text.len(),
        line_step(l).0.text == l.text,
        !line_step(l).0.changed || (!l.changed && !l.scrolling),
        !l.scrolling ==> line_step(line_step(l).0).1 is None,
        l.scrolling && l.scroll_index == l.text.len() ==> line_step(l).0.scroll_index == 0,
{
}

} // verus!
