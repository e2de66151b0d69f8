//! A single-line text editor whose cursor counts Unicode scalar values.
//!
//! The buffer is an ordinary UTF-8 `String`, so every edit needs the byte
//! position that belongs to the cursor. That position is always derived from
//! the cursor and never stored.

use vstd::prelude::*;
use vstd::utf8::{encode_scalar, encode_utf8};

verus! {

/// Number of bytes that the UTF-8 encoding of `c` occupies.
pub open spec fn utf8_width(c: char) -> nat {
    if (c as u32) < 0x80 {
        1
    } else if (c as u32) < 0x800 {
        2
    } else if (c as u32) < 0x1_0000 {
        3
    } else {
        4
    }
}

/// Number of bytes that the UTF-8 encoding of `chars` occupies.
pub open spec fn utf8_len(chars: Seq<char>) -> nat {
    encode_utf8(chars).len()
}

/// Byte position of the scalar value with index `char_index` in the UTF-8
/// encoding of `text`; the length of the whole encoding once `char_index`
/// reaches or passes the number of scalar values.
pub open spec fn byte_offset_of(text: Seq<char>, char_index: nat) -> nat {
    if char_index <= text.len() {
        utf8_len(text.subrange(0, char_index as int))
    } else {
        utf8_len(text)
    }
}

/// The sum of the encoded widths of `chars`, scalar value by scalar value.
pub open spec fn width_sum(chars: Seq<char>) -> nat
    decreases chars.len(),
{
    if chars.len() == 0 {
        0
    } else {
        width_sum(chars.drop_last()) + utf8_width(chars.last())
    }
}

/// A scalar value is encoded in as many bytes as `utf8_width` says.
pub proof fn lemma_encode_scalar_len(c: char)
    ensures
        encode_scalar(c as u32).len() == utf8_width(c),
        1 <= utf8_width(c) <= 4,
{
    vstd::utf8::char_is_scalar(c);
}

/// Encoding distributes over concatenation.
pub proof fn lemma_encode_concat(a: Seq<char>, b: Seq<char>)
    ensures
        encode_utf8(a + b) == encode_utf8(a) + encode_utf8(b),
    decreases a.len(),
{
    if a.len() == 0 {
        assert(a + b == b);
        assert(encode_utf8(a) == Seq::<u8>::empty());
        assert(encode_utf8(a) + encode_utf8(b) == encode_utf8(b));
    } else {
        lemma_encode_concat(a.drop_first(), b);
        assert((a + b).drop_first() == a.drop_first() + b);
        assert((a + b)[0] == a[0]);
        let head = encode_scalar(a[0] as u32);
        let tail = encode_utf8(a.drop_first());
        assert(encode_utf8(a + b) == head + (tail + encode_utf8(b)));
        assert(head + (tail + encode_utf8(b)) == (head + tail) + encode_utf8(b));
    }
}

/// Appending one scalar value lengthens the encoding by its width.
pub proof fn lemma_utf8_len_push(chars: Seq<char>, c: char)
    ensures
        utf8_len(chars.push(c)) == utf8_len(chars) + utf8_width(c),
{
    lemma_encode_concat(chars, seq![c]);
    assert(chars.push(c) == chars + seq![c]);
    assert(seq![c].drop_first() == Seq::<char>::empty());
    assert(encode_utf8(seq![c].drop_first()) == Seq::<u8>::empty());
    assert(encode_utf8(seq![c]) == encode_scalar(c as u32) + Seq::<u8>::empty());
    assert(encode_utf8(seq![c]) == encode_scalar(c as u32));
    lemma_encode_scalar_len(c);
}

/// The encoded length of a text is the sum of the widths of its scalar values.
pub proof fn lemma_utf8_len_is_width_sum(chars: Seq<char>)
    ensures
        utf8_len(chars) == width_sum(chars),
    decreases chars.len(),
{
    if chars.len() == 0 {
        assert(encode_utf8(chars) == Seq::<u8>::empty());
    } else {
        lemma_utf8_len_is_width_sum(chars.drop_last());
        lemma_utf8_len_push(chars.drop_last(), chars.last());
        assert(chars.drop_last().push(chars.last()) == chars);
    }
}

/// A text has at most as many scalar values as its encoding has bytes.
pub proof fn lemma_len_at_most_utf8_len(chars: Seq<char>)
    ensures
        chars.len() <= utf8_len(chars),
    decreases chars.len(),
{
    if chars.len() > 0 {
        lemma_len_at_most_utf8_len(chars.drop_last());
        lemma_utf8_len_push(chars.drop_last(), chars.last());
        assert(chars.drop_last().push(chars.last()) == chars);
    }
}

/// Byte positions grow strictly with the character index: every scalar value
/// takes at least one byte.
pub proof fn lemma_byte_offset_strictly_increasing(text: Seq<char>, i: nat, j: nat)
    requires
        i < j <= text.len(),
    ensures
        byte_offset_of(text, i) < byte_offset_of(text, j),
    decreases j - i,
{
    let before = text.subrange(0, j - 1);
    lemma_utf8_len_push(before, text[j - 1]);
    assert(before.push(text[j - 1]) == text.subrange(0, j as int));
    if i < j - 1 {
        lemma_byte_offset_strictly_increasing(text, i, (j - 1) as nat);
    }
}

/// The bytes that start at the byte position of a scalar value are the
/// encoding of that scalar value.
pub proof fn lemma_scalar_starts_at_byte_offset(text: Seq<char>, k: nat)
    requires
        k < text.len(),
    ensures
        byte_offset_of(text, k) + utf8_width(text[k as int]) == byte_offset_of(text, k + 1),
        byte_offset_of(text, k + 1) <= utf8_len(text),
        encode_utf8(text).subrange(
            byte_offset_of(text, k) as int,
            byte_offset_of(text, k + 1) as int,
        ) == encode_scalar(text[k as int] as u32),
{
    let c = text[k as int];
    let before = text.subrange(0, k as int);
    let upto = text.subrange(0, k as int + 1);
    let behind = text.subrange(k as int + 1, text.len() as int);
    lemma_utf8_len_push(before, c);
    lemma_encode_scalar_len(c);
    lemma_encode_concat(before, seq![c]);
    lemma_encode_concat(upto, behind);
    assert(before.push(c) == upto);
    assert(before + seq![c] == upto);
    assert(upto + behind == text);
    assert(seq![c].drop_first() == Seq::<char>::empty());
    assert(encode_utf8(seq![c].drop_first()) == Seq::<u8>::empty());
    assert(encode_utf8(seq![c]) == encode_scalar(c as u32) + Seq::<u8>::empty());
    assert(encode_utf8(seq![c]) == encode_scalar(c as u32));
    let bytes = encode_utf8(before) + encode_scalar(c as u32) + encode_utf8(behind);
    assert(encode_utf8(text) == bytes);
    assert(bytes.subrange(
        encode_utf8(before).len() as int,
        encode_utf8(before).len() as int + encode_scalar(c as u32).len(),
    ) == encode_scalar(c as u32));
}

/// `String::insert` of the standard library: puts `ch` at byte position `idx`.
/// It panics unless `idx` lies on a character boundary, so the position must be
/// the encoded length of some prefix of the text; the scalar value then stands
/// right behind that prefix and nothing else changes.
pub assume_specification[ String::insert ](s: &mut String, idx: usize, ch: char)
    requires
        exists|k: int|
            0 <= k <= old(s)@.len() && idx == utf8_len(#[trigger] old(s)@.subrange(0, k)),
    ensures
        forall|k: int|
            0 <= k <= old(s)@.len() && idx == utf8_len(#[trigger] old(s)@.subrange(0, k))
                ==> final(s)@ == old(s)@.insert(k, ch),
;

/// `String::remove` of the standard library: takes out the scalar value that
/// starts at byte position `idx` and returns it. It panics unless a scalar
/// value starts there, so the position must be the encoded length of a prefix
/// that is shorter than the text.
pub assume_specification[ String::remove ](s: &mut String, idx: usize) -> (ch: char)
    requires
        exists|k: int|
            0 <= k < old(s)@.len() && idx == utf8_len(#[trigger] old(s)@.subrange(0, k)),
    ensures
        forall|k: int|
            0 <= k < old(s)@.len() && idx == utf8_len(#[trigger] old(s)@.subrange(0, k))
                ==> final(s)@ == old(s)@.remove(k) && ch == old(s)@[k],
;

/// Puts `c` behind the last scalar value of `text`.
pub fn push_char(text: &mut String, c: char)
    ensures
        final(text)@ == old(text)@.push(c),
{
    let end: usize = text.as_str().as_bytes().len();
    assert(text@.subrange(0, text@.len() as int) == text@);
    text.insert(end, c);
    assert(old(text)@.insert(old(text)@.len() as int, c) == old(text)@.push(c));
}

/// Number of bytes that `c` takes in UTF-8.
pub fn char_width(c: char) -> (w: usize)
    ensures
        w == utf8_width(c),
{
    let v: u32 = c as u32;
    if v < 0x80 {
        1
    } else if v < 0x800 {
        2
    } else if v < 0x1_0000 {
        3
    } else {
        4
    }
}

/// Byte position in `text` of the scalar value with index `char_index`, or the
/// byte length of `text` when the index is at or past the end.
pub fn byte_offset(text: &str, char_index: usize) -> (offset: usize)
    ensures
        offset == byte_offset_of(text@, char_index as nat),
{
    let total: usize = text.as_bytes().len();
    let mut offset: usize = 0;
    let mut seen: usize = 0;
    proof {
        lemma_len_at_most_utf8_len(text@);
        assert(text@.subrange(0, 0) == Seq::<char>::empty());
        assert(encode_utf8(Seq::<char>::empty()) == Seq::<u8>::empty());
    }
    for c in it: text.chars()
        invariant
            it.seq() == text@,
            total == utf8_len(text@),
            text@.len() <= total,
            seen == it.index(),
            offset == byte_offset_of(
                text@,
                if seen <= char_index {
                    seen as nat
                } else {
                    char_index as nat
                },
            ),
    {
        if seen < char_index {
            let w: usize = char_width(c);
            proof {
                lemma_utf8_len_push(text@.subrange(0, seen as int), c);
                assert(text@.subrange(0, seen as int).push(c) == text@.subrange(0, seen + 1));
                if seen + 1 < text@.len() {
                    lemma_byte_offset_strictly_increasing(
                        text@,
                        (seen + 1) as nat,
                        text@.len(),
                    );
                }
                assert(text@.subrange(0, text@.len() as int) == text@);
            }
            offset = offset + w;
        }
        seen = seen + 1;
    }
    proof {
        assert(text@.subrange(0, text@.len() as int) == text@);
    }
    offset
}

/// What a `TextEditor` holds: the text as scalar values and the cursor as a
/// count of scalar values in front of it.
pub struct TextView {
    pub text: Seq<char>,
    pub cursor: nat,
}

impl TextView {
    /// The cursor stands inside the text or right behind it.
    pub open spec fn wf(self) -> bool {
        self.cursor <= self.text.len()
    }

    /// One position to the left, staying at the start of the text.
    pub open spec fn move_left(self) -> TextView {
        TextView {
            text: self.text,
            cursor: if self.cursor == 0 {
                0
            } else {
                (self.cursor - 1) as nat
            },
        }
    }

    /// One position to the right, staying at the end of the text.
    pub open spec fn move_right(self) -> TextView {
        TextView {
            text: self.text,
            cursor: if self.cursor < self.text.len() {
                self.cursor + 1
            } else {
                self.text.len()
            },
        }
    }

    /// `c` put in at the cursor, the cursor one further.
    pub open spec fn insert(self, c: char) -> TextView {
        TextView { text: self.text.insert(self.cursor as int, c), cursor: self.cursor + 1 }
    }

    /// The scalar value in front of the cursor taken out, the cursor one back;
    /// unchanged when the cursor is at the start.
    pub open spec fn delete_before_cursor(self) -> TextView {
        if self.cursor == 0 {
            self
        } else {
            TextView {
                text: self.text.remove(self.cursor - 1),
                cursor: (self.cursor - 1) as nat,
            }
        }
    }

    /// Empty text, cursor at the start.
    pub open spec fn cleared() -> TextView {
        TextView { text: Seq::empty(), cursor: 0 }
    }

    /// `text` with the cursor behind its last scalar value.
    pub open spec fn seeded(text: Seq<char>) -> TextView {
        TextView { text: text, cursor: text.len() }
    }

    /// Byte position of the cursor in the UTF-8 encoding of the text.
    pub open spec fn byte_offset(self) -> nat {
        byte_offset_of(self.text, self.cursor)
    }
}

/// Text buffer with a cursor that counts scalar values.
pub struct TextEditor {
    text: String,
    char_index: usize,
}

impl View for TextEditor {
    type V = TextView;

    closed spec fn view(&self) -> TextView {
        TextView { text: self.text@, cursor: self.char_index as nat }
    }
}

impl TextEditor {
    #[verifier::type_invariant]
    spec fn cursor_in_range(self) -> bool {
        self.char_index <= self.text@.len()
    }

    /// An editor that holds `text`, with the cursor at its end.
    pub fn new(text: String) -> (editor: TextEditor)
        ensures
            editor@ == TextView::seeded(text@),
            editor@.wf(),
    {
        let char_index: usize = text.as_str().unicode_len();
        TextEditor { text, char_index }
    }

    /// The text.
    pub fn text(&self) -> (text: &str)
        ensures
            text@ == self@.text,
    {
        self.text.as_str()
    }

    /// Number of scalar values in front of the cursor.
    pub fn char_index(&self) -> (index: usize)
        ensures
            index == self@.cursor,
            self@.wf(),
    {
        proof {
            use_type_invariant(self);
        }
        self.char_index
    }

    /// Byte position of the cursor in the text.
    pub fn byte_offset(&self) -> (offset: usize)
        ensures
            offset == self@.byte_offset(),
    {
        byte_offset(self.text.as_str(), self.char_index)
    }

    /// Moves the cursor one scalar value to the left; at the start it stays.
    pub fn move_left(&mut self)
        ensures
            final(self)@ == old(self)@.move_left(),
            final(self)@.wf(),
    {
        proof {
            use_type_invariant(&*self);
        }
        if self.char_index > 0 {
            self.char_index = self.char_index - 1;
        }
    }

    /// Moves the cursor one scalar value to the right; at the end it stays.
    pub fn move_right(&mut self)
        ensures
            final(self)@ == old(self)@.move_right(),
            final(self)@.wf(),
    {
        proof {
            use_type_invariant(&*self);
        }
        let count: usize = self.text.as_str().unicode_len();
        if self.char_index < count {
            self.char_index = self.char_index + 1;
        }
    }

    /// Puts `c` in at the cursor and moves the cursor behind it.
    pub fn insert(&mut self, c: char)
        ensures
            final(self)@ == old(self)@.insert(c),
            final(self)@.wf(),
    {
        proof {
            use_type_invariant(&*self);
        }
        let index: usize = self.char_index;
        let offset: usize = self.byte_offset();
        let mut text: String = String::new();
        self.char_index = 0;
        std::mem::swap(&mut self.text, &mut text);
        text.insert(offset, c);
        // The longer text is held in memory, so its bytes can be counted, and it has no
        // more scalar values than bytes: the cursor can go one further.
        let bytes: usize = text.as_str().as_bytes().len();
        proof {
            lemma_len_at_most_utf8_len(text@);
        }
        std::mem::swap(&mut self.text, &mut text);
        self.char_index = index + 1;
    }

    /// Takes out the scalar value in front of the cursor and moves the cursor
    /// one back; does nothing when the cursor is at the start.
    pub fn delete_before_cursor(&mut self)
        ensures
            final(self)@ == old(self)@.delete_before_cursor(),
            final(self)@.wf(),
    {
        proof {
            use_type_invariant(&*self);
        }
        if self.char_index == 0 {
            return ;
        }
        let index: usize = self.char_index - 1;
        let offset: usize = byte_offset(self.text.as_str(), index);
        let mut text: String = String::new();
        self.char_index = 0;
        std::mem::swap(&mut self.text, &mut text);
        let _ = text.remove(offset);
        std::mem::swap(&mut self.text, &mut text);
        self.char_index = index;
    }

    /// Empties the text and puts the cursor at the start.
    pub fn clear(&mut self)
        ensures
            final(self)@ == TextView::cleared(),
            final(self)@.wf(),
    {
        self.char_index = 0;
        self.text = String::new();
    }
}

/// Moving right and then left comes back to where the cursor was, unless it
/// stood at the end of the text.
pub proof fn lemma_move_right_then_left(v: TextView)
    requires
        v.cursor < v.text.len(),
    ensures
        v.move_right().move_left() == v,
{
}

/// Moving left and then right comes back to where the cursor was, unless it
/// stood at the start of the text.
pub proof fn lemma_move_left_then_right(v: TextView)
    requires
        v.wf(),
        v.cursor > 0,
    ensures
        v.move_left().move_right() == v,
{
}

/// At the start of the text moving left changes nothing; at the end moving
/// right changes nothing; and neither move ever leaves the text.
pub proof fn lemma_moves_are_clamped(v: TextView)
    requires
        v.wf(),
    ensures
        v.cursor == 0 ==> v.move_left() == v,
        v.cursor == v.text.len() ==> v.move_right() == v,
        v.move_left().wf(),
        v.move_right().wf(),
{
}

/// Every edit keeps the cursor inside the text.
pub proof fn lemma_edits_keep_cursor_in_range(v: TextView, c: char)
    requires
        v.wf(),
    ensures
        v.insert(c).wf(),
        v.delete_before_cursor().wf(),
        TextView::cleared().wf(),
        TextView::seeded(v.text).wf(),
{
}

/// Deleting in front of the cursor undoes an insertion.
pub proof fn lemma_delete_undoes_insert(v: TextView, c: char)
    requires
        v.wf(),
    ensures
        v.insert(c).delete_before_cursor() == v,
{
    assert(v.text.insert(v.cursor as int, c).remove(v.cursor as int) == v.text);
}

/// The byte position of the cursor is the sum of the encoded widths of the
/// scalar values in front of it.
pub proof fn lemma_byte_offset_is_width_sum(v: TextView)
    requires
        v.wf(),
    ensures
        v.byte_offset() == width_sum(v.text.subrange(0, v.cursor as int)),
{
    lemma_utf8_len_is_width_sum(v.text.subrange(0, v.cursor as int));
}

} // verus!
