//! The escape stream writer.
//!
//! [`AnsiEscapeStream`] holds its bytes in memory, with a cursor. Every write
//! puts its bytes at the cursor, overwriting what stands there and extending the
//! buffer where it runs past the end, and moves the cursor past them. Until
//! [`AnsiEscapeStream::rewind`] is used the cursor stays at the end, so writes
//! append.

use vstd::prelude::*;
use vstd::utf8::encode_utf8;

use crate::encoding::{
    attribute_bytes,
    attribute_vec,
    push_text,
    reset_bytes,
    reset_vec,
    sgr,
    sgr_vec,
    styled,
};
use crate::registry::{
    background_of,
    cancel_of,
    coerce_to_background,
    coerce_to_foreground,
    foreground_of,
    BC_RICH_COLORS,
    FC_RICH_COLORS,
    TS_RESET_ALL,
};

verus! {

/// What a stream holds: its bytes and the cursor at which the next write goes.
pub ghost struct StreamState {
    pub bytes: Seq<u8>,
    pub position: nat,
}

impl StreamState {
    /// A stream with no bytes.
    pub open spec fn empty() -> StreamState {
        StreamState { bytes: Seq::empty(), position: 0 }
    }

    /// The state after `piece` is written at the cursor.
    pub open spec fn put(self, piece: Seq<u8>) -> StreamState
        recommends
            self.position <= self.bytes.len(),
    {
        let end = self.position + piece.len();
        StreamState {
            bytes: self.bytes.subrange(0, self.position as int) + piece + if end < self.bytes.len() {
                self.bytes.subrange(end as int, self.bytes.len() as int)
            } else {
                Seq::empty()
            },
            position: end,
        }
    }
}

/// The state after each of `pieces` is written in turn.
pub open spec fn put_all(state: StreamState, pieces: Seq<Seq<u8>>) -> StreamState
    decreases pieces.len(),
{
    if pieces.len() == 0 {
        state
    } else {
        put_all(state, pieces.drop_last()).put(pieces.last())
    }
}

/// Writing at the end of the bytes appends.
pub proof fn lemma_put_at_end(state: StreamState, piece: Seq<u8>)
    requires
        state.position == state.bytes.len(),
    ensures
        state.put(piece) == (StreamState {
            bytes: state.bytes + piece,
            position: state.bytes.len() + piece.len(),
        }),
{
    assert(state.bytes.subrange(0, state.position as int) =~= state.bytes);
    assert(state.put(piece).bytes =~= state.bytes + piece);
}

/// Every write operation of [`AnsiEscapeStream`] writes a piece that depends on
/// its arguments alone, and both `clear` and the constructors leave the state
/// `StreamState::empty()`. From that state any series of writes leaves exactly
/// the pieces one after the other, with the cursor at their end: a cleared
/// stream and a fresh one hold the same bytes after the same writes.
pub proof fn lemma_writes_after_clear(pieces: Seq<Seq<u8>>)
    ensures
        put_all(StreamState::empty(), pieces) == (StreamState {
            bytes: pieces.flatten(),
            position: pieces.flatten().len(),
        }),
    decreases pieces.len(),
{
    pieces.lemma_flatten_and_flatten_alt_are_equivalent();
    if pieces.len() > 0 {
        lemma_writes_after_clear(pieces.drop_last());
        pieces.drop_last().lemma_flatten_and_flatten_alt_are_equivalent();
        lemma_put_at_end(put_all(StreamState::empty(), pieces.drop_last()), pieces.last());
    } else {
        assert(pieces.flatten() =~= Seq::empty());
    }
}

/// A writer of ANSI escape sequences and text into an in-memory buffer.
pub struct AnsiEscapeStream {
    buffer: Vec<u8>,
    position: usize,
}

impl View for AnsiEscapeStream {
    type V = StreamState;

    closed spec fn view(&self) -> StreamState {
        StreamState { bytes: self.buffer@, position: self.position as nat }
    }
}

impl AnsiEscapeStream {
    #[verifier::type_invariant]
    spec fn cursor_in_bounds(&self) -> bool {
        self.position <= self.buffer@.len()
    }

    /// A stream with an empty buffer.
    pub fn new() -> (r: AnsiEscapeStream)
        ensures
            r@ == StreamState::empty(),
    {
        AnsiEscapeStream { buffer: Vec::new(), position: 0 }
    }

    /// A stream with an empty buffer that has room for `capacity` bytes.
    pub fn with_capacity(capacity: usize) -> (r: AnsiEscapeStream)
        ensures
            r@ == StreamState::empty(),
    {
        AnsiEscapeStream { buffer: Vec::with_capacity(capacity), position: 0 }
    }

    /// The bytes written so far.
    pub fn buffer(&self) -> (r: &[u8])
        ensures
            r@ == self@.bytes,
    {
        self.buffer.as_slice()
    }

    /// The cursor: where the next write goes.
    pub fn position(&self) -> (r: usize)
        ensures
            r == self@.position,
            r <= self@.bytes.len(),
    {
        proof {
            use_type_invariant(self);
        }
        self.position
    }

    /// Empties the buffer and moves the cursor to the start.
    pub fn clear(&mut self)
        ensures
            final(self)@ == StreamState::empty(),
    {
        let mut taken = AnsiEscapeStream::new();
        std::mem::swap(&mut taken, self);
        let mut buffer = taken.buffer;
        buffer.clear();
        *self = AnsiEscapeStream { buffer, position: 0 };
    }

    /// Moves the cursor to the start and keeps the bytes, so that they can be
    /// read again and then overwritten.
    pub fn rewind(&mut self)
        ensures
            final(self)@ == (StreamState { bytes: old(self)@.bytes, position: 0 }),
    {
        self.position = 0;
    }

    /// Hands out the bytes written so far and leaves the stream empty.
    pub fn take_buffer(&mut self) -> (r: Vec<u8>)
        ensures
            r@ == old(self)@.bytes,
            final(self)@ == StreamState::empty(),
    {
        let mut taken = AnsiEscapeStream::new();
        std::mem::swap(&mut taken, self);
        taken.buffer
    }

    /// Writes `piece` at the cursor.
    fn put(&mut self, piece: &[u8])
        ensures
            final(self)@ == old(self)@.put(piece@),
    {
        proof {
            use_type_invariant(&*self);
        }
        let ghost start = self@;
        let mut taken = AnsiEscapeStream::new();
        std::mem::swap(&mut taken, self);
        let mut buffer = taken.buffer;
        let mut pos: usize = taken.position;
        let mut i: usize = 0;
        while i < piece.len()
            invariant
                i <= piece@.len(),
                start.position <= start.bytes.len(),
                pos == start.position + i,
                pos <= buffer@.len(),
                buffer@ == start.put(piece@.subrange(0, i as int)).bytes,
            decreases piece@.len() - i,
        {
            if pos < buffer.len() {
                buffer.set(pos, piece[i]);
            } else {
                buffer.push(piece[i]);
            }
            assert(buffer@ =~= start.put(piece@.subrange(0, i + 1)).bytes);
            let len = buffer.len();
            assert(pos < len);
            pos = pos + 1;
            i = i + 1;
        }
        assert(piece@.subrange(0, piece@.len() as int) =~= piece@);
        *self = AnsiEscapeStream { buffer, position: pos };
    }

    /// Writes raw bytes, verbatim. Returns how many were written.
    pub fn write(&mut self, bytes: &[u8]) -> (n: usize)
        ensures
            n == bytes@.len(),
            final(self)@ == old(self)@.put(bytes@),
    {
        self.put(bytes);
        bytes.len()
    }

    /// Writes `text` verbatim, as UTF-8. Returns how many bytes were written.
    pub fn write_string(&mut self, text: &str) -> (n: usize)
        ensures
            n == encode_utf8(text@).len(),
            final(self)@ == old(self)@.put(encode_utf8(text@)),
    {
        let mut piece: Vec<u8> = Vec::new();
        push_text(&mut piece, text);
        assert(piece@ =~= encode_utf8(text@));
        self.put(piece.as_slice());
        piece.len()
    }

    /// Writes the escape sequence of the attribute `attr`: `ESC '[' attr 'm'`.
    pub fn write_attribute(&mut self, attr: u16)
        ensures
            final(self)@ == old(self)@.put(attribute_bytes(attr)),
    {
        let piece = attribute_vec(attr);
        self.put(piece.as_slice());
    }

    /// Resets every attribute: `ESC '[' '0' 'm'`.
    pub fn reset_all_attributes(&mut self)
        ensures
            final(self)@ == old(self)@.put(attribute_bytes(TS_RESET_ALL)),
    {
        self.write_attribute(TS_RESET_ALL);
    }

    /// Writes the sequence that cancels the attribute `attr` switches on, and
    /// no other: a color goes back to the default color of its ground, a style
    /// is turned off.
    pub fn reset_attribute(&mut self, attr: u16)
        requires
            cancel_of(attr) is Some,
        ensures
            final(self)@ == old(self)@.put(reset_bytes(attr)),
    {
        let piece = reset_vec(attr);
        self.put(piece.as_slice());
    }

    /// Writes `open`, the text, and `close` unless the text is empty and
    /// `always_close` does not hold.
    fn write_styled(&mut self, open: Vec<u8>, text: &str, close: Vec<u8>, always_close: bool)
        ensures
            final(self)@ == old(self)@.put(styled(open@, text@, close@, always_close)),
    {
        let mut piece = open;
        push_text(&mut piece, text);
        if always_close || !text.is_empty() {
            let mut close = close;
            piece.append(&mut close);
        }
        assert(piece@ =~= styled(open@, text@, close@, always_close));
        self.put(piece.as_slice());
    }

    /// Writes `text` in the foreground color `color`, then resets the
    /// foreground, unless the text is empty: then the color stays set for what
    /// follows. A background color is taken as its foreground counterpart.
    pub fn write_text_fc(&mut self, color: u16, text: &str)
        requires
            cancel_of(foreground_of(color)) is Some,
        ensures
            final(self)@ == old(self)@.put(
                styled(
                    attribute_bytes(foreground_of(color)),
                    text@,
                    reset_bytes(foreground_of(color)),
                    false,
                ),
            ),
    {
        let fg = coerce_to_foreground(color);
        self.write_styled(attribute_vec(fg), text, reset_vec(fg), false);
    }

    /// Writes rendered text in the foreground color `color`, then resets the
    /// foreground, whether or not the text is empty. A background color is taken
    /// as its foreground counterpart.
    pub fn write_text_fc_fmt(&mut self, color: u16, text: &str)
        requires
            cancel_of(foreground_of(color)) is Some,
        ensures
            final(self)@ == old(self)@.put(
                styled(
                    attribute_bytes(foreground_of(color)),
                    text@,
                    reset_bytes(foreground_of(color)),
                    true,
                ),
            ),
    {
        let fg = coerce_to_foreground(color);
        self.write_styled(attribute_vec(fg), text, reset_vec(fg), true);
    }

    /// Writes `text` in the background color `color`, then resets the
    /// background, unless the text is empty: then the color stays set for what
    /// follows. A foreground color is taken as its background counterpart.
    pub fn write_text_bc(&mut self, color: u16, text: &str)
        requires
            cancel_of(background_of(color)) is Some,
        ensures
            final(self)@ == old(self)@.put(
                styled(
                    attribute_bytes(background_of(color)),
                    text@,
                    reset_bytes(background_of(color)),
                    false,
                ),
            ),
    {
        let bg = coerce_to_background(color);
        self.write_styled(attribute_vec(bg), text, reset_vec(bg), false);
    }

    /// Writes rendered text in the background color `color`, then resets the
    /// background, whether or not the text is empty. A foreground color is taken
    /// as its background counterpart.
    pub fn write_text_bc_fmt(&mut self, color: u16, text: &str)
        requires
            cancel_of(background_of(color)) is Some,
        ensures
            final(self)@ == old(self)@.put(
                styled(
                    attribute_bytes(background_of(color)),
                    text@,
                    reset_bytes(background_of(color)),
                    true,
                ),
            ),
    {
        let bg = coerce_to_background(color);
        self.write_styled(attribute_vec(bg), text, reset_vec(bg), true);
    }

    /// The sequence `ESC '[' foreground ';' background 'm'`, and after the text
    /// the two partial resets, foreground first.
    fn write_color_pair(&mut self, foreground: u16, background: u16, text: &str, always_close: bool)
        requires
            cancel_of(foreground) is Some,
            cancel_of(background) is Some,
        ensures
            final(self)@ == old(self)@.put(
                styled(
                    sgr(seq![foreground, background]),
                    text@,
                    reset_bytes(foreground) + reset_bytes(background),
                    always_close,
                ),
            ),
    {
        let codes = [foreground, background];
        assert(codes@ =~= seq![foreground, background]);
        let mut close = reset_vec(foreground);
        let mut second = reset_vec(background);
        close.append(&mut second);
        self.write_styled(sgr_vec(&codes), text, close, always_close);
    }

    /// Writes `text` with a foreground and a background color set by one
    /// sequence. After non-empty text each of the two is reset on its own, so
    /// that other attributes stay set; after empty text both stay set.
    pub fn write_text_color(&mut self, foreground: u16, background: u16, text: &str)
        requires
            cancel_of(foreground) is Some,
            cancel_of(background) is Some,
        ensures
            final(self)@ == old(self)@.put(
                styled(
                    sgr(seq![foreground, background]),
                    text@,
                    reset_bytes(foreground) + reset_bytes(background),
                    false,
                ),
            ),
    {
        self.write_color_pair(foreground, background, text, false);
    }

    /// Writes rendered text with a foreground and a background color set by one
    /// sequence, then resets each of the two on its own, whether or not the text
    /// is empty.
    pub fn write_text_color_fmt(&mut self, foreground: u16, background: u16, text: &str)
        requires
            cancel_of(foreground) is Some,
            cancel_of(background) is Some,
        ensures
            final(self)@ == old(self)@.put(
                styled(
                    sgr(seq![foreground, background]),
                    text@,
                    reset_bytes(foreground) + reset_bytes(background),
                    true,
                ),
            ),
    {
        self.write_color_pair(foreground, background, text, true);
    }

    /// A rich color, `ESC '[' introducer ';' sub... 'm'`, and after the text the
    /// reset of the introducer, which is the default color of its ground.
    fn write_rich(&mut self, codes: &[u16], text: &str, always_close: bool)
        requires
            codes@.len() > 0,
            codes@[0] == FC_RICH_COLORS || codes@[0] == BC_RICH_COLORS,
        ensures
            final(self)@ == old(self)@.put(
                styled(sgr(codes@), text@, reset_bytes(codes@[0]), always_close),
            ),
    {
        self.write_styled(sgr_vec(codes), text, reset_vec(codes[0]), always_close);
    }

    /// Writes `text` in the 256-color foreground `color`, then resets the
    /// foreground, unless the text is empty.
    pub fn write_text_fc256(&mut self, color: u16, text: &str)
        requires
            color <= 255,
        ensures
            final(self)@ == old(self)@.put(
                styled(sgr(seq![FC_RICH_COLORS, 5, color]), text@, reset_bytes(FC_RICH_COLORS), false),
            ),
    {
        let codes = [FC_RICH_COLORS, 5, color];
        assert(codes@ =~= seq![FC_RICH_COLORS, 5, color]);
        self.write_rich(&codes, text, false);
    }

    /// Writes rendered text in the 256-color foreground `color`, then resets the
    /// foreground.
    pub fn write_text_fc256_fmt(&mut self, color: u16, text: &str)
        requires
            color <= 255,
        ensures
            final(self)@ == old(self)@.put(
                styled(sgr(seq![FC_RICH_COLORS, 5, color]), text@, reset_bytes(FC_RICH_COLORS), true),
            ),
    {
        let codes = [FC_RICH_COLORS, 5, color];
        assert(codes@ =~= seq![FC_RICH_COLORS, 5, color]);
        self.write_rich(&codes, text, true);
    }

    /// Writes `text` in the 256-color background `color`, then resets the
    /// background, unless the text is empty.
    pub fn write_text_bc256(&mut self, color: u16, text: &str)
        requires
            color <= 255,
        ensures
            final(self)@ == old(self)@.put(
                styled(sgr(seq![BC_RICH_COLORS, 5, color]), text@, reset_bytes(BC_RICH_COLORS), false),
            ),
    {
        let codes = [BC_RICH_COLORS, 5, color];
        assert(codes@ =~= seq![BC_RICH_COLORS, 5, color]);
        self.write_rich(&codes, text, false);
    }

    /// Writes rendered text in the 256-color background `color`, then resets the
    /// background.
    pub fn write_text_bc256_fmt(&mut self, color: u16, text: &str)
        requires
            color <= 255,
        ensures
            final(self)@ == old(self)@.put(
                styled(sgr(seq![BC_RICH_COLORS, 5, color]), text@, reset_bytes(BC_RICH_COLORS), true),
            ),
    {
        let codes = [BC_RICH_COLORS, 5, color];
        assert(codes@ =~= seq![BC_RICH_COLORS, 5, color]);
        self.write_rich(&codes, text, true);
    }

    /// Writes `text` in the RGB foreground `(r, g, b)`, then resets the
    /// foreground, unless the text is empty.
    pub fn write_text_fcrgb(&mut self, r: u16, g: u16, b: u16, text: &str)
        requires
            r <= 255,
            g <= 255,
            b <= 255,
        ensures
            final(self)@ == old(self)@.put(
                styled(sgr(seq![FC_RICH_COLORS, 2, r, g, b]), text@, reset_bytes(FC_RICH_COLORS), false),
            ),
    {
        let codes = [FC_RICH_COLORS, 2, r, g, b];
        assert(codes@ =~= seq![FC_RICH_COLORS, 2, r, g, b]);
        self.write_rich(&codes, text, false);
    }

    /// Writes rendered text in the RGB foreground `(r, g, b)`, then resets the
    /// foreground.
    pub fn write_text_fcrgb_fmt(&mut self, r: u16, g: u16, b: u16, text: &str)
        requires
            r <= 255,
            g <= 255,
            b <= 255,
        ensures
            final(self)@ == old(self)@.put(
                styled(sgr(seq![FC_RICH_COLORS, 2, r, g, b]), text@, reset_bytes(FC_RICH_COLORS), true),
            ),
    {
        let codes = [FC_RICH_COLORS, 2, r, g, b];
        assert(codes@ =~= seq![FC_RICH_COLORS, 2, r, g, b]);
        self.write_rich(&codes, text, true);
    }

    /// Writes `text` in the RGB background `(r, g, b)`, then resets the
    /// background, unless the text is empty.
    pub fn write_text_bcrgb(&mut self, r: u16, g: u16, b: u16, text: &str)
        requires
            r <= 255,
            g <= 255,
            b <= 255,
        ensures
            final(self)@ == old(self)@.put(
                styled(sgr(seq![BC_RICH_COLORS, 2, r, g, b]), text@, reset_bytes(BC_RICH_COLORS), false),
            ),
    {
        let codes = [BC_RICH_COLORS, 2, r, g, b];
        assert(codes@ =~= seq![BC_RICH_COLORS, 2, r, g, b]);
        self.write_rich(&codes, text, false);
    }

    /// Writes rendered text in the RGB background `(r, g, b)`, then resets the
    /// background.
    pub fn write_text_bcrgb_fmt(&mut self, r: u16, g: u16, b: u16, text: &str)
        requires
            r <= 255,
            g <= 255,
            b <= 255,
        ensures
            final(self)@ == old(self)@.put(
                styled(sgr(seq![BC_RICH_COLORS, 2, r, g, b]), text@, reset_bytes(BC_RICH_COLORS), true),
            ),
    {
        let codes = [BC_RICH_COLORS, 2, r, g, b];
        assert(codes@ =~= seq![BC_RICH_COLORS, 2, r, g, b]);
        self.write_rich(&codes, text, true);
    }
}

} // verus!
