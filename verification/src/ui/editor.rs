//! The one-line editor behind the query field of the interactive mode.
//!
//! Kept apart from the drawing code so the movements and deletions can be
//! tested without a terminal.
//!
//! Positions are counted in characters rather than display columns, like the
//! rest of the UI: a wide CJK glyph or an emoji still counts as one.
//!
//! The editor is modelled by its view: the text as a sequence of characters,
//! the cursor (an index into it, never past its end) and the leftmost
//! character of the window shown on screen. Each edit is stated as a function
//! of that view.

use vstd::prelude::*;
use crate::text::{concat, is_ws, is_whitespace, string_of, sub_vec, trim, trim_ws};

verus! {

/// A query being typed: the text, the cursor, and the window shown on screen.
pub struct LineEditor {
    text: String,
    chars: Vec<char>,
    /// Cursor position, in characters from the start.
    cursor: usize,
    /// Leftmost character of the window drawn in the input box.
    offset: usize,
}

impl View for LineEditor {
    /// The text, the cursor and the window offset.
    type V = (Seq<char>, nat, nat);

    closed spec fn view(&self) -> (Seq<char>, nat, nat) {
        (self.chars@, self.cursor as nat, self.offset as nat)
    }
}

/// The cursor never leaves the text.
pub open spec fn well_formed(v: (Seq<char>, nat, nat)) -> bool {
    v.1 <= v.0.len()
}

/// Text and cursor after typing `c` at cursor `k`.
pub open spec fn after_insert(t: Seq<char>, k: nat, c: char) -> (Seq<char>, nat) {
    (t.insert(k as int, c), k + 1)
}

/// Text and cursor after a backspace at cursor `k`.
pub open spec fn after_backspace(t: Seq<char>, k: nat) -> (Seq<char>, nat) {
    if k == 0 {
        (t, k)
    } else {
        (t.remove(k - 1), (k - 1) as nat)
    }
}

/// Text after a forward delete at cursor `k`.
pub open spec fn after_delete(t: Seq<char>, k: nat) -> Seq<char> {
    if k < t.len() {
        t.remove(k as int)
    } else {
        t
    }
}

/// The start of the whitespace run that ends at `i`.
pub open spec fn skip_ws_back(t: Seq<char>, i: int) -> int
    decreases i,
{
    if i > 0 && is_ws(t[i - 1]) {
        skip_ws_back(t, i - 1)
    } else {
        i
    }
}

/// The start of the word that ends at `i`.
pub open spec fn skip_word_back(t: Seq<char>, i: int) -> int
    decreases i,
{
    if i > 0 && !is_ws(t[i - 1]) {
        skip_word_back(t, i - 1)
    } else {
        i
    }
}

/// Where the word to the left of `k` begins: skip the whitespace between
/// the two, then the word itself — the boundary `Ctrl+W` uses in a shell.
pub open spec fn word_start(t: Seq<char>, k: nat) -> int {
    skip_word_back(t, skip_ws_back(t, k as int))
}

/// The end of the whitespace run that starts at `i`.
pub open spec fn skip_ws_fwd(t: Seq<char>, i: int) -> int
    decreases t.len() - i,
{
    if 0 <= i < t.len() && is_ws(t[i]) {
        skip_ws_fwd(t, i + 1)
    } else {
        i
    }
}

/// The end of the word that starts at `i`.
pub open spec fn skip_word_fwd(t: Seq<char>, i: int) -> int
    decreases t.len() - i,
{
    if 0 <= i < t.len() && !is_ws(t[i]) {
        skip_word_fwd(t, i + 1)
    } else {
        i
    }
}

/// Where the word to the right of `k` ends.
pub open spec fn word_end(t: Seq<char>, k: nat) -> int {
    skip_word_fwd(t, skip_ws_fwd(t, k as int))
}

/// The characters the input box has room for: one column is held back for
/// the cursor itself.
pub open spec fn room(width: u16) -> nat {
    if width >= 1 {
        (width - 1) as nat
    } else {
        0
    }
}

/// The window offset after `visible`: kept inside the text, then moved just
/// enough to bring the cursor into view.
pub open spec fn window(len: nat, cursor: nat, offset: nat, room: nat) -> nat {
    let limit: nat = if len >= room {
        (len - room) as nat
    } else {
        0
    };
    let kept = if offset <= limit {
        offset
    } else {
        limit
    };
    if cursor < kept {
        cursor
    } else if cursor > kept + room {
        (cursor - room) as nat
    } else {
        kept
    }
}

proof fn lemma_skip_ws_back(t: Seq<char>, i: int)
    requires
        0 <= i <= t.len(),
    ensures
        0 <= skip_ws_back(t, i) <= i,
    decreases i,
{
    if i > 0 && is_ws(t[i - 1]) {
        lemma_skip_ws_back(t, i - 1);
    }
}

proof fn lemma_skip_word_back(t: Seq<char>, i: int)
    requires
        0 <= i <= t.len(),
    ensures
        0 <= skip_word_back(t, i) <= i,
    decreases i,
{
    if i > 0 && !is_ws(t[i - 1]) {
        lemma_skip_word_back(t, i - 1);
    }
}

proof fn lemma_skip_ws_fwd(t: Seq<char>, i: int)
    requires
        0 <= i <= t.len(),
    ensures
        i <= skip_ws_fwd(t, i) <= t.len(),
    decreases t.len() - i,
{
    if 0 <= i < t.len() && is_ws(t[i]) {
        lemma_skip_ws_fwd(t, i + 1);
    }
}

proof fn lemma_skip_word_fwd(t: Seq<char>, i: int)
    requires
        0 <= i <= t.len(),
    ensures
        i <= skip_word_fwd(t, i) <= t.len(),
    decreases t.len() - i,
{
    if 0 <= i < t.len() && !is_ws(t[i]) {
        lemma_skip_word_fwd(t, i + 1);
    }
}

impl LineEditor {
    #[verifier::type_invariant]
    spec fn inv(&self) -> bool {
        &&& self.text@ == self.chars@
        &&& self.cursor <= self.chars@.len()
    }

    /// An editor with this text, cursor and offset.
    fn build(chars: Vec<char>, cursor: usize, offset: usize) -> (r: Self)
        requires
            cursor <= chars@.len(),
        ensures
            r@ == (chars@, cursor as nat, offset as nat),
    {
        let text = string_of(&chars);
        LineEditor { text, chars, cursor, offset }
    }

    pub fn text(&self) -> (r: &str)
        ensures
            r@ == self@.0,
    {
        proof {
            use_type_invariant(self);
        }
        self.text.as_str()
    }

    /// Where the cursor is, in characters from the start.
    pub fn cursor(&self) -> (r: usize)
        ensures
            r == self@.1,
            well_formed(self@),
    {
        proof {
            use_type_invariant(self);
        }
        self.cursor
    }

    /// Nothing but whitespace: not worth sending to the model.
    pub fn is_blank(&self) -> (r: bool)
        ensures
            r == (trim(self@.0).len() == 0),
    {
        let t = trim_ws(&self.chars);
        t.len() == 0
    }

    pub fn clear(&mut self)
        ensures
            final(self)@ == (Seq::<char>::empty(), 0nat, 0nat),
    {
        *self = Self::build(Vec::new(), 0, 0);
    }

    pub fn insert_char(&mut self, c: char)
        ensures
            (final(self)@.0, final(self)@.1) == after_insert(old(self)@.0, old(self)@.1, c),
            final(self)@.2 == old(self)@.2,
            well_formed(final(self)@),
    {
        proof {
            use_type_invariant(&*self);
        }
        let k = self.cursor;
        let head = sub_vec(&self.chars, 0, k);
        let tail = sub_vec(&self.chars, k, self.chars.len());
        let mut with_c = head;
        with_c.push(c);
        let chars = concat(&with_c, &tail);
        assert(chars@ =~= self.chars@.insert(k as int, c));
        let offset = self.offset;
        let cursor = with_c.len();
        *self = Self::build(chars, cursor, offset);
    }

    /// Type a pasted text at the cursor in one edit. The query is a single
    /// line, so each line break (`\r\n`, `\n` or `\r`) becomes one space.
    pub fn insert_str(&mut self, s: &str)
        ensures
            final(self)@.0 == old(self)@.0.subrange(0, old(self)@.1 as int) + pasted(s@)
                + old(self)@.0.subrange(old(self)@.1 as int, old(self)@.0.len() as int),
            final(self)@.1 == old(self)@.1 + pasted(s@).len(),
            final(self)@.2 == old(self)@.2,
            well_formed(final(self)@),
    {
        proof {
            use_type_invariant(&*self);
        }
        let src = crate::text::chars_of(s);
        let flat = flatten_breaks(&src);
        let k = self.cursor;
        let head = sub_vec(&self.chars, 0, k);
        let tail = sub_vec(&self.chars, k, self.chars.len());
        let with_paste = concat(&head, &flat);
        let chars = concat(&with_paste, &tail);
        let offset = self.offset;
        let cursor = with_paste.len();
        *self = Self::build(chars, cursor, offset);
    }

    pub fn backspace(&mut self)
        ensures
            (final(self)@.0, final(self)@.1) == after_backspace(old(self)@.0, old(self)@.1),
            final(self)@.2 == old(self)@.2,
            well_formed(final(self)@),
    {
        proof {
            use_type_invariant(&*self);
        }
        if self.cursor == 0 {
            return;
        }
        let k = self.cursor - 1;
        let head = sub_vec(&self.chars, 0, k);
        let tail = sub_vec(&self.chars, k + 1, self.chars.len());
        let chars = concat(&head, &tail);
        assert(chars@ =~= self.chars@.remove(k as int));
        let offset = self.offset;
        *self = Self::build(chars, k, offset);
    }

    pub fn delete(&mut self)
        ensures
            final(self)@.0 == after_delete(old(self)@.0, old(self)@.1),
            final(self)@.1 == old(self)@.1,
            final(self)@.2 == old(self)@.2,
            well_formed(final(self)@),
    {
        proof {
            use_type_invariant(&*self);
        }
        if self.cursor < self.chars.len() {
            let k = self.cursor;
            let head = sub_vec(&self.chars, 0, k);
            let tail = sub_vec(&self.chars, k + 1, self.chars.len());
            let chars = concat(&head, &tail);
            assert(chars@ =~= self.chars@.remove(k as int));
            let offset = self.offset;
            *self = Self::build(chars, k, offset);
        }
    }

    pub fn left(&mut self)
        ensures
            final(self)@.0 == old(self)@.0,
            final(self)@.1 == (if old(self)@.1 > 0 {
                (old(self)@.1 - 1) as nat
            } else {
                0nat
            }),
            final(self)@.2 == old(self)@.2,
            well_formed(final(self)@),
    {
        proof {
            use_type_invariant(&*self);
        }
        if self.cursor > 0 {
            self.cursor = self.cursor - 1;
        }
    }

    pub fn right(&mut self)
        ensures
            final(self)@.0 == old(self)@.0,
            final(self)@.1 == (if old(self)@.1 < old(self)@.0.len() {
                old(self)@.1 + 1
            } else {
                old(self)@.0.len()
            }),
            final(self)@.2 == old(self)@.2,
            well_formed(final(self)@),
    {
        proof {
            use_type_invariant(&*self);
        }
        if self.cursor < self.chars.len() {
            self.cursor = self.cursor + 1;
        }
    }

    pub fn home(&mut self)
        ensures
            final(self)@ == (old(self)@.0, 0nat, old(self)@.2),
    {
        proof {
            use_type_invariant(&*self);
        }
        self.cursor = 0;
    }

    pub fn end(&mut self)
        ensures
            final(self)@ == (old(self)@.0, old(self)@.0.len(), old(self)@.2),
    {
        proof {
            use_type_invariant(&*self);
        }
        self.cursor = self.chars.len();
    }

    pub fn word_left(&mut self)
        ensures
            final(self)@ == (old(self)@.0, word_start(old(self)@.0, old(self)@.1) as nat, old(
                self,
            )@.2),
            well_formed(final(self)@),
    {
        proof {
            use_type_invariant(&*self);
        }
        let start = self.word_start();
        self.cursor = start;
    }

    pub fn word_right(&mut self)
        ensures
            final(self)@ == (old(self)@.0, word_end(old(self)@.0, old(self)@.1) as nat, old(
                self,
            )@.2),
            well_formed(final(self)@),
    {
        proof {
            use_type_invariant(&*self);
        }
        let ghost t = self.chars@;
        let mut i = self.cursor;
        proof {
            lemma_skip_ws_fwd(t, i as int);
        }
        while i < self.chars.len() && is_whitespace(self.chars[i])
            invariant
                i <= self.chars@.len(),
                t == self.chars@,
                skip_ws_fwd(t, self.cursor as int) == skip_ws_fwd(t, i as int),
            decreases self.chars@.len() - i,
        {
            i += 1;
        }
        let ghost mid = i;
        proof {
            lemma_skip_word_fwd(t, i as int);
        }
        while i < self.chars.len() && !is_whitespace(self.chars[i])
            invariant
                i <= self.chars@.len(),
                t == self.chars@,
                mid <= i,
                skip_ws_fwd(t, self.cursor as int) == mid,
                skip_word_fwd(t, mid as int) == skip_word_fwd(t, i as int),
            decreases self.chars@.len() - i,
        {
            i += 1;
        }
        self.cursor = i;
    }

    pub fn delete_word_back(&mut self)
        ensures
            final(self)@.0 == old(self)@.0.subrange(0, word_start(old(self)@.0, old(self)@.1))
                + old(self)@.0.subrange(old(self)@.1 as int, old(self)@.0.len() as int),
            final(self)@.1 == word_start(old(self)@.0, old(self)@.1),
            final(self)@.2 == old(self)@.2,
            well_formed(final(self)@),
    {
        proof {
            use_type_invariant(&*self);
        }
        let start = self.word_start();
        let head = sub_vec(&self.chars, 0, start);
        let tail = sub_vec(&self.chars, self.cursor, self.chars.len());
        let chars = concat(&head, &tail);
        let offset = self.offset;
        *self = Self::build(chars, start, offset);
    }

    pub fn kill_to_start(&mut self)
        ensures
            final(self)@ == (old(self)@.0.subrange(old(self)@.1 as int, old(self)@.0.len() as int),
            0nat, old(self)@.2),
    {
        proof {
            use_type_invariant(&*self);
        }
        let chars = sub_vec(&self.chars, self.cursor, self.chars.len());
        let offset = self.offset;
        *self = Self::build(chars, 0, offset);
    }

    pub fn kill_to_end(&mut self)
        ensures
            final(self)@ == (old(self)@.0.subrange(0, old(self)@.1 as int), old(self)@.1, old(
                self,
            )@.2),
    {
        proof {
            use_type_invariant(&*self);
        }
        let chars = sub_vec(&self.chars, 0, self.cursor);
        let cursor = self.cursor;
        let offset = self.offset;
        *self = Self::build(chars, cursor, offset);
    }

    /// The slice of the query that fits in the input box, and the cursor's
    /// column within it.
    ///
    /// The window follows the cursor in both directions: it scrolls left once
    /// the cursor walks off the left edge and right once it passes the right
    /// one. The offset is remembered rather than recomputed from the cursor,
    /// or the text would jump around under a cursor sitting still. One column
    /// is held back for the cursor itself, or it would sit on the border.
    pub fn visible(&mut self, inner_width: u16) -> (r: (String, u16))
        ensures
            final(self)@.0 == old(self)@.0,
            final(self)@.1 == old(self)@.1,
            room(inner_width) == 0 ==> final(self)@.2 == 0 && r.0@.len() == 0 && r.1 == 0,
            room(inner_width) > 0 ==> final(self)@.2 == window(
                old(self)@.0.len(),
                old(self)@.1,
                old(self)@.2,
                room(inner_width),
            ),
            room(inner_width) > 0 ==> r.0@ == old(self)@.0.subrange(
                final(self)@.2 as int,
                if final(self)@.2 + room(inner_width) <= old(self)@.0.len() {
                    (final(self)@.2 + room(inner_width)) as int
                } else {
                    old(self)@.0.len() as int
                },
            ),
            room(inner_width) > 0 ==> final(self)@.2 <= final(self)@.1 <= final(self)@.2 + room(
                inner_width,
            ),
            room(inner_width) > 0 ==> r.1 == final(self)@.1 - final(self)@.2,
            r.1 <= inner_width,
            r.0@.len() <= inner_width,
            well_formed(final(self)@),
    {
        proof {
            use_type_invariant(&*self);
        }
        let room: usize = if inner_width >= 1 {
            (inner_width - 1) as usize
        } else {
            0
        };
        if room == 0 {
            self.offset = 0;
            return (String::new(), 0);
        }
        let len = self.len();
        let limit = if len >= room {
            len - room
        } else {
            0
        };
        let mut offset = if self.offset <= limit {
            self.offset
        } else {
            limit
        };
        if self.cursor < offset {
            offset = self.cursor;
        }
        if self.cursor > offset + room {
            offset = self.cursor - room;
        }
        self.offset = offset;
        let end = if offset + room <= len {
            offset + room
        } else {
            len
        };
        let shown = sub_vec(&self.chars, offset, end);
        (string_of(&shown), (self.cursor - offset) as u16)
    }

    fn len(&self) -> (r: usize)
        ensures
            r == self@.0.len(),
    {
        self.chars.len()
    }

    /// Where the word to the left of the cursor begins.
    fn word_start(&self) -> (r: usize)
        ensures
            r == word_start(self@.0, self@.1),
            r <= self@.1,
    {
        proof {
            use_type_invariant(self);
        }
        let ghost t = self.chars@;
        let mut i = self.cursor;
        proof {
            lemma_skip_ws_back(t, i as int);
        }
        while i > 0 && is_whitespace(self.chars[i - 1])
            invariant
                i <= self.cursor,
                self.cursor <= self.chars@.len(),
                t == self.chars@,
                skip_ws_back(t, self.cursor as int) == skip_ws_back(t, i as int),
            decreases i,
        {
            i -= 1;
        }
        let ghost mid = i;
        while i > 0 && !is_whitespace(self.chars[i - 1])
            invariant
                i <= mid,
                mid <= self.cursor,
                self.cursor <= self.chars@.len(),
                t == self.chars@,
                skip_ws_back(t, self.cursor as int) == mid,
                skip_word_back(t, mid as int) == skip_word_back(t, i as int),
            decreases i,
        {
            i -= 1;
        }
        i
    }
}

impl Default for LineEditor {
    fn default() -> (r: Self)
        ensures
            r@ == (Seq::<char>::empty(), 0nat, 0nat),
    {
        Self::build(Vec::new(), 0, 0)
    }
}

/// Pasted text as it goes into the query: `\r\n`, `\n` and `\r` each become
/// one space, everything else stays.
pub open spec fn pasted(s: Seq<char>) -> Seq<char>
    decreases s.len(),
{
    if s.len() == 0 {
        s
    } else if s.len() >= 2 && s[0] == '\r' && s[1] == '\n' {
        seq![' '] + pasted(s.skip(2))
    } else if s[0] == '\r' || s[0] == '\n' {
        seq![' '] + pasted(s.drop_first())
    } else {
        seq![s[0]] + pasted(s.drop_first())
    }
}

fn flatten_breaks(s: &Vec<char>) -> (r: Vec<char>)
    ensures
        r@ == pasted(s@),
{
    let mut r: Vec<char> = Vec::new();
    let mut i: usize = 0;
    assert(s@.skip(0) =~= s@);
    assert(r@ + pasted(s@.skip(0)) =~= pasted(s@));
    while i < s.len()
        invariant
            i <= s.len(),
            r@ + pasted(s@.skip(i as int)) == pasted(s@),
        decreases s.len() - i,
    {
        let ghost rest = s@.skip(i as int);
        if s[i] == '\r' && i + 1 < s.len() && s[i + 1] == '\n' {
            r.push(' ');
            i += 2;
            assert(rest.skip(2) =~= s@.skip(i as int));
        } else if s[i] == '\r' || s[i] == '\n' {
            r.push(' ');
            i += 1;
            assert(rest.drop_first() =~= s@.skip(i as int));
        } else {
            r.push(s[i]);
            i += 1;
            assert(rest.drop_first() =~= s@.skip(i as int));
        }
        assert(r@ + pasted(s@.skip(i as int)) =~= pasted(s@));
    }
    assert(s@.skip(i as int) =~= Seq::<char>::empty());
    assert(r@ + pasted(s@.skip(i as int)) =~= r@);
    r
}

// ---------------------------------------------------------------------------
// Laws
// ---------------------------------------------------------------------------

/// A backspace right after typing a character undoes it: the text and the
/// cursor are back where they were.
pub proof fn lemma_backspace_undoes_insert(t: Seq<char>, k: nat, c: char)
    requires
        k <= t.len(),
    ensures
        after_backspace(after_insert(t, k, c).0, after_insert(t, k, c).1) == (t, k),
{
    let ins = t.insert(k as int, c);
    assert(ins.remove(k as int) =~= t);
}

/// Killing to the start and killing to the end split the text at the cursor:
/// what each leaves, put back together, is the whole text.
pub proof fn lemma_kills_split_at_cursor(t: Seq<char>, k: nat)
    requires
        k <= t.len(),
    ensures
        t.subrange(0, k as int) + t.subrange(k as int, t.len() as int) == t,
{
    assert(t.subrange(0, k as int) + t.subrange(k as int, t.len() as int) =~= t);
}

/// Word movements never leave the text: `word_left` lands at or before the
/// cursor, `word_right` at or after it, both within the text.
pub proof fn lemma_word_moves_stay_in_text(t: Seq<char>, k: nat)
    requires
        k <= t.len(),
    ensures
        0 <= word_start(t, k) <= k,
        k <= word_end(t, k) <= t.len(),
{
    lemma_skip_ws_back(t, k as int);
    lemma_skip_word_back(t, skip_ws_back(t, k as int));
    lemma_skip_ws_fwd(t, k as int);
    lemma_skip_word_fwd(t, skip_ws_fwd(t, k as int));
}

/// The window stays put while the cursor moves inside it: an offset that is
/// already inside the text and shows the cursor is left as it is.
pub proof fn lemma_window_stays_put(len: nat, cursor: nat, offset: nat, room: nat)
    requires
        offset + room <= len || offset == 0,
        offset <= cursor <= offset + room,
    ensures
        window(len, cursor, offset, room) == offset,
{
}

/// Pasted text stays on one line: every line break in it becomes a space.
pub proof fn lemma_paste_is_one_line(s: Seq<char>)
    ensures
        !pasted(s).contains('\n'),
        !pasted(s).contains('\r'),
    decreases s.len(),
{
    if s.len() > 0 {
        let rest = if s.len() >= 2 && s[0] == '\r' && s[1] == '\n' {
            s.skip(2)
        } else {
            s.drop_first()
        };
        lemma_paste_is_one_line(rest);
        let head = if s.len() >= 2 && s[0] == '\r' && s[1] == '\n' {
            ' '
        } else if s[0] == '\r' || s[0] == '\n' {
            ' '
        } else {
            s[0]
        };
        assert(pasted(s) == seq![head] + pasted(rest));
        assert forall|k: int| 0 <= k < pasted(s).len() implies pasted(s)[k] != '\n' && pasted(s)[k]
            != '\r' by {
            if k > 0 {
                assert(pasted(s)[k] == pasted(rest)[k - 1]);
                if pasted(rest)[k - 1] == '\n' || pasted(rest)[k - 1] == '\r' {
                    assert(pasted(rest).contains(pasted(rest)[k - 1]));
                }
            }
        }
    }
}

} // verus!
