use vstd::prelude::*;

use crate::chars::push_char;

verus! {

/// The pieces of `s` between newlines, in order; the piece after the last
/// newline is kept even when it is empty, so there is always one more piece
/// than there are newlines.
pub open spec fn pieces(s: Seq<char>) -> Seq<Seq<char>>
    decreases s.len(),
{
    if s.len() == 0 {
        seq![Seq::<char>::empty()]
    } else {
        let p = pieces(s.drop_last());
        if s.last() == '\n' {
            p.push(Seq::<char>::empty())
        } else {
            p.update(p.len() - 1, p.last().push(s.last()))
        }
    }
}

/// A line that ended in "\r\n" loses its carriage return.
pub open spec fn strip_cr(l: Seq<char>) -> Seq<char> {
    if l.len() > 0 && l.last() == '\r' {
        l.drop_last()
    } else {
        l
    }
}

/// The lines of `s`: every piece that a newline ends, without a carriage
/// return before that newline, and then the piece after the last newline
/// unless it is empty. An empty text has no lines.
pub open spec fn lines_of(s: Seq<char>) -> Seq<Seq<char>> {
    let p = pieces(s);
    let ended = p.drop_last().map_values(|l: Seq<char>| strip_cr(l));
    if p.last().len() == 0 {
        ended
    } else {
        ended.push(p.last())
    }
}

pub proof fn lemma_pieces_len(s: Seq<char>)
    ensures
        pieces(s).len() >= 1,
    decreases s.len(),
{
    if s.len() > 0 {
        lemma_pieces_len(s.drop_last());
    }
}

/// Taking one more character of `s` extends the pieces of the prefix by it.
proof fn lemma_pieces_step(s: Seq<char>, i: int)
    requires
        0 <= i < s.len(),
    ensures
        pieces(s.take(i + 1)) == (if s[i] == '\n' {
            pieces(s.take(i)).push(Seq::<char>::empty())
        } else {
            pieces(s.take(i)).update(
                pieces(s.take(i)).len() - 1,
                pieces(s.take(i)).last().push(s[i]),
            )
        }),
{
    assert(s.take(i + 1).drop_last() =~= s.take(i));
}

/// Counts the lines of `s` as `lines_of` defines them.
pub fn count_lines(s: &str) -> (r: usize)
    ensures
        r == lines_of(s@).len(),
{
    let total = s.unicode_len();
    let mut newlines: usize = 0;
    let mut open = false;
    proof {
        assert(s@.take(0) =~= Seq::<char>::empty());
    }
    for c in it: s.chars()
        invariant
            total == s@.len(),
            it.seq() == s@,
            newlines + (if open { 1int } else { 0int }) <= it.index(),
            pieces(s@.take(it.index())).len() == newlines + 1,
            open == (pieces(s@.take(it.index())).last().len() > 0),
    {
        proof {
            lemma_pieces_len(s@.take(it.index()));
            lemma_pieces_step(s@, it.index());
        }
        if c == '\n' {
            newlines = newlines + 1;
            open = false;
        } else {
            open = true;
        }
    }
    proof {
        assert(s@.take(s@.len() as int) =~= s@);
    }
    if open {
        newlines + 1
    } else {
        newlines
    }
}

/// `s` with every horizontal tab replaced by four spaces.
pub open spec fn expand_tabs(s: Seq<char>) -> Seq<char>
    decreases s.len(),
{
    if s.len() == 0 {
        Seq::<char>::empty()
    } else {
        expand_tabs(s.drop_last()) + (if s.last() == '\t' {
            seq![' ', ' ', ' ', ' ']
        } else {
            seq![s.last()]
        })
    }
}

/// The lines joined with a newline between each two of them.
pub open spec fn join_lines(ls: Seq<Seq<char>>) -> Seq<char>
    decreases ls.len(),
{
    if ls.len() == 0 {
        Seq::<char>::empty()
    } else if ls.len() == 1 {
        ls[0]
    } else {
        join_lines(ls.drop_last()) + seq!['\n'] + ls.last()
    }
}

/// Replaces every tab of `raw` by four spaces.
pub fn expand_tab_chars(raw: &str) -> (r: String)
    ensures
        r@ == expand_tabs(raw@),
{
    let mut r = String::new();
    proof {
        assert(raw@.take(0) =~= Seq::<char>::empty());
    }
    for c in it: raw.chars()
        invariant
            it.seq() == raw@,
            r@ == expand_tabs(raw@.take(it.index())),
    {
        proof {
            assert(raw@.take(it.index() + 1).drop_last() =~= raw@.take(it.index()));
        }
        if c == '\t' {
            push_char(&mut r, ' ');
            push_char(&mut r, ' ');
            push_char(&mut r, ' ');
            push_char(&mut r, ' ');
            proof {
                assert(r@ =~= expand_tabs(raw@.take(it.index() + 1)));
            }
        } else {
            push_char(&mut r, c);
            proof {
                assert(r@ =~= expand_tabs(raw@.take(it.index() + 1)));
            }
        }
    }
    proof {
        assert(raw@.take(raw@.len() as int) =~= raw@);
    }
    r
}

/// Splits `s` into the pieces that newlines end and the piece after the last
/// newline.
fn split_pieces(s: &str) -> (r: (Vec<Vec<char>>, Vec<char>))
    ensures
        pieces(s@) == r.0@.map_values(|v: Vec<char>| v@).push(r.1@),
{
    let mut ended: Vec<Vec<char>> = Vec::new();
    let mut cur: Vec<char> = Vec::new();
    proof {
        assert(s@.take(0) =~= Seq::<char>::empty());
        assert(pieces(Seq::<char>::empty()) =~= ended@.map_values(|v: Vec<char>| v@).push(cur@));
    }
    for c in it: s.chars()
        invariant
            it.seq() == s@,
            pieces(s@.take(it.index())) == ended@.map_values(|v: Vec<char>| v@).push(cur@),
    {
        proof {
            lemma_pieces_step(s@, it.index());
        }
        if c == '\n' {
            let done = cur;
            ended.push(done);
            cur = Vec::new();
            proof {
                assert(pieces(s@.take(it.index() + 1)) =~= ended@.map_values(
                    |v: Vec<char>| v@,
                ).push(cur@));
            }
        } else {
            cur.push(c);
            proof {
                assert(pieces(s@.take(it.index() + 1)) =~= ended@.map_values(
                    |v: Vec<char>| v@,
                ).push(cur@));
            }
        }
    }
    proof {
        assert(s@.take(s@.len() as int) =~= s@);
    }
    (ended, cur)
}

/// The text shown in the content pane, with a cursor line, a scroll offset,
/// the height of the visible window and the anchor of a selection.
#[derive(Debug)]
pub struct ContentState {
    pub text: Option<String>,
    pub scroll: u16,
    pub cursor: usize,
    pub visual_anchor: Option<usize>,
    /// Number of text rows inside the pane's border, set by each render before
    /// any input is handled.
    pub viewport_height: u16,
}

impl ContentState {
    /// The lines of the loaded text; none before any text is loaded.
    pub open spec fn text_lines(&self) -> Seq<Seq<char>> {
        match self.text {
            Some(t) => lines_of(t@),
            None => Seq::<Seq<char>>::empty(),
        }
    }

    pub open spec fn last_line(&self) -> int {
        if self.text_lines().len() == 0 {
            0
        } else {
            self.text_lines().len() - 1
        }
    }

    /// The scroll offset that keeps line `c` inside the window: unchanged when
    /// it is already visible, else the least change that shows it.
    pub open spec fn scroll_for(&self, c: int) -> int {
        let vh = self.viewport_height as int;
        if c < self.scroll {
            c
        } else if vh > 0 && c >= self.scroll + vh {
            if c - vh + 1 <= u16::MAX {
                c - vh + 1
            } else {
                u16::MAX as int
            }
        } else {
            self.scroll as int
        }
    }

    /// The state with the cursor on line `c` and the window scrolled to it.
    pub open spec fn moved_to(self, c: int) -> ContentState {
        ContentState { cursor: c as usize, scroll: self.scroll_for(c) as u16, ..self }
    }

    pub open spec fn after_down(self) -> ContentState {
        self.moved_to(if self.cursor < self.last_line() { self.cursor + 1 } else { self.cursor as int })
    }

    pub open spec fn after_up(self) -> ContentState {
        self.moved_to(if self.cursor == 0 { 0 } else { self.cursor - 1 })
    }

    /// One page is the window height, or one line while the window is empty.
    pub open spec fn page(&self) -> int {
        if self.viewport_height == 0 {
            1
        } else {
            self.viewport_height as int
        }
    }

    pub open spec fn after_page_down(self) -> ContentState {
        let c = self.cursor + self.page();
        self.moved_to(if c <= self.last_line() { c } else { self.last_line() })
    }

    pub open spec fn after_page_up(self) -> ContentState {
        let c = self.cursor - self.page();
        self.moved_to(if c >= 0 { c } else { 0 })
    }

    /// The cursor is on a line of the text (line 0 when there is none) and,
    /// while the window has rows, inside the window.
    pub open spec fn cursor_in_view(&self) -> bool {
        &&& self.cursor <= self.last_line()
        &&& self.viewport_height > 0 ==> self.scroll <= self.cursor < self.scroll
            + self.viewport_height
    }

    /// The selection as (first line, last line), when an anchor is set.
    pub open spec fn spec_selection_range(&self) -> Option<(usize, usize)> {
        match self.visual_anchor {
            Some(a) => Some(
                (
                    if a <= self.cursor { a } else { self.cursor },
                    if a <= self.cursor { self.cursor } else { a },
                ),
            ),
            None => None,
        }
    }

    /// The selected lines joined by newlines; the last line of the selection
    /// is clamped to the last line of the text.
    pub open spec fn spec_selected_text(&self) -> Option<Seq<char>> {
        match self.spec_selection_range() {
            Some((start, end)) => {
                let ls = self.text_lines();
                if self.text is None || start >= ls.len() {
                    None
                } else {
                    let last = if end < ls.len() { end as int } else { ls.len() - 1 };
                    Some(join_lines(ls.subrange(start as int, last + 1)))
                }
            },
            None => None,
        }
    }

    /// An empty buffer: no text, cursor and scroll at 0, no selection.
    pub fn new() -> (r: ContentState)
        ensures
            r.text is None,
            r.scroll == 0,
            r.cursor == 0,
            r.visual_anchor is None,
            r.viewport_height == 0,
            r.cursor_in_view(),
    {
        ContentState { text: None, scroll: 0, cursor: 0, visual_anchor: None, viewport_height: 0 }
    }

    pub fn line_count(&self) -> (r: usize)
        ensures
            r == self.text_lines().len(),
    {
        match &self.text {
            Some(t) => count_lines(t.as_str()),
            None => 0,
        }
    }

    pub fn max_cursor(&self) -> (r: usize)
        ensures
            r == self.last_line(),
    {
        self.line_count().saturating_sub(1)
    }

    pub fn cursor_down(&mut self)
        ensures
            *final(self) == old(self).after_down(),
            old(self).cursor <= old(self).last_line() && old(self).text_lines().len() <= u16::MAX
                + 1 ==> final(self).cursor_in_view(),
    {
        if self.cursor < self.max_cursor() {
            self.cursor = self.cursor + 1;
        }
        self.ensure_cursor_visible();
    }

    pub fn cursor_up(&mut self)
        ensures
            *final(self) == old(self).after_up(),
            old(self).cursor <= old(self).last_line() && old(self).text_lines().len() <= u16::MAX
                + 1 ==> final(self).cursor_in_view(),
    {
        self.cursor = self.cursor.saturating_sub(1);
        self.ensure_cursor_visible();
    }

    pub fn cursor_page_down(&mut self)
        ensures
            *final(self) == old(self).after_page_down(),
            old(self).cursor <= old(self).last_line() && old(self).text_lines().len() <= u16::MAX
                + 1 ==> final(self).cursor_in_view(),
    {
        let page: usize = if self.viewport_height == 0 {
            1
        } else {
            self.viewport_height as usize
        };
        let max = self.max_cursor();
        let c = self.cursor.saturating_add(page);
        self.cursor = if c <= max {
            c
        } else {
            max
        };
        self.ensure_cursor_visible();
    }

    pub fn cursor_page_up(&mut self)
        ensures
            *final(self) == old(self).after_page_up(),
            old(self).cursor <= old(self).last_line() && old(self).text_lines().len() <= u16::MAX
                + 1 ==> final(self).cursor_in_view(),
    {
        let page: usize = if self.viewport_height == 0 {
            1
        } else {
            self.viewport_height as usize
        };
        self.cursor = self.cursor.saturating_sub(page);
        self.ensure_cursor_visible();
    }

    /// Scrolls just enough to bring the cursor line into the window.
    pub fn ensure_cursor_visible(&mut self)
        ensures
            *final(self) == old(self).moved_to(old(self).cursor as int),
    {
        let scroll = self.scroll as usize;
        let vh = self.viewport_height as usize;
        if self.cursor < scroll {
            self.scroll = self.cursor as u16;
        } else if vh > 0 && self.cursor >= scroll + vh {
            let top = self.cursor - vh + 1;
            self.scroll = if top <= u16::MAX as usize {
                top as u16
            } else {
                u16::MAX
            };
        }
    }

    /// Loads new text with its tabs expanded to four spaces, and puts cursor,
    /// scroll and selection back at their start.
    pub fn load_text(&mut self, raw: String)
        ensures
            final(self).text matches Some(t) && t@ == expand_tabs(raw@),
            final(self).cursor == 0,
            final(self).scroll == 0,
            final(self).visual_anchor is None,
            final(self).viewport_height == old(self).viewport_height,
            final(self).cursor_in_view(),
    {
        let text = expand_tab_chars(raw.as_str());
        self.text = Some(text);
        self.scroll = 0;
        self.cursor = 0;
        self.visual_anchor = None;
    }

    pub fn selection_range(&self) -> (r: Option<(usize, usize)>)
        ensures
            r == self.spec_selection_range(),
            r matches Some((start, end)) ==> start <= end,
    {
        match self.visual_anchor {
            Some(anchor) => {
                if anchor <= self.cursor {
                    Some((anchor, self.cursor))
                } else {
                    Some((self.cursor, anchor))
                }
            },
            None => None,
        }
    }

    /// The selected lines joined by newlines, or `None` without a selection,
    /// without text, or when the selection starts past the last line.
    pub fn selected_text(&self) -> (r: Option<String>)
        ensures
            r matches Some(t) ==> self.spec_selected_text() == Some(t@),
            r is None ==> self.spec_selected_text() is None,
    {
        let (start, end) = match self.selection_range() {
            Some(range) => range,
            None => return None,
        };
        let text = match &self.text {
            Some(t) => t,
            None => return None,
        };
        let (ended, cur) = split_pieces(text.as_str());
        let ghost ls = self.text_lines();
        let n = count_lines(text.as_str());
        proof {
            assert(n == (if cur@.len() == 0 { ended.len() as int } else { ended.len() + 1 }));
        }
        if start >= n {
            return None;
        }
        let last = if end < n {
            end
        } else {
            n - 1
        };
        let mut out = String::new();
        let mut i = start;
        proof {
            assert(ls.subrange(start as int, start as int) =~= Seq::<Seq<char>>::empty());
        }
        while i <= last
            invariant
                start <= i <= last + 1,
                last < n,
                n == ls.len(),
                ls == lines_of(text@),
                pieces(text@) == ended@.map_values(|v: Vec<char>| v@).push(cur@),
                n == (if cur@.len() == 0 { ended.len() as int } else { ended.len() + 1 }),
                out@ == join_lines(ls.subrange(start as int, i as int)),
            decreases last + 1 - i,
        {
            if i > start {
                push_char(&mut out, '\n');
            }
            let ghost before = out@;
            if i < ended.len() {
                let line = &ended[i];
                let len = line.len();
                let mut j: usize = 0;
                let ghost stripped = strip_cr(line@);
                let keep = if len > 0 && line[len - 1] == '\r' {
                    len - 1
                } else {
                    len
                };
                proof {
                    assert(stripped =~= line@.take(keep as int));
                    assert(ls[i as int] == stripped);
                }
                while j < keep
                    invariant
                        j <= keep <= len,
                        len == line@.len(),
                        out@ == before + line@.take(j as int),
                    decreases keep - j,
                {
                    proof {
                        assert(line@.take(j + 1) =~= line@.take(j as int).push(line@[j as int]));
                    }
                    push_char(&mut out, line[j]);
                    j = j + 1;
                }
                proof {
                    assert(out@ =~= before + ls[i as int]);
                }
            } else {
                let mut j: usize = 0;
                proof {
                    assert(ls[i as int] == cur@);
                }
                while j < cur.len()
                    invariant
                        j <= cur.len(),
                        out@ == before + cur@.take(j as int),
                    decreases cur.len() - j,
                {
                    proof {
                        assert(cur@.take(j + 1) =~= cur@.take(j as int).push(cur@[j as int]));
                    }
                    push_char(&mut out, cur[j]);
                    j = j + 1;
                }
                proof {
                    assert(cur@.take(cur.len() as int) =~= cur@);
                }
            }
            proof {
                let sub = ls.subrange(start as int, i + 1);
                assert(sub.drop_last() =~= ls.subrange(start as int, i as int));
                if i > start {
                    assert(out@ =~= join_lines(sub));
                } else {
                    assert(out@ =~= join_lines(sub));
                }
            }
            i = i + 1;
        }
        Some(out)
    }
}

/// The state after a sequence of single-line moves, `true` for down and
/// `false` for up, applied from first to last.
pub open spec fn after_moves(s: ContentState, downs: Seq<bool>) -> ContentState
    decreases downs.len(),
{
    if downs.len() == 0 {
        s
    } else {
        let t = after_moves(s, downs.drop_last());
        if downs.last() {
            t.after_down()
        } else {
            t.after_up()
        }
    }
}

/// Line moves never take the cursor off the text nor out of the window: from a
/// state where the cursor is on a line, every sequence of `cursor_down` and
/// `cursor_up` leads to a state where it is on a line and inside the window
/// (each move scrolls to the cursor). The window
/// offset is a `u16`, so the text has at most 65536 lines.
pub proof fn lemma_moves_keep_cursor_in_view(s: ContentState, downs: Seq<bool>)
    requires
        s.cursor <= s.last_line(),
        s.text_lines().len() <= u16::MAX + 1,
    ensures
        downs.len() > 0 ==> after_moves(s, downs).cursor_in_view(),
        after_moves(s, downs).cursor <= s.last_line(),
        after_moves(s, downs).text == s.text,
        after_moves(s, downs).viewport_height == s.viewport_height,
    decreases downs.len(),
{
    if downs.len() > 0 {
        lemma_moves_keep_cursor_in_view(s, downs.drop_last());
    }
}

} // verus!
