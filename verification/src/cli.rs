//! What the menu of a session decides: which entry a line chooses, and how
//! a post is drafted from the lines that are entered.

use crate::models::Post;
use crate::text::{chars_of, line_spans, lines_of, pieces, trim, trim_bounds, trimmed};
use vstd::prelude::*;

verus! {

/// An entry of the main menu.
#[derive(Clone, Copy, Debug, PartialEq, Eq, Structural)]
pub enum MenuChoice {
    CreatePost,
    ViewMyPosts,
    ViewAllPosts,
    Profile,
    Exit,
}

/// The entry that a line chooses: trimmed, it is one of the digits 1 to 5.
pub open spec fn choice_of(line: Seq<char>) -> Option<MenuChoice> {
    let entry = trimmed(line);
    if entry == seq!['1'] {
        Some(MenuChoice::CreatePost)
    } else if entry == seq!['2'] {
        Some(MenuChoice::ViewMyPosts)
    } else if entry == seq!['3'] {
        Some(MenuChoice::ViewAllPosts)
    } else if entry == seq!['4'] {
        Some(MenuChoice::Profile)
    } else if entry == seq!['5'] {
        Some(MenuChoice::Exit)
    } else {
        None
    }
}

/// The entry that `line` chooses, if any.
pub fn parse_choice(line: &str) -> (r: Option<MenuChoice>)
    ensures
        r == choice_of(line@),
{
    let v = chars_of(line);
    let (from, to) = trim_bounds(&v);
    if to - from != 1 {
        assert(seq!['1'].len() == 1 && seq!['2'].len() == 1 && seq!['3'].len() == 1 && seq![
            '4',
        ].len() == 1 && seq!['5'].len() == 1);
        return None;
    }
    let c: char = v[from];
    assert(trimmed(line@) =~= seq![c]);
    assert(seq!['1'][0] == '1' && seq!['2'][0] == '2' && seq!['3'][0] == '3' && seq!['4'][0] == '4'
        && seq!['5'][0] == '5');
    if c == '1' {
        Some(MenuChoice::CreatePost)
    } else if c == '2' {
        Some(MenuChoice::ViewMyPosts)
    } else if c == '3' {
        Some(MenuChoice::ViewAllPosts)
    } else if c == '4' {
        Some(MenuChoice::Profile)
    } else if c == '5' {
        Some(MenuChoice::Exit)
    } else {
        None
    }
}

/// Why a draft is no post.
#[derive(Clone, Copy, Debug, PartialEq, Eq, Structural)]
pub enum DraftError {
    /// The title is empty.
    EmptyTitle,
    /// The content is empty.
    EmptyContent,
}

/// The number of lines after which a long post is shown with line numbers.
pub const NUMBERED_ABOVE: usize = 20;

/// The number of lines after each of which progress is reported.
pub const PROGRESS_EVERY: usize = 10;

/// A post as it is being written: its title, and the lines entered so far.
#[derive(Clone, Debug, PartialEq, Eq)]
pub struct PostDraft {
    pub title: String,
    pub content: String,
    pub lines: usize,
}

/// A draft, as mathematical values.
pub struct DraftView {
    pub title: Seq<char>,
    pub content: Seq<char>,
    pub lines: nat,
}

impl View for PostDraft {
    type V = DraftView;

    open spec fn view(&self) -> DraftView {
        DraftView { title: self.title@, content: self.content@, lines: self.lines as nat }
    }
}

/// Whether a line ends the content: trimmed, it is a single full stop.
pub open spec fn ends_content(line: Seq<char>) -> bool {
    trimmed(line) == seq!['.']
}

/// The number of lines after one more, which stops at the largest number.
pub open spec fn one_more(lines: nat) -> nat {
    if lines < usize::MAX {
        lines + 1
    } else {
        lines
    }
}

/// Whether a text is shown with line numbers: it has more than twenty
/// lines.
pub open spec fn is_numbered(content: Seq<char>) -> bool {
    lines_of(content).len() > NUMBERED_ABOVE
}

/// Whether `line` ends the content of a draft.
pub fn is_terminator(line: &str) -> (r: bool)
    ensures
        r == ends_content(line@),
{
    let v = chars_of(line);
    let (from, to) = trim_bounds(&v);
    if to - from == 1 {
        assert(trimmed(line@) =~= seq![v@[from as int]]);
        assert(seq!['.'][0] == '.');
        v[from] == '.'
    } else {
        assert(seq!['.'].len() == 1);
        false
    }
}

/// Whether `content` is shown with line numbers.
pub fn shows_line_numbers(content: &str) -> (r: bool)
    ensures
        r == is_numbered(content@),
{
    let v = chars_of(content);
    let spans = line_spans(&v);
    assert(pieces(v@, spans@).len() == spans@.len());
    spans.len() > NUMBERED_ABOVE
}

impl PostDraft {
    /// A draft with the title that `title_line` gives, trimmed, and no
    /// content yet; `EmptyTitle` where that title is empty.
    pub fn start(title_line: &str) -> (r: Result<PostDraft, DraftError>)
        ensures
            match r {
                Ok(draft) => trimmed(title_line@).len() > 0 && draft@ == (DraftView {
                    title: trimmed(title_line@),
                    content: Seq::empty(),
                    lines: 0,
                }),
                Err(error) => error == DraftError::EmptyTitle && trimmed(title_line@).len() == 0,
            },
    {
        let title = trim(title_line);
        if title.is_empty() {
            Err(DraftError::EmptyTitle)
        } else {
            Ok(PostDraft { title: title.to_owned(), content: String::new(), lines: 0 })
        }
    }

    /// Adds a line, as it was entered, to the content. Returns the number of
    /// lines where progress is to be reported: after every tenth line.
    pub fn push_line(&mut self, line: &str) -> (progress: Option<usize>)
        ensures
            final(self)@ == (DraftView {
                title: old(self)@.title,
                content: old(self)@.content + line@,
                lines: one_more(old(self)@.lines),
            }),
            progress == if final(self).lines % PROGRESS_EVERY == 0 {
                Some(final(self).lines)
            } else {
                None
            },
    {
        self.content.append(line);
        if self.lines < usize::MAX {
            self.lines = self.lines + 1;
        }
        if self.lines % PROGRESS_EVERY == 0 {
            Some(self.lines)
        } else {
            None
        }
    }

    /// The post that the draft makes for the account `user_id`: with the
    /// draft's title and its content trimmed; `EmptyContent` where that
    /// content is empty.
    pub fn finish(self, user_id: i64) -> (r: Result<Post, DraftError>)
        ensures
            match r {
                Ok(post) => {
                    &&& trimmed(self@.content).len() > 0
                    &&& post.id is None
                    &&& post.user_id == user_id
                    &&& post.title@ == self@.title
                    &&& post.content@ == trimmed(self@.content)
                    &&& post.updated_at == post.created_at
                    &&& post.author_username is None
                },
                Err(error) => error == DraftError::EmptyContent && trimmed(self@.content).len()
                    == 0,
            },
    {
        let content = trim(self.content.as_str());
        if content.is_empty() {
            Err(DraftError::EmptyContent)
        } else {
            let body = content.to_owned();
            Ok(Post::new(user_id, self.title, body))
        }
    }
}

} // verus!
