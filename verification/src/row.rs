//! What a row shows, and the table in which the rows of a session stand.

use vstd::prelude::*;
use crate::launcher::{opt_view, RowId};
use crate::text::{expand_keyword, expand_keyword_spec};

verus! {

/// The layout that a row is drawn with.
#[derive(Clone, Copy, PartialEq, Eq, Structural, Debug)]
pub enum TileKind {
    App,
    Web,
    Calc,
    Clipboard,
    BulkText,
    Event,
    Mpris,
    Process,
    Weather,
}

/// What one row shows.
pub struct SherlockRow {
    pub kind: TileKind,
    pub spawn_focus: bool,
    pub shortcut: bool,
    pub title: String,
    pub category: Option<String>,
    pub icon: String,
    pub tag_start: Option<String>,
    pub tag_end: Option<String>,
    pub body: String,
}

/// What one row shows, with its strings as sequences of characters.
pub struct SherlockRowView {
    pub kind: TileKind,
    pub spawn_focus: bool,
    pub shortcut: bool,
    pub title: Seq<char>,
    pub category: Option<Seq<char>>,
    pub icon: Seq<char>,
    pub tag_start: Option<Seq<char>>,
    pub tag_end: Option<Seq<char>>,
    pub body: Seq<char>,
}

impl View for SherlockRow {
    type V = SherlockRowView;

    open spec fn view(&self) -> SherlockRowView {
        SherlockRowView {
            kind: self.kind,
            spawn_focus: self.spawn_focus,
            shortcut: self.shortcut,
            title: self.title@,
            category: opt_view(self.category),
            icon: self.icon@,
            tag_start: opt_view(self.tag_start),
            tag_end: opt_view(self.tag_end),
            body: self.body@,
        }
    }
}

/// The row of the layout `kind` that shows nothing yet.
pub open spec fn blank_row(kind: TileKind) -> SherlockRowView {
    SherlockRowView {
        kind,
        spawn_focus: false,
        shortcut: false,
        title: Seq::empty(),
        category: None,
        icon: Seq::empty(),
        tag_start: None,
        tag_end: None,
        body: Seq::empty(),
    }
}

/// What a tag shows for `keyword`: the template with the keyword filled in,
/// unless that is the empty text, which shows no tag, as no template does.
pub open spec fn tag_spec(content: Option<Seq<char>>, keyword: Seq<char>) -> Option<Seq<char>> {
    match content {
        Some(template) => {
            let text = expand_keyword_spec(template, keyword);
            if text.len() > 0 {
                Some(text)
            } else {
                None
            }
        },
        None => None,
    }
}

/// The text of a tag for `keyword`, where the tag is to be shown.
pub fn render_tag(content: &Option<String>, keyword: &str) -> (r: Option<String>)
    ensures
        opt_view(r) == tag_spec(opt_view(*content), keyword@),
{
    match content {
        Some(template) => {
            let text = expand_keyword(template.as_str(), keyword);
            if !text.as_str().is_empty() {
                Some(text)
            } else {
                None
            }
        },
        None => None,
    }
}

impl SherlockRow {
    /// A row of the layout `kind` that shows nothing yet.
    pub fn new(kind: TileKind) -> (r: SherlockRow)
        ensures
            r@ == blank_row(kind),
    {
        SherlockRow {
            kind,
            spawn_focus: false,
            shortcut: false,
            title: String::new(),
            category: None,
            icon: String::new(),
            tag_start: None,
            tag_end: None,
            body: String::new(),
        }
    }

    /// Sets whether the row takes the focus when it comes up.
    pub fn set_spawn_focus(&mut self, focus: bool)
        ensures
            final(self)@ == (SherlockRowView { spawn_focus: focus, ..old(self)@ }),
    {
        self.spawn_focus = focus;
    }

    /// Sets whether the row takes part in the numbering of shortcuts.
    pub fn set_shortcut(&mut self, shortcut: bool)
        ensures
            final(self)@ == (SherlockRowView { shortcut, ..old(self)@ }),
    {
        self.shortcut = shortcut;
    }
}

/// A row in the making.
pub struct TileBuilder {
    pub object: SherlockRow,
}

impl TileBuilder {
    /// Starts a row of the layout `kind`.
    pub fn new(kind: TileKind) -> (r: TileBuilder)
        ensures
            r.object@ == blank_row(kind),
    {
        TileBuilder { object: SherlockRow::new(kind) }
    }

    /// Shows the start tag that `content` gives for `keyword`. Where that is
    /// no tag the row stays as it is.
    pub fn display_tag_start(&mut self, content: &Option<String>, keyword: &str)
        ensures
            final(self).object@ == match tag_spec(opt_view(*content), keyword@) {
                Some(text) => (SherlockRowView { tag_start: Some(text), ..old(self).object@ }),
                None => old(self).object@,
            },
    {
        match render_tag(content, keyword) {
            Some(text) => {
                self.object.tag_start = Some(text);
            },
            None => {},
        }
    }

    /// Shows the end tag that `content` gives for `keyword`. Where that is no
    /// tag the row stays as it is.
    pub fn display_tag_end(&mut self, content: &Option<String>, keyword: &str)
        ensures
            final(self).object@ == match tag_spec(opt_view(*content), keyword@) {
                Some(text) => (SherlockRowView { tag_end: Some(text), ..old(self).object@ }),
                None => old(self).object@,
            },
    {
        match render_tag(content, keyword) {
            Some(text) => {
                self.object.tag_end = Some(text);
            },
            None => {},
        }
    }
}

/// The rows of a session, each under the name that it was given when it was
/// added: its index.
pub struct RowTable {
    pub rows: Vec<SherlockRow>,
}

/// The views of the rows of a list, in order.
pub open spec fn rows_view(rows: Seq<SherlockRow>) -> Seq<SherlockRowView> {
    Seq::new(rows.len(), |i: int| rows[i]@)
}

impl View for RowTable {
    type V = Seq<SherlockRowView>;

    open spec fn view(&self) -> Seq<SherlockRowView> {
        rows_view(self.rows@)
    }
}

impl RowTable {
    /// The table without rows.
    pub fn new() -> (r: RowTable)
        ensures
            r@ == Seq::<SherlockRowView>::empty(),
    {
        let r = RowTable { rows: Vec::new() };
        r
    }

    /// The number of rows.
    pub fn len(&self) -> (n: usize)
        ensures
            n == self@.len(),
    {
        self.rows.len()
    }

    /// Adds a row and names it.
    pub fn add(&mut self, row: SherlockRow) -> (id: RowId)
        ensures
            id == old(self)@.len(),
            final(self)@ == old(self)@.push(row@),
    {
        let id = self.rows.len();
        self.rows.push(row);
        id
    }

    /// The row named `id`.
    pub fn get(&self, id: RowId) -> (r: Option<&SherlockRow>)
        ensures
            match r {
                Some(row) => id < self@.len() && row@ == self@[id as int],
                None => id >= self@.len(),
            },
    {
        if id < self.rows.len() {
            Some(&self.rows[id])
        } else {
            None
        }
    }
}

} // verus!
