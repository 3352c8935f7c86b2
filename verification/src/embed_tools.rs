//! Rich replies, and turning the pages of a reply that has several.

use vstd::prelude::*;
use crate::text::{decimal, u64_to_string};
use crate::types::{opt_view, views};

verus! {

/// One named entry of an embed.
#[derive(Debug, PartialEq, Eq)]
pub struct EmbedField {
    pub name: String,
    pub value: String,
    pub inline: bool,
}

/// What an [`EmbedField`] holds, as a mathematical value.
pub struct EmbedFieldView {
    pub name: Seq<char>,
    pub value: Seq<char>,
    pub inline: bool,
}

impl View for EmbedField {
    type V = EmbedFieldView;

    open spec fn view(&self) -> EmbedFieldView {
        EmbedFieldView { name: self.name@, value: self.value@, inline: self.inline }
    }
}

/// A rich reply: what the bot shows in a framed box.
#[derive(Debug, PartialEq, Eq)]
pub struct Embed {
    pub title: String,
    pub description: String,
    /// The address of the small picture in the corner, if there is one.
    pub thumbnail: Option<String>,
    pub fields: Vec<EmbedField>,
    /// The line under the box; empty for none.
    pub footer: String,
}

/// What an [`Embed`] holds, as a mathematical value.
pub struct EmbedView {
    pub title: Seq<char>,
    pub description: Seq<char>,
    pub thumbnail: Option<Seq<char>>,
    pub fields: Seq<EmbedFieldView>,
    pub footer: Seq<char>,
}

impl View for Embed {
    type V = EmbedView;

    open spec fn view(&self) -> EmbedView {
        EmbedView {
            title: self.title@,
            description: self.description@,
            thumbnail: opt_view(self.thumbnail),
            fields: views(self.fields@),
            footer: self.footer@,
        }
    }
}

/// A reply: plain text, an embed, or several embeds to page through.
#[derive(Debug, PartialEq, Eq)]
pub enum Reply {
    Text(String),
    Rich(Embed),
    Pages(Vec<Embed>),
}

/// What a [`Reply`] holds, as a mathematical value.
pub enum ReplyView {
    Text(Seq<char>),
    Rich(EmbedView),
    Pages(Seq<EmbedView>),
}

impl View for Reply {
    type V = ReplyView;

    open spec fn view(&self) -> ReplyView {
        match self {
            Reply::Text(t) => ReplyView::Text(t@),
            Reply::Rich(e) => ReplyView::Rich(e@),
            Reply::Pages(pages) => ReplyView::Pages(views(pages@)),
        }
    }
}

/// The two buttons under a reply of several pages.
#[derive(Debug, Clone, Copy, PartialEq, Eq, Structural)]
pub enum PageButton {
    Previous,
    Next,
}

/// Which page of a reply is shown. There is at least one page, and the page
/// shown is one of them.
#[derive(Debug, Clone, Copy, PartialEq, Eq, Structural)]
pub struct Pager {
    page: usize,
    last_page: usize,
}

impl Pager {
    /// The page shown is one of the pages.
    #[verifier::type_invariant]
    spec fn in_range(self) -> bool {
        self.page <= self.last_page
    }


    /// The index of the page shown, from zero.
    pub closed spec fn shown(self) -> nat {
        self.page as nat
    }

    /// The number of pages.
    pub closed spec fn pages(self) -> nat {
        (self.last_page + 1) as nat
    }

    /// The page shown after `button` was pressed: one back or one on, and the
    /// same page where there is none in that direction.
    pub open spec fn shown_after(self, button: PageButton) -> nat {
        match button {
            PageButton::Previous => if self.shown() == 0 {
                0
            } else {
                (self.shown() - 1) as nat
            },
            PageButton::Next => if self.shown() + 1 == self.pages() {
                self.shown()
            } else {
                self.shown() + 1
            },
        }
    }

    /// A pager on the first of `page_count` pages; none where there is no page.
    pub fn new(page_count: usize) -> (result: Option<Pager>)
        ensures
            page_count == 0 ==> result is None,
            page_count > 0 ==> (result matches Some(p) && p.shown() == 0 && p.pages()
                == page_count),
    {
        if page_count == 0 {
            None
        } else {
            Some(Pager { page: 0, last_page: page_count - 1 })
        }
    }

    /// The index of the page shown, from zero.
    pub fn page(&self) -> (result: usize)
        ensures
            result == self.shown(),
            result < self.pages(),
    {
        proof {
            use_type_invariant(self);
        }
        self.page
    }

    /// Turns the page as `button` asks.
    pub fn press(&mut self, button: PageButton)
        ensures
            final(self).pages() == old(self).pages(),
            final(self).shown() == old(self).shown_after(button),
    {
        proof {
            use_type_invariant(&*self);
        }
        match button {
            PageButton::Previous => {
                if self.page > 0 {
                    self.page = self.page - 1;
                }
            },
            PageButton::Next => {
                if self.page < self.last_page {
                    self.page = self.page + 1;
                }
            },
        }
    }

    /// Whether the button back is switched off: on the first page.
    pub fn prev_disabled(&self) -> (result: bool)
        ensures
            result == (self.shown() == 0),
    {
        self.page == 0
    }

    /// Whether the button on is switched off: on the last page.
    pub fn next_disabled(&self) -> (result: bool)
        ensures
            result == (self.shown() + 1 == self.pages()),
    {
        self.page == self.last_page
    }
}

/// The ids of the two buttons of the reply to the interaction `ctx_id`: the
/// id in decimal, followed by `prev` for the button back and by `next` for the
/// button on.
pub fn button_ids(ctx_id: u64) -> (ids: (String, String))
    ensures
        ids.0@ == decimal(ctx_id as nat) + "prev"@,
        ids.1@ == decimal(ctx_id as nat) + "next"@,
{
    let mut prev = u64_to_string(ctx_id);
    prev.append("prev");
    let mut next = u64_to_string(ctx_id);
    next.append("next");
    (prev, next)
}

/// Which button the pressed id `custom_id` is, given the id of the button
/// back: that button, and else the button on.
pub fn pressed_button(custom_id: &String, prev_button_id: &String) -> (result: PageButton)
    ensures
        result == if custom_id@ == prev_button_id@ {
            PageButton::Previous
        } else {
            PageButton::Next
        },
{
    if *custom_id == *prev_button_id {
        PageButton::Previous
    } else {
        PageButton::Next
    }
}

/// A pager over `embeds`, on the first of them.
pub fn paginate_with_embeds(embeds: &Vec<Embed>) -> (result: Option<Pager>)
    ensures
        embeds.len() == 0 ==> result is None,
        embeds.len() > 0 ==> (result matches Some(p) && p.shown() == 0 && p.pages()
            == embeds.len()),
{
    Pager::new(embeds.len())
}

/// A pager over `texts`, on the first of them.
pub fn paginate_with_text(texts: &Vec<String>) -> (result: Option<Pager>)
    ensures
        texts.len() == 0 ==> result is None,
        texts.len() > 0 ==> (result matches Some(p) && p.shown() == 0 && p.pages()
            == texts.len()),
{
    Pager::new(texts.len())
}

} // verus!
