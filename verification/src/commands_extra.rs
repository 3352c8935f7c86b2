//! Two small commands: a tag looked up in a list that the caller holds, and a
//! listing of the channels of a guild.

use vstd::prelude::*;
use crate::embed_tools::{Embed, EmbedView};
use crate::text::{decimal, u64_to_string};
use crate::types::{views, Tag, TagView};

verus! {

/// Whether `tags[i]` is the first tag called `name`.
pub open spec fn first_tag_at(tags: Seq<TagView>, name: Seq<char>, i: int) -> bool {
    &&& 0 <= i < tags.len()
    &&& tags[i].name == name
    &&& forall|j: int| 0 <= j < i ==> (#[trigger] tags[j]).name != name
}

/// The reply to a request for the tag `name`: the content of the first tag of
/// that name, or a sentence where there is none.
pub open spec fn tag_text(tags: Seq<TagView>, name: Seq<char>) -> Seq<char> {
    if exists|i: int| first_tag_at(tags, name, i) {
        tags[choose|i: int| first_tag_at(tags, name, i)].content
    } else {
        "Tag does not exist!"@
    }
}

/// The reply to a request for the tag `tag_name` among `tags`.
pub fn tag(tags: &Vec<Tag>, tag_name: &str) -> (reply: String)
    ensures
        reply@ == tag_text(views(tags@), tag_name@),
{
    let ghost all = views(tags@);
    let name = String::from_str(tag_name);
    let mut i: usize = 0;
    while i < tags.len()
        invariant
            i <= tags.len(),
            all == views(tags@),
            name@ == tag_name@,
            forall|j: int| 0 <= j < i ==> (#[trigger] all[j]).name != name@,
        decreases tags.len() - i,
    {
        if tags[i].name == name {
            proof {
                assert(first_tag_at(all, name@, i as int));
                let c = choose|c: int| first_tag_at(all, name@, c);
                if c < i {
                    assert(all[c].name != name@);
                }
                if i < c {
                    assert(all[i as int].name != name@);
                }
            }
            return tags[i].content.clone();
        }
        i += 1;
    }
    proof {
        assert forall|c: int| !first_tag_at(all, name@, c) by {
            if 0 <= c < all.len() {
                assert(all[c].name != name@);
            }
        }
    }
    String::from_str("Tag does not exist!")
}

/// A channel of a guild.
#[derive(Debug, PartialEq, Eq)]
pub struct ChannelRef {
    pub id: u64,
    pub name: String,
}

/// What a [`ChannelRef`] holds, as a mathematical value.
pub struct ChannelRefView {
    pub id: u64,
    pub name: Seq<char>,
}

impl View for ChannelRef {
    type V = ChannelRefView;

    open spec fn view(&self) -> ChannelRefView {
        ChannelRefView { id: self.id, name: self.name@ }
    }
}

/// One line for each channel: its id, a colon and its name.
pub open spec fn channel_lines(channels: Seq<ChannelRefView>) -> Seq<char>
    decreases channels.len(),
{
    if channels.len() == 0 {
        Seq::empty()
    } else {
        channel_lines(channels.drop_last()) + decimal(channels.last().id as nat) + ": "@
            + channels.last().name + "\n"@
    }
}

/// An embed that lists `channels`, in the order given.
pub fn embed(channels: &Vec<ChannelRef>) -> (result: Embed)
    ensures
        result@ == (EmbedView {
            title: "The title"@,
            description: channel_lines(views(channels@)),
            thumbnail: None,
            fields: Seq::empty(),
            footer: Seq::empty(),
        }),
{
    let ghost all = views(channels@);
    let mut description = String::new();
    let mut i: usize = 0;
    assert(all.take(0) =~= Seq::empty());
    while i < channels.len()
        invariant
            i <= channels.len(),
            all == views(channels@),
            description@ == channel_lines(all.take(i as int)),
        decreases channels.len() - i,
    {
        proof {
            assert(all.take(i as int + 1).drop_last() =~= all.take(i as int));
            assert(all.take(i as int + 1).last() == channels[i as int]@);
        }
        let ghost before = description@;
        description.append(u64_to_string(channels[i].id).as_str());
        description.append(": ");
        description.append(channels[i].name.as_str());
        description.append("\n");
        assert(description@ =~= before + decimal(channels[i as int].id as nat) + ": "@
            + channels[i as int].name@ + "\n"@);
        i += 1;
    }
    assert(all.take(channels.len() as int) =~= all);
    let result = Embed {
        title: String::from_str("The title"),
        description,
        thumbnail: None,
        fields: Vec::new(),
        footer: String::new(),
    };
    assert(result@.fields =~= Seq::empty());
    result
}

} // verus!
