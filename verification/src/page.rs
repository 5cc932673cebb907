//! Bindings to `select`: what is found in a page of HTML, named and not
//! spelled out.  The contracts in this file are not proved.  Each says that
//! what the crate finds depends on the page and on what is looked for alone.

use crate::text::text_view;
use select::predicate::{Class, Name, Predicate};
use vstd::prelude::*;

verus! {

/// The text of the first element of `html` with the name `tag` and the
/// class `class`, if there is one.
pub uninterp spec fn html_first_text(html: Seq<char>, tag: Seq<char>, class: Seq<char>) -> Option<
    Seq<char>,
>;

/// The attribute `attr`, if it has one, of the first element of `html` that
/// has the name `tag` and is a child of an element with the class `inner`
/// that lies within an element with the class `outer`.
pub uninterp spec fn html_first_attr(
    html: Seq<char>,
    outer: Seq<char>,
    inner: Seq<char>,
    tag: Seq<char>,
    attr: Seq<char>,
) -> Option<Seq<char>>;

/// What is found in each element of `html` with the name `looks.item` within
/// an element with the class `looks.list`, in the order of the page.
pub uninterp spec fn html_items(html: Seq<char>, looks: ItemLooksView) -> Seq<FoundItemView>;

/// What to look for in the items of a list in a page.
pub struct ItemLooks<'a> {
    /// The class of the list.
    pub list: &'a str,
    /// The name of the elements that are the list's items.
    pub item: &'a str,
    /// The class of the element around an item's name.
    pub subject: &'a str,
    /// The name of the element that holds an item's name.
    pub part: &'a str,
    /// The class of the element that holds an item's date.
    pub date: &'a str,
    /// The attribute of that element that holds an item's address.
    pub link: &'a str,
    /// The class of the element that marks an item as new.
    pub mark: &'a str,
}

/// What to look for in the items of a list in a page, as plain values.
pub struct ItemLooksView {
    pub list: Seq<char>,
    pub item: Seq<char>,
    pub subject: Seq<char>,
    pub part: Seq<char>,
    pub date: Seq<char>,
    pub link: Seq<char>,
    pub mark: Seq<char>,
}

impl<'a> View for ItemLooks<'a> {
    type V = ItemLooksView;

    open spec fn view(&self) -> ItemLooksView {
        ItemLooksView {
            list: self.list@,
            item: self.item@,
            subject: self.subject@,
            part: self.part@,
            date: self.date@,
            link: self.link@,
            mark: self.mark@,
        }
    }
}

/// What was found in an item of a list in a page.
#[derive(Debug)]
pub struct FoundItem {
    /// The text of the first element with the name `part` that is a child
    /// of an element with the class `subject`.
    pub name: Option<String>,
    /// The text of the first element with the class `date`.
    pub date: Option<String>,
    /// The attribute `link` of that element.
    pub link: Option<String>,
    /// Whether there is an element with the class `mark`.
    pub marked: bool,
}

/// What was found in an item of a list in a page, as plain values.
pub struct FoundItemView {
    pub name: Option<Seq<char>>,
    pub date: Option<Seq<char>>,
    pub link: Option<Seq<char>>,
    pub marked: bool,
}

impl View for FoundItem {
    type V = FoundItemView;

    open spec fn view(&self) -> FoundItemView {
        FoundItemView {
            name: text_view(self.name),
            date: text_view(self.date),
            link: text_view(self.link),
            marked: self.marked,
        }
    }
}

/// What each of `items` holds, as plain values.
pub open spec fn items_view(items: Seq<FoundItem>) -> Seq<FoundItemView> {
    items.map_values(|item: FoundItem| item@)
}

/// `Document::find` with `Name(tag).and(Class(class))` on the document
/// parsed from `html`, and `Node::text` of the first node found.
#[verifier::external_body]
pub(crate) fn first_text(html: &str, tag: &str, class: &str) -> (text: Option<String>)
    ensures
        text_view(text) == html_first_text(html@, tag@, class@),
{
    let document = select::document::Document::from(html);
    let found = document.find(Name(tag).and(Class(class))).next().map(|node| node.text());
    found
}

/// `Document::find` with `Class(outer).descendant(Class(inner)).child(
/// Name(tag))` on the document parsed from `html`, and `Node::attr` of the
/// first node found.
#[verifier::external_body]
pub(crate) fn first_attr(html: &str, outer: &str, inner: &str, tag: &str, attr: &str) -> (value:
    Option<String>)
    ensures
        text_view(value) == html_first_attr(html@, outer@, inner@, tag@, attr@),
{
    let document = select::document::Document::from(html);
    let looked = Class(outer).descendant(Class(inner)).child(Name(tag));
    let found = document.find(looked).next().and_then(|node| node.attr(attr)).map(str::to_owned);
    found
}

/// `Document::find` with `Class(list).descendant(Name(item))` on the document
/// parsed from `html`, and in each node found `Node::find`, `Node::text` and
/// `Node::attr` for what `looks` names.
#[verifier::external_body]
pub(crate) fn items(html: &str, looks: &ItemLooks) -> (found: Vec<FoundItem>)
    ensures
        items_view(found@) == html_items(html@, looks@),
{
    let document = select::document::Document::from(html);
    let found = document.find(Class(looks.list).descendant(Name(looks.item))).map(|node| FoundItem {
        name: node.find(Class(looks.subject).child(Name(looks.part))).next().map(|n| n.text()),
        date: node.find(Class(looks.date)).next().map(|n| n.text()),
        link: node.find(Class(looks.date)).next().and_then(|n| n.attr(looks.link)).map(str::to_owned),
        marked: node.find(Class(looks.mark)).next().is_some(),
    }).collect();
    found
}

} // verus!
