//! What a component renders: a flat list of elements, each with a tag, an
//! optional class and its children in order. Turning the list into nodes of a
//! UI framework is left to the caller.

use vstd::prelude::*;

verus! {

/// The tag of an element.
#[derive(Clone, Copy, Debug, PartialEq, Eq, Structural)]
pub enum Tag {
    H1,
    H2,
    P,
}

/// One child of an element.
#[derive(Clone, Debug, PartialEq, Eq)]
pub enum Content {
    /// A piece of text.
    Text(String),
    /// An integer, shown in decimal.
    Integer(i32),
}

/// One element of the rendered output.
#[derive(Clone, Debug, PartialEq, Eq)]
pub struct Element {
    pub tag: Tag,
    pub class: Option<String>,
    pub children: Vec<Content>,
}

/// Mathematical model of a [`Content`].
pub enum ContentView {
    Text(Seq<char>),
    Integer(int),
}

/// Mathematical model of an [`Element`].
pub struct ElementView {
    pub tag: Tag,
    pub class: Option<Seq<char>>,
    pub children: Seq<ContentView>,
}

impl DeepView for Content {
    type V = ContentView;

    open spec fn deep_view(&self) -> ContentView {
        match self {
            Content::Text(s) => ContentView::Text(s@),
            Content::Integer(i) => ContentView::Integer(*i as int),
        }
    }
}

impl DeepView for Element {
    type V = ElementView;

    open spec fn deep_view(&self) -> ElementView {
        ElementView {
            tag: self.tag,
            class: self.class.deep_view(),
            children: self.children.deep_view(),
        }
    }
}

/// An element without a class whose only child is the text `text`.
pub open spec fn text_element(tag: Tag, text: Seq<char>) -> ElementView {
    ElementView { tag, class: None, children: seq![ContentView::Text(text)] }
}

/// An element without a class whose children are the text `label` and then
/// `value`.
pub open spec fn labelled_element(tag: Tag, label: Seq<char>, value: ContentView) -> ElementView {
    ElementView { tag, class: None, children: seq![ContentView::Text(label), value] }
}

impl Element {
    /// An element without a class that holds one piece of text.
    pub fn text(tag: Tag, text: String) -> (element: Element)
        ensures
            element.deep_view() == text_element(tag, text@),
    {
        let mut children: Vec<Content> = Vec::new();
        children.push(Content::Text(text));
        let element = Element { tag, class: None, children };
        assert(element.deep_view().children =~= seq![ContentView::Text(text@)]);
        element
    }

    /// An element without a class that holds a label and, after it, a value.
    pub fn labelled(tag: Tag, label: String, value: Content) -> (element: Element)
        ensures
            element.deep_view() == labelled_element(tag, label@, value.deep_view()),
    {
        let mut children: Vec<Content> = Vec::new();
        children.push(Content::Text(label));
        children.push(value);
        let element = Element { tag, class: None, children };
        assert(element.deep_view().children =~= seq![
            ContentView::Text(label@),
            value.deep_view(),
        ]);
        element
    }
}

} // verus!
