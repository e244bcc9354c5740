//! The client: the state that its page keeps, the decisions that it takes
//! when the page is mounted and when the fetch ends, and what the page shows.
//!
//! The caller runs the loop. It performs each [`Action`] and hands the
//! outcome back as the next [`Event`].

use crate::fetch_json::{record_of_text, TargetData};
use crate::markup::{labelled_element, text_element, Content, ContentView, Element, ElementView, Tag};
use crate::record::RecordView;
use vstd::prelude::*;

verus! {

/// What happened to the page.
#[derive(Clone, Debug, PartialEq, Eq)]
pub enum Event {
    /// The page was shown for the first time.
    Mounted,
    /// The fetch came back with this response body.
    Fetched(String),
    /// The fetch got no response.
    FetchFailed,
}

/// Why the client gives up.
#[derive(Clone, Copy, Debug, PartialEq, Eq, Structural)]
pub enum Failure {
    /// The server could not be reached.
    Network,
    /// The response body is not a record.
    SchemaMismatch,
}

/// What the caller is to do next.
#[derive(Clone, Debug, PartialEq, Eq)]
pub enum Action {
    /// Send one `GET` request to this address and hand back the outcome.
    Fetch(String),
    /// Show the page again, with the new state.
    Render,
    /// Stop abnormally. The state is not changed, and nothing is shown for
    /// the failure.
    Abort(Failure),
}

/// The state after an event, and what to do next.
#[derive(Clone, Debug, PartialEq, Eq)]
pub struct Transition {
    pub state_data: Option<TargetData>,
    pub action: Action,
}

/// Mathematical model of an [`Event`].
pub enum EventView {
    Mounted,
    Fetched(Seq<char>),
    FetchFailed,
}

/// Mathematical model of an [`Action`].
pub enum ActionView {
    Fetch(Seq<char>),
    Render,
    Abort(Failure),
}

/// Mathematical model of a [`Transition`].
pub struct TransitionView {
    pub state_data: Option<RecordView>,
    pub action: ActionView,
}

impl DeepView for Event {
    type V = EventView;

    open spec fn deep_view(&self) -> EventView {
        match self {
            Event::Mounted => EventView::Mounted,
            Event::Fetched(body) => EventView::Fetched(body@),
            Event::FetchFailed => EventView::FetchFailed,
        }
    }
}

impl DeepView for Action {
    type V = ActionView;

    open spec fn deep_view(&self) -> ActionView {
        match self {
            Action::Fetch(address) => ActionView::Fetch(address@),
            Action::Render => ActionView::Render,
            Action::Abort(failure) => ActionView::Abort(*failure),
        }
    }
}

impl DeepView for Transition {
    type V = TransitionView;

    open spec fn deep_view(&self) -> TransitionView {
        TransitionView {
            state_data: self.state_data.deep_view(),
            action: self.action.deep_view(),
        }
    }
}

/// The address that the client fetches from.
pub open spec fn server_address() -> Seq<char> {
    "http://localhost:8080"@
}

/// The state and the action after a fetch that came back, where `fetched` is
/// the record that its body was read as, if it was read as one.
///
/// A record becomes the state, and the page is shown again. Without one the
/// client aborts and the state stays as it was.
pub open spec fn fetched_next(
    state_data: Option<RecordView>,
    fetched: Option<RecordView>,
) -> TransitionView {
    match fetched {
        Some(record) => TransitionView { state_data: Some(record), action: ActionView::Render },
        None => TransitionView { state_data, action: ActionView::Abort(Failure::SchemaMismatch) },
    }
}

/// The state after `event` and the action that it calls for.
///
/// Mounting asks for the one fetch and leaves the state as it is. A response
/// body is read as a record and settled by [`fetched_next`]. No response at
/// all ends in an abort with the state unchanged: there is no state that
/// stands for a failure.
pub open spec fn next(state_data: Option<RecordView>, event: EventView) -> TransitionView {
    match event {
        EventView::Mounted => TransitionView {
            state_data,
            action: ActionView::Fetch(server_address()),
        },
        EventView::Fetched(body) => fetched_next(state_data, record_of_text(body)),
        EventView::FetchFailed => TransitionView {
            state_data,
            action: ActionView::Abort(Failure::Network),
        },
    }
}

/// Settles a fetch that came back: `fetched` is the record that its body was
/// read as, or `None` where the body is no record.
pub fn after_fetch(state_data: Option<TargetData>, fetched: Option<TargetData>) -> (transition:
    Transition)
    ensures
        transition.deep_view() == fetched_next(state_data.deep_view(), fetched.deep_view()),
{
    match fetched {
        Some(target_data) => Transition { state_data: Some(target_data), action: Action::Render },
        None => Transition { state_data, action: Action::Abort(Failure::SchemaMismatch) },
    }
}

/// Takes the state before an event and the event, and gives the state after
/// it and the action to perform.
pub fn step(state_data: Option<TargetData>, event: Event) -> (transition: Transition)
    ensures
        transition.deep_view() == next(state_data.deep_view(), event.deep_view()),
{
    match event {
        Event::Mounted => Transition {
            state_data,
            action: Action::Fetch("http://localhost:8080".to_owned()),
        },
        Event::Fetched(body) => after_fetch(state_data, TargetData::from_json(body.as_str())),
        Event::FetchFailed => Transition { state_data, action: Action::Abort(Failure::Network) },
    }
}

/// The heading of the page for the value `some_value`: one text and the value
/// as the class where the value is `sample`, another text and the class
/// `invalid` where it is not.
pub open spec fn heading_markup(some_value: Seq<char>) -> ElementView {
    if some_value == "sample"@ {
        ElementView {
            tag: Tag::H1,
            class: Some(some_value),
            children: seq![ContentView::Text("Hello World! I matched 'sample'."@)],
        }
    } else {
        ElementView {
            tag: Tag::H1,
            class: Some("invalid"@),
            children: seq![ContentView::Text("Hello world! I matched 'an option'."@)],
        }
    }
}

/// The line of the page for the optional value `option_value`.
pub open spec fn option_markup(option_value: Option<Seq<char>>) -> ElementView {
    match option_value {
        Some(value) => labelled_element(
            Tag::P,
            "And variable 'option_value' has value: "@,
            ContentView::Text(value),
        ),
        None => text_element(Tag::P, "show no option"@),
    }
}

/// What the page always shows, with or without a record: the heading for the
/// value `sample`, the line for the option `an option`, and a caption.
pub open spec fn page_frame() -> Seq<ElementView> {
    seq![
        heading_markup("sample"@),
        option_markup(Some("an option"@)),
        text_element(Tag::P, "Here is the fetched_data's first field: "@),
    ]
}

/// What the page shows for its state: the frame, and after it, only where
/// the state holds a record, a paragraph with the record's first field.
pub open spec fn page_markup(state_data: Option<RecordView>) -> Seq<ElementView> {
    match state_data {
        Some(record) => page_frame().push(text_element(Tag::P, record.field_one)),
        None => page_frame(),
    }
}

/// Renders the heading of the page.
pub fn heading(some_value: &str) -> (element: Element)
    ensures
        element.deep_view() == heading_markup(some_value@),
{
    let value = some_value.to_owned();
    let sample = "sample".to_owned();
    let mut children: Vec<Content> = Vec::new();
    let element = if value == sample {
        children.push(Content::Text("Hello World! I matched 'sample'.".to_owned()));
        Element { tag: Tag::H1, class: Some(value), children }
    } else {
        children.push(Content::Text("Hello world! I matched 'an option'.".to_owned()));
        Element { tag: Tag::H1, class: Some("invalid".to_owned()), children }
    };
    assert(element.deep_view().children =~= heading_markup(some_value@).children);
    element
}

/// Renders the line of the page that shows an optional value.
pub fn option_line(option_value: Option<&str>) -> (element: Element)
    ensures
        element.deep_view() == option_markup(option_value.deep_view()),
{
    match option_value {
        Some(value) => Element::labelled(
            Tag::P,
            "And variable 'option_value' has value: ".to_owned(),
            Content::Text(value.to_owned()),
        ),
        None => Element::text(Tag::P, "show no option".to_owned()),
    }
}

/// Renders the page for any state. Before the fetch has ended the state
/// holds no record, and the page ends with the caption; the state is only
/// read.
pub fn app(state_data: &Option<TargetData>) -> (markup: Vec<Element>)
    ensures
        markup.deep_view() == page_markup(state_data.deep_view()),
{
    let some_value = "sample";
    let option_value = Some("an option");
    let mut markup: Vec<Element> = Vec::new();
    markup.push(heading(some_value));
    markup.push(option_line(option_value));
    markup.push(Element::text(Tag::P, "Here is the fetched_data's first field: ".to_owned()));
    match state_data {
        Some(target_data) => {
            markup.push(Element::text(Tag::P, target_data.field_one.clone()));
        },
        None => {},
    }
    assert(markup.deep_view() =~= page_markup(state_data.deep_view()));
    markup
}

} // verus!
