use vstd::prelude::*;

use crate::kind::SelectMenuKind;

verus! {

/// One submitted form field: its identifier and the values the user chose.
#[derive(Debug, Clone, PartialEq, Eq)]
pub struct SubmittedField {
    pub field_id: String,
    pub values: Vec<String>,
}

/// Mathematical model of a submitted form field.
#[verifier::ext_equal]
pub struct FieldView {
    pub field_id: Seq<char>,
    pub values: Seq<Seq<char>>,
}

impl View for SubmittedField {
    type V = FieldView;

    open spec fn view(&self) -> FieldView {
        FieldView { field_id: self.field_id@, values: self.values.deep_view() }
    }
}

/// An inbound platform event, reduced to the values the handler reads.
#[derive(Debug, Clone, PartialEq, Eq)]
pub enum Event {
    /// The connection is established.
    Ready,
    /// A user acted on an interactive component (clicked a trigger button).
    Component { channel_id: u64, custom_id: String },
    /// A user submitted a modal's form.
    ModalSubmit { channel_id: u64, custom_id: String, fields: Vec<SubmittedField> },
    /// Any other event kind; the handler ignores it.
    Other,
}

/// Mathematical model of an inbound event.
#[verifier::ext_equal]
pub enum EventView {
    Ready,
    Component { channel_id: u64, custom_id: Seq<char> },
    ModalSubmit { channel_id: u64, custom_id: Seq<char>, fields: Seq<FieldView> },
    Other,
}

impl View for Event {
    type V = EventView;

    open spec fn view(&self) -> EventView {
        match self {
            Event::Ready => EventView::Ready,
            Event::Component { channel_id, custom_id } => EventView::Component {
                channel_id: *channel_id,
                custom_id: custom_id@,
            },
            Event::ModalSubmit { channel_id, custom_id, fields } => EventView::ModalSubmit {
                channel_id: *channel_id,
                custom_id: custom_id@,
                fields: fields@.map_values(|f: SubmittedField| f@),
            },
            Event::Other => EventView::Other,
        }
    }
}

/// A trigger button of the introductory message.
#[derive(Debug, Clone, PartialEq, Eq)]
pub struct Button {
    pub custom_id: String,
    pub label: String,
}

/// Mathematical model of a trigger button.
#[verifier::ext_equal]
pub struct ButtonView {
    pub custom_id: Seq<char>,
    pub label: Seq<char>,
}

impl View for Button {
    type V = ButtonView;

    open spec fn view(&self) -> ButtonView {
        ButtonView { custom_id: self.custom_id@, label: self.label@ }
    }
}

/// One choice offered by the string select menu.
#[derive(Debug, Clone, PartialEq, Eq)]
pub struct SelectOption {
    pub label: String,
    pub value: String,
}

/// Mathematical model of a select-menu choice.
#[verifier::ext_equal]
pub struct SelectOptionView {
    pub label: Seq<char>,
    pub value: Seq<char>,
}

impl View for SelectOption {
    type V = SelectOptionView;

    open spec fn view(&self) -> SelectOptionView {
        SelectOptionView { label: self.label@, value: self.value@ }
    }
}

/// The modal dialog shown in answer to a recognized trigger: one labelled
/// select-menu form field whose kind the trigger chose.
#[derive(Debug, Clone, PartialEq, Eq)]
pub struct Modal {
    pub custom_id: String,
    pub title: String,
    pub field_label: String,
    pub menu_custom_id: String,
    pub kind: SelectMenuKind,
    pub options: Vec<SelectOption>,
}

/// Mathematical model of the modal dialog.
#[verifier::ext_equal]
pub struct ModalView {
    pub custom_id: Seq<char>,
    pub title: Seq<char>,
    pub field_label: Seq<char>,
    pub menu_custom_id: Seq<char>,
    pub kind: SelectMenuKind,
    pub options: Seq<SelectOptionView>,
}

impl View for Modal {
    type V = ModalView;

    open spec fn view(&self) -> ModalView {
        ModalView {
            custom_id: self.custom_id@,
            title: self.title@,
            field_label: self.field_label@,
            menu_custom_id: self.menu_custom_id@,
            kind: self.kind,
            options: self.options@.map_values(|o: SelectOption| o@),
        }
    }
}

/// The one outbound call the handler asks for in answer to an event.
#[derive(Debug, Clone, PartialEq, Eq)]
pub enum Action {
    /// No outbound call: the event is silently discarded.
    Ignore,
    /// Send the introductory message with one trigger button per kind.
    SendMessage { channel_id: u64, content: String, buttons: Vec<Button> },
    /// Answer the interaction by showing a modal.
    ShowModal { modal: Modal },
    /// Answer the interaction with a message only its author sees.
    RespondPrivate { content: String },
}

/// Mathematical model of an outbound action.
#[verifier::ext_equal]
pub enum ActionView {
    Ignore,
    SendMessage { channel_id: u64, content: Seq<char>, buttons: Seq<ButtonView> },
    ShowModal { modal: ModalView },
    RespondPrivate { content: Seq<char> },
}

impl View for Action {
    type V = ActionView;

    open spec fn view(&self) -> ActionView {
        match self {
            Action::Ignore => ActionView::Ignore,
            Action::SendMessage { channel_id, content, buttons } => ActionView::SendMessage {
                channel_id: *channel_id,
                content: content@,
                buttons: buttons@.map_values(|b: Button| b@),
            },
            Action::ShowModal { modal } => ActionView::ShowModal { modal: modal@ },
            Action::RespondPrivate { content } => ActionView::RespondPrivate { content: content@ },
        }
    }
}

} // verus!
