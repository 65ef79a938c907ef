use vstd::prelude::*;
use vstd::string::StringExecFns;

use crate::event::{
    Action, ActionView, Button, ButtonView, Event, EventView, FieldView, Modal, ModalView,
    SelectOption, SelectOptionView, SubmittedField,
};
use crate::kind::SelectMenuKind;
use crate::render::render_submission;
use crate::render::rendered_fields;
use crate::text::str_eq;

verus! {

/// The custom identifier every modal (and its select-menu field) is tagged
/// with, and the only identifier a submission is answered under.
pub open spec fn modal_custom_id() -> Seq<char> {
    "example_modal"@
}

/// The custom identifier of the select menu inside the modal.
pub open spec fn menu_custom_id() -> Seq<char> {
    "example_select_menu"@
}

/// The static text of the introductory message.
pub open spec fn intro_content() -> Seq<char> {
    "## Modal Values MRE\n\n Click the button below!"@
}

/// The trigger buttons of the introductory message: one per kind, tagged and
/// labelled with the kind's identifier, in enumeration order.
pub open spec fn intro_buttons() -> Seq<ButtonView> {
    SelectMenuKind::all_spec().map_values(
        |k: SelectMenuKind| (ButtonView { custom_id: k.spec_id(), label: k.spec_id() }),
    )
}

/// The two fixed choices of the string select menu.
pub open spec fn string_menu_options() -> Seq<SelectOptionView> {
    seq![
        SelectOptionView { label: "Option 1"@, value: "option-1"@ },
        SelectOptionView { label: "Option 2"@, value: "option-2"@ },
    ]
}

/// The modal shown for a recognized trigger of kind `k`: one select-menu
/// field of that kind, with the fixed options exactly when the kind is the
/// string kind.
pub open spec fn modal_for(k: SelectMenuKind) -> ModalView {
    ModalView {
        custom_id: modal_custom_id(),
        title: "Example Modal"@,
        field_label: "Select Menu"@,
        menu_custom_id: menu_custom_id(),
        kind: k,
        options: if k == SelectMenuKind::String {
            string_menu_options()
        } else {
            Seq::empty()
        },
    }
}

/// The text of the private response to a modal submission: the rendered
/// field mapping inside a fenced block under a fixed heading.
pub open spec fn submission_content(fields: Seq<FieldView>) -> Seq<char> {
    "## `interaction.data`\n```\n"@ + rendered_fields(fields) + "\n```"@
}

/// The whole interaction workflow as one function from the configured
/// channel and an inbound event to the single outbound action:
/// readiness triggers the introductory message; a component interaction on
/// the configured channel whose identifier names a kind is answered with the
/// modal of that kind; a submission of the modal on the configured channel is
/// answered privately with the rendered field mapping; everything else is
/// silently discarded.
pub open spec fn dispatch_spec(channel: u64, e: EventView) -> ActionView {
    match e {
        EventView::Ready => ActionView::SendMessage {
            channel_id: channel,
            content: intro_content(),
            buttons: intro_buttons(),
        },
        EventView::Component { channel_id, custom_id } => {
            if channel_id != channel {
                ActionView::Ignore
            } else {
                match SelectMenuKind::spec_from_id(custom_id) {
                    Some(k) => ActionView::ShowModal { modal: modal_for(k) },
                    None => ActionView::Ignore,
                }
            }
        },
        EventView::ModalSubmit { channel_id, custom_id, fields } => {
            if channel_id == channel && custom_id == modal_custom_id() {
                ActionView::RespondPrivate { content: submission_content(fields) }
            } else {
                ActionView::Ignore
            }
        },
        EventView::Other => ActionView::Ignore,
    }
}

/// The stateless interaction handler; its only state is the configured
/// channel, fixed for the process lifetime.
pub struct Handler {
    pub channel_id: u64,
}

impl Handler {
    /// Decides the one outbound action an inbound event asks for. The result
    /// is exactly the dispatch model's: the handler keeps no other state, so
    /// equal events are always answered alike.
    pub fn dispatch(&self, event: &Event) -> (r: Action)
        ensures
            r@ == dispatch_spec(self.channel_id, event@),
    {
        match event {
            Event::Ready => {
                let content = "## Modal Values MRE\n\n Click the button below!".to_owned();
                let kinds = SelectMenuKind::all();
                let mut buttons: Vec<Button> = Vec::new();
                let mut i: usize = 0;
                while i < kinds.len()
                    invariant
                        kinds@ == SelectMenuKind::all_spec(),
                        i <= kinds@.len(),
                        buttons@.len() == i,
                        forall|j: int|
                            0 <= j < i ==> (#[trigger] buttons@[j])@ == intro_buttons()[j],
                    decreases kinds@.len() - i,
                {
                    let k = kinds[i];
                    let tag = k.as_str().to_owned();
                    let label = k.as_str().to_owned();
                    buttons.push(Button { custom_id: tag, label });
                    proof {
                        assert(buttons@[i as int]@ == intro_buttons()[i as int]);
                    }
                    i = i + 1;
                }
                proof {
                    assert(buttons@.map_values(|b: Button| b@) =~= intro_buttons());
                }
                Action::SendMessage { channel_id: self.channel_id, content, buttons }
            },
            Event::Component { channel_id, custom_id } => {
                if *channel_id != self.channel_id {
                    Action::Ignore
                } else {
                    match SelectMenuKind::from_str(custom_id.as_str()) {
                        Ok(kind) => {
                            let mut options: Vec<SelectOption> = Vec::new();
                            match kind {
                                SelectMenuKind::String => {
                                    options.push(SelectOption {
                                        label: "Option 1".to_owned(),
                                        value: "option-1".to_owned(),
                                    });
                                    options.push(SelectOption {
                                        label: "Option 2".to_owned(),
                                        value: "option-2".to_owned(),
                                    });
                                },
                                _ => {},
                            }
                            let modal = Modal {
                                custom_id: "example_modal".to_owned(),
                                title: "Example Modal".to_owned(),
                                field_label: "Select Menu".to_owned(),
                                menu_custom_id: "example_select_menu".to_owned(),
                                kind,
                                options,
                            };
                            proof {
                                assert(modal@.options =~= modal_for(kind).options);
                            }
                            Action::ShowModal { modal }
                        },
                        Err(()) => Action::Ignore,
                    }
                }
            },
            Event::ModalSubmit { channel_id, custom_id, fields } => {
                if *channel_id != self.channel_id || !str_eq(custom_id.as_str(), "example_modal") {
                    Action::Ignore
                } else {
                    let rendered = render_submission(fields);
                    let mut content = "## `interaction.data`\n```\n".to_owned();
                    content.append(rendered.as_str());
                    content.append("\n```");
                    proof {
                        assert(fields@.map_values(|f: SubmittedField| f@) =~= event@->ModalSubmit_fields);
                    }
                    Action::RespondPrivate { content }
                }
            },
            Event::Other => Action::Ignore,
        }
    }
}

/// A component interaction from any channel but the configured one is
/// silently discarded: the handler makes no outbound call for it.
pub proof fn lemma_foreign_channel_component_ignored(
    channel: u64,
    channel_id: u64,
    custom_id: Seq<char>,
)
    requires
        channel_id != channel,
    ensures
        dispatch_spec(channel, (EventView::Component { channel_id, custom_id }))
            == ActionView::Ignore,
{
}

/// A component interaction on the configured channel whose custom identifier
/// names a kind is answered with exactly one show-modal response; the modal's
/// single select-menu field is of the named kind, and only the string kind
/// carries the two fixed choices.
pub proof fn lemma_recognized_component_shows_modal(
    channel: u64,
    custom_id: Seq<char>,
    k: SelectMenuKind,
)
    requires
        SelectMenuKind::spec_from_id(custom_id) == Some(k),
    ensures
        dispatch_spec(channel, (EventView::Component { channel_id: channel, custom_id }))
            == (ActionView::ShowModal { modal: modal_for(k) }),
        modal_for(k).kind == k,
        k == SelectMenuKind::String ==> modal_for(k).options == string_menu_options(),
        k != SelectMenuKind::String ==> modal_for(k).options == Seq::<SelectOptionView>::empty(),
{
}

/// A component interaction whose custom identifier names no kind is silently
/// discarded, even on the configured channel.
pub proof fn lemma_unrecognized_component_ignored(channel: u64, custom_id: Seq<char>)
    requires
        SelectMenuKind::spec_from_id(custom_id) is None,
    ensures
        dispatch_spec(channel, (EventView::Component { channel_id: channel, custom_id }))
            == ActionView::Ignore,
{
}

/// A modal submission on the configured channel under the modal's identifier
/// is answered with exactly one private response, whose text is the fixed
/// rendering of the submitted field mapping — a function of the mapping
/// alone, so a given mapping always yields the same text.
pub proof fn lemma_matching_submission_responds(channel: u64, fields: Seq<FieldView>)
    ensures
        dispatch_spec(
            channel,
            (EventView::ModalSubmit {
                channel_id: channel,
                custom_id: modal_custom_id(),
                fields,
            }),
        ) == (ActionView::RespondPrivate { content: submission_content(fields) }),
{
}

/// A modal submission from another channel, or under any identifier but the
/// modal's, is silently discarded.
pub proof fn lemma_unmatched_submission_ignored(
    channel: u64,
    channel_id: u64,
    custom_id: Seq<char>,
    fields: Seq<FieldView>,
)
    requires
        channel_id != channel || custom_id != modal_custom_id(),
    ensures
        dispatch_spec(channel, (EventView::ModalSubmit { channel_id, custom_id, fields }))
            == ActionView::Ignore,
{
}

/// Replaying a submission deduplicates nothing: the handler keeps no state,
/// so dispatching the very same submission twice yields two responses, both
/// private and with identical text.
pub proof fn lemma_replayed_submission_same_response(channel: u64, fields: Seq<FieldView>)
    ensures
        ({
            let e = EventView::ModalSubmit {
                channel_id: channel,
                custom_id: modal_custom_id(),
                fields,
            };
            let first = dispatch_spec(channel, e);
            let second = dispatch_spec(channel, e);
            first == second && first == (ActionView::RespondPrivate {
                content: submission_content(fields),
            })
        }),
{
}

} // verus!
