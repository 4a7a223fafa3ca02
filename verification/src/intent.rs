//! The intents that the registry accepts, already decoded from key presses.

use crate::registry::{Registry, RegistryView};
use vstd::prelude::*;

verus! {

/// What the user asks of the registry.
#[derive(Debug)]
pub enum Intent {
    AddAccount { secret: Vec<u8>, label: String },
    RemoveSelected,
    SelectNext,
    SelectPrev,
    Quit,
}

/// An intent, as mathematical values.
#[verifier::ext_equal]
pub enum IntentView {
    AddAccount { secret: Seq<u8>, label: Seq<char> },
    RemoveSelected,
    SelectNext,
    SelectPrev,
    Quit,
}

impl View for Intent {
    type V = IntentView;

    open spec fn view(&self) -> IntentView {
        match self {
            Intent::AddAccount { secret, label } => IntentView::AddAccount {
                secret: secret@,
                label: label@,
            },
            Intent::RemoveSelected => IntentView::RemoveSelected,
            Intent::SelectNext => IntentView::SelectNext,
            Intent::SelectPrev => IntentView::SelectPrev,
            Intent::Quit => IntentView::Quit,
        }
    }
}

/// The view of an intent that may be absent.
pub open spec fn intent_view(intent: Option<Intent>) -> Option<IntentView> {
    match intent {
        Some(intent) => Some(intent@),
        None => None,
    }
}

/// Whether the consumer loop goes on.
#[derive(Debug, Clone, Copy, PartialEq, Eq, Structural)]
pub enum Flow {
    Continue,
    Quit,
}

/// The registry after an intent was performed. Removing the selected account
/// of an empty registry, like quitting, changes nothing.
pub open spec fn performed(registry: RegistryView, intent: IntentView) -> RegistryView {
    match intent {
        IntentView::AddAccount { secret, label } => registry.add(secret, label),
        IntentView::RemoveSelected => match registry.selected {
            Some(index) => registry.remove(index),
            None => registry,
        },
        IntentView::SelectNext => registry.select_next(),
        IntentView::SelectPrev => registry.select_prev(),
        IntentView::Quit => registry,
    }
}

/// Performs an intent on the registry. Only `Quit` ends the loop; an intent
/// that the registry rejects changes nothing and the loop goes on.
pub fn perform(registry: &mut Registry, intent: Intent) -> (flow: Flow)
    ensures
        final(registry)@ == performed(old(registry)@, intent@),
        flow == Flow::Quit <==> intent@ == IntentView::Quit,
{
    match intent {
        Intent::AddAccount { secret, label } => {
            let _ = registry.add(secret, label);
            Flow::Continue
        },
        Intent::RemoveSelected => {
            let _ = registry.remove_selected();
            Flow::Continue
        },
        Intent::SelectNext => {
            registry.select_next();
            Flow::Continue
        },
        Intent::SelectPrev => {
            registry.select_prev();
            Flow::Continue
        },
        Intent::Quit => Flow::Quit,
    }
}

} // verus!
