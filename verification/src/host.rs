//! The host toolkit's objects that the widget hands on or answers with.
//!
//! Everything here is believed, not proved: the declarations tell Verus that
//! the types exist, and each wrapper makes one call into the toolkit.

use vstd::prelude::*;
use iced::advanced::Shell;
use iced::mouse::Interaction;
use iced::Length;

verus! {

/// The host's per-pass scheduler handle, `iced::advanced::Shell`. It is carried
/// through as it is: nothing inside it is visible here.
#[verifier::external_type_specification]
#[verifier::external_body]
#[verifier::reject_recursive_types(Message)]
pub struct ExShell<'a, Message>(Shell<'a, Message>);

/// The cursor icons of the host, `iced::mouse::Interaction`, with its variants
/// as the toolkit lists them.
#[verifier::external_type_specification]
pub struct ExInteraction(Interaction);

/// The sizing strategies of the host, `iced::Length`, with its variants as the
/// toolkit lists them.
#[verifier::external_type_specification]
pub struct ExLength(Length);

/// Calls `Shell::request_redraw`, which asks the host for a new frame as soon
/// as it can draw one. Nothing is claimed of the shell afterwards.
#[verifier::external_body]
pub(crate) fn request_redraw<Message>(shell: &mut Shell<'_, Message>) {
    shell.request_redraw();
}

/// Calls `Interaction::default`. The toolkit marks the variant `None` as the
/// default one, and that is all the contract says.
#[verifier::external_body]
pub(crate) fn default_interaction() -> (interaction: Interaction)
    ensures
        interaction == Interaction::None,
{
    Interaction::default()
}

} // verus!
