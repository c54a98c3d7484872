//! Modal dialogs and confirmation prompts: their settings, which parts they
//! show, and what closes them.

use vstd::prelude::*;
use crate::button::ButtonVariant;

verus! {

/// The width class of a dialog.
#[derive(Debug, Clone, Copy, PartialEq, Eq, Structural)]
pub enum DialogSize {
    Sm,
    Md,
    Lg,
    Xl,
    Full,
}

impl Default for DialogSize {
    /// Medium.
    fn default() -> (s: DialogSize)
        ensures
            s == DialogSize::Md,
    {
        DialogSize::Md
    }
}

impl DialogSize {
    /// Width in rems: 20, 30, 40, 50 and 60 from small to full.
    pub fn width_rems(&self) -> (w: u32)
        ensures
            w == match *self {
                DialogSize::Sm => 20u32,
                DialogSize::Md => 30,
                DialogSize::Lg => 40,
                DialogSize::Xl => 50,
                DialogSize::Full => 60,
            },
    {
        match self {
            DialogSize::Sm => 20,
            DialogSize::Md => 30,
            DialogSize::Lg => 40,
            DialogSize::Xl => 50,
            DialogSize::Full => 60,
        }
    }
}

/// A dialog's settings. `has_on_close` records whether a close handler was
/// given; the handler itself lives with the caller.
pub struct Dialog {
    /// Identifier of the dialog.
    pub id: String,
    /// Title shown in the header.
    pub title: Option<String>,
    /// Width class.
    pub size: DialogSize,
    /// Whether the header has a close button.
    pub show_close_button: bool,
    /// Whether a click on the backdrop closes the dialog.
    pub close_on_backdrop: bool,
    /// Whether a close handler was given.
    pub has_on_close: bool,
}

/// Which parts a dialog shows and which gestures close it.
#[derive(Debug, Clone, Copy, PartialEq, Eq, Structural)]
pub struct DialogChrome {
    /// Whether the header row is drawn.
    pub header: bool,
    /// Whether the header holds a working close button.
    pub close_button: bool,
    /// Whether a click on the backdrop closes the dialog.
    pub backdrop_closes: bool,
}

impl Dialog {
    /// A medium dialog with a close button that closes on backdrop clicks.
    pub fn new(id: &str) -> (d: Dialog)
        ensures
            d.id@ == id@,
            d.title is None,
            d.size == DialogSize::Md,
            d.show_close_button && d.close_on_backdrop,
            !d.has_on_close,
    {
        Dialog {
            id: id.to_owned(),
            title: None,
            size: DialogSize::Md,
            show_close_button: true,
            close_on_backdrop: true,
            has_on_close: false,
        }
    }

    /// Sets the title.
    pub fn title(self, title: &str) -> (d: Dialog)
        ensures
            d.title matches Some(t) && t@ == title@,
            d.id == self.id && d.size == self.size,
            d.show_close_button == self.show_close_button,
            d.close_on_backdrop == self.close_on_backdrop,
            d.has_on_close == self.has_on_close,
    {
        Dialog { title: Some(title.to_owned()), ..self }
    }

    /// Sets the width class.
    pub fn size(self, size: DialogSize) -> (d: Dialog)
        ensures
            d == (Dialog { size, ..self }),
    {
        Dialog { size, ..self }
    }

    /// Shows or hides the close button.
    pub fn show_close_button(self, show: bool) -> (d: Dialog)
        ensures
            d == (Dialog { show_close_button: show, ..self }),
    {
        Dialog { show_close_button: show, ..self }
    }

    /// Sets whether a backdrop click closes the dialog.
    pub fn close_on_backdrop(self, close: bool) -> (d: Dialog)
        ensures
            d == (Dialog { close_on_backdrop: close, ..self }),
    {
        Dialog { close_on_backdrop: close, ..self }
    }

    /// Records that a close handler was given.
    pub fn on_close(self) -> (d: Dialog)
        ensures
            d == (Dialog { has_on_close: true, ..self }),
    {
        Dialog { has_on_close: true, ..self }
    }

    /// The header is drawn when there is a title or a close button; the close
    /// button and the backdrop close the dialog only when a close handler
    /// was given.
    pub fn chrome(&self) -> (c: DialogChrome)
        ensures
            c.header == (self.title is Some || self.show_close_button),
            c.close_button == (self.show_close_button && self.has_on_close),
            c.backdrop_closes == (self.close_on_backdrop && self.has_on_close),
    {
        DialogChrome {
            header: self.title.is_some() || self.show_close_button,
            close_button: self.show_close_button && self.has_on_close,
            backdrop_closes: self.close_on_backdrop && self.has_on_close,
        }
    }
}

/// The tone of a confirmation prompt.
#[derive(Debug, Clone, Copy, PartialEq, Eq, Structural)]
pub enum ConfirmDialogVariant {
    /// A neutral question.
    Default,
    /// An action that destroys something.
    Destructive,
    /// An action to think twice about.
    Warning,
}

impl Default for ConfirmDialogVariant {
    /// The neutral tone.
    fn default() -> (v: ConfirmDialogVariant)
        ensures
            v == ConfirmDialogVariant::Default,
    {
        ConfirmDialogVariant::Default
    }
}

/// The theme color of a confirmation prompt's border.
#[derive(Debug, Clone, Copy, PartialEq, Eq, Structural)]
pub enum ConfirmBorder {
    /// The ordinary border color.
    Border,
    /// The destructive color.
    Destructive,
    /// The warning color.
    Warning,
}

/// A confirmation prompt: a question with a confirm and a cancel button.
/// The two flags record whether handlers were given for the buttons.
pub struct ConfirmDialog {
    /// Identifier of the prompt.
    pub id: String,
    /// Optional title above the message.
    pub title: Option<String>,
    /// The question.
    pub message: String,
    /// Its tone.
    pub variant: ConfirmDialogVariant,
    /// Text of the confirm button.
    pub confirm_label: String,
    /// Text of the cancel button.
    pub cancel_label: String,
    /// Whether a confirm handler was given.
    pub has_on_confirm: bool,
    /// Whether a cancel handler was given.
    pub has_on_cancel: bool,
}

impl ConfirmDialog {
    /// "Are you sure?" with "Confirm" and "Cancel", neutral, no title.
    pub fn new(id: &str) -> (d: ConfirmDialog)
        ensures
            d.id@ == id@,
            d.title is None,
            d.message@ == "Are you sure?"@,
            d.variant == ConfirmDialogVariant::Default,
            d.confirm_label@ == "Confirm"@,
            d.cancel_label@ == "Cancel"@,
            !d.has_on_confirm && !d.has_on_cancel,
    {
        ConfirmDialog {
            id: id.to_owned(),
            title: None,
            message: "Are you sure?".to_owned(),
            variant: ConfirmDialogVariant::Default,
            confirm_label: "Confirm".to_owned(),
            cancel_label: "Cancel".to_owned(),
            has_on_confirm: false,
            has_on_cancel: false,
        }
    }

    /// Sets the title.
    pub fn title(self, title: &str) -> (d: ConfirmDialog)
        ensures
            d.title matches Some(t) && t@ == title@,
            d.id == self.id && d.message == self.message && d.variant == self.variant,
            d.confirm_label == self.confirm_label && d.cancel_label == self.cancel_label,
            d.has_on_confirm == self.has_on_confirm && d.has_on_cancel == self.has_on_cancel,
    {
        ConfirmDialog { title: Some(title.to_owned()), ..self }
    }

    /// Sets the question.
    pub fn message(self, message: &str) -> (d: ConfirmDialog)
        ensures
            d.message@ == message@,
            d.id == self.id && d.title == self.title && d.variant == self.variant,
            d.confirm_label == self.confirm_label && d.cancel_label == self.cancel_label,
            d.has_on_confirm == self.has_on_confirm && d.has_on_cancel == self.has_on_cancel,
    {
        ConfirmDialog { message: message.to_owned(), ..self }
    }

    /// Sets the tone.
    pub fn variant(self, variant: ConfirmDialogVariant) -> (d: ConfirmDialog)
        ensures
            d == (ConfirmDialog { variant, ..self }),
    {
        ConfirmDialog { variant, ..self }
    }

    /// Sets the confirm button's text.
    pub fn confirm_label(self, label: &str) -> (d: ConfirmDialog)
        ensures
            d.confirm_label@ == label@,
            d.id == self.id && d.title == self.title && d.message == self.message,
            d.variant == self.variant && d.cancel_label == self.cancel_label,
            d.has_on_confirm == self.has_on_confirm && d.has_on_cancel == self.has_on_cancel,
    {
        ConfirmDialog { confirm_label: label.to_owned(), ..self }
    }

    /// Sets the cancel button's text.
    pub fn cancel_label(self, label: &str) -> (d: ConfirmDialog)
        ensures
            d.cancel_label@ == label@,
            d.id == self.id && d.title == self.title && d.message == self.message,
            d.variant == self.variant && d.confirm_label == self.confirm_label,
            d.has_on_confirm == self.has_on_confirm && d.has_on_cancel == self.has_on_cancel,
    {
        ConfirmDialog { cancel_label: label.to_owned(), ..self }
    }

    /// Records that a confirm handler was given.
    pub fn on_confirm(self) -> (d: ConfirmDialog)
        ensures
            d == (ConfirmDialog { has_on_confirm: true, ..self }),
    {
        ConfirmDialog { has_on_confirm: true, ..self }
    }

    /// Records that a cancel handler was given.
    pub fn on_cancel(self) -> (d: ConfirmDialog)
        ensures
            d == (ConfirmDialog { has_on_cancel: true, ..self }),
    {
        ConfirmDialog { has_on_cancel: true, ..self }
    }

    /// The confirm button is destructive for a destructive prompt and
    /// primary otherwise.
    pub fn confirm_variant(&self) -> (v: ButtonVariant)
        ensures
            v == (if self.variant == ConfirmDialogVariant::Destructive {
                ButtonVariant::Destructive
            } else {
                ButtonVariant::Primary
            }),
    {
        match self.variant {
            ConfirmDialogVariant::Default => ButtonVariant::Primary,
            ConfirmDialogVariant::Destructive => ButtonVariant::Destructive,
            ConfirmDialogVariant::Warning => ButtonVariant::Primary,
        }
    }

    /// The cancel button is always a ghost button.
    pub fn cancel_variant(&self) -> (v: ButtonVariant)
        ensures
            v == ButtonVariant::Ghosted,
    {
        ButtonVariant::Ghosted
    }

    /// The border takes the color of the prompt's tone.
    pub fn border(&self) -> (b: ConfirmBorder)
        ensures
            b == match self.variant {
                ConfirmDialogVariant::Default => ConfirmBorder::Border,
                ConfirmDialogVariant::Destructive => ConfirmBorder::Destructive,
                ConfirmDialogVariant::Warning => ConfirmBorder::Warning,
            },
    {
        match self.variant {
            ConfirmDialogVariant::Default => ConfirmBorder::Border,
            ConfirmDialogVariant::Destructive => ConfirmBorder::Destructive,
            ConfirmDialogVariant::Warning => ConfirmBorder::Warning,
        }
    }

    /// A click on the backdrop cancels, when a cancel handler was given.
    pub fn backdrop_cancels(&self) -> (r: bool)
        ensures
            r == self.has_on_cancel,
    {
        self.has_on_cancel
    }
}

} // verus!
