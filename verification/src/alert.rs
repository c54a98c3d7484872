//! Alerts and notification banners: the tone, the icon they show and the
//! controls they offer.

use vstd::prelude::*;

verus! {

/// The tone of an alert or banner.
#[derive(Debug, Clone, Copy, PartialEq, Eq, Structural)]
pub enum AlertVariant {
    Info,
    Success,
    Warning,
    Error,
}

impl Default for AlertVariant {
    /// Informational.
    fn default() -> (v: AlertVariant)
        ensures
            v == AlertVariant::Info,
    {
        AlertVariant::Info
    }
}

impl AlertVariant {
    /// The icon of a tone: `i`, `v`, `!` or `x`.
    pub open spec fn icon_spec(self) -> Seq<char> {
        match self {
            AlertVariant::Info => "i"@,
            AlertVariant::Success => "v"@,
            AlertVariant::Warning => "!"@,
            AlertVariant::Error => "x"@,
        }
    }

    /// The icon of a tone.
    pub fn icon(&self) -> (s: &'static str)
        ensures
            s@ == self.icon_spec(),
    {
        match self {
            AlertVariant::Info => "i",
            AlertVariant::Success => "v",
            AlertVariant::Warning => "!",
            AlertVariant::Error => "x",
        }
    }
}

/// The icon shown: the one given, else the tone's own.
pub open spec fn shown_icon(custom: Option<String>, variant: AlertVariant) -> Seq<char> {
    match custom {
        Some(i) => i@,
        None => variant.icon_spec(),
    }
}

/// The icon to show, from the one given and the tone.
fn pick_icon(custom: &Option<String>, variant: AlertVariant) -> (s: String)
    ensures
        s@ == shown_icon(*custom, variant),
{
    match custom {
        Some(i) => i.clone(),
        None => variant.icon().to_owned(),
    }
}

/// A contextual message. `has_on_close` records whether a close handler
/// was given.
pub struct Alert {
    /// Identifier of the alert.
    pub id: String,
    /// Bold line above the message.
    pub title: Option<String>,
    /// The message.
    pub message: String,
    /// Its tone.
    pub variant: AlertVariant,
    /// Whether it has a close button.
    pub closeable: bool,
    /// Icon replacing the tone's own.
    pub icon: Option<String>,
    /// Whether a close handler was given.
    pub has_on_close: bool,
}

impl Alert {
    /// An informational alert without title, icon or close button.
    pub fn new(id: &str, message: &str) -> (a: Alert)
        ensures
            a.id@ == id@,
            a.message@ == message@,
            a.title is None && a.icon is None,
            a.variant == AlertVariant::Info,
            !a.closeable && !a.has_on_close,
    {
        Alert {
            id: id.to_owned(),
            title: None,
            message: message.to_owned(),
            variant: AlertVariant::Info,
            closeable: false,
            icon: None,
            has_on_close: false,
        }
    }

    /// Sets the title.
    pub fn title(self, title: &str) -> (a: Alert)
        ensures
            a.title matches Some(t) && t@ == title@,
            a.id == self.id && a.message == self.message && a.variant == self.variant,
            a.closeable == self.closeable && a.icon == self.icon,
            a.has_on_close == self.has_on_close,
    {
        Alert { title: Some(title.to_owned()), ..self }
    }

    /// Sets the tone.
    pub fn variant(self, variant: AlertVariant) -> (a: Alert)
        ensures
            a == (Alert { variant, ..self }),
    {
        Alert { variant, ..self }
    }

    /// Sets whether there is a close button.
    pub fn closeable(self, closeable: bool) -> (a: Alert)
        ensures
            a == (Alert { closeable, ..self }),
    {
        Alert { closeable, ..self }
    }

    /// Sets the icon.
    pub fn icon(self, icon: &str) -> (a: Alert)
        ensures
            a.icon matches Some(i) && i@ == icon@,
            a.id == self.id && a.message == self.message && a.variant == self.variant,
            a.closeable == self.closeable && a.title == self.title,
            a.has_on_close == self.has_on_close,
    {
        Alert { icon: Some(icon.to_owned()), ..self }
    }

    /// Records that a close handler was given.
    pub fn on_close(self) -> (a: Alert)
        ensures
            a == (Alert { has_on_close: true, ..self }),
    {
        Alert { has_on_close: true, ..self }
    }

    /// The icon shown: the one given, else the tone's own.
    pub fn shown_icon(&self) -> (s: String)
        ensures
            s@ == shown_icon(self.icon, self.variant),
    {
        pick_icon(&self.icon, self.variant)
    }

    /// The close button is drawn when the alert is closeable, and closes it
    /// when a handler was given too: `(drawn, works)`.
    pub fn close_button(&self) -> (r: (bool, bool))
        ensures
            r == (self.closeable, self.closeable && self.has_on_close),
    {
        (self.closeable, self.closeable && self.has_on_close)
    }
}

/// A one-line alert: an icon and a message.
pub struct InlineAlert {
    /// The message.
    pub message: String,
    /// Its tone.
    pub variant: AlertVariant,
}

impl InlineAlert {
    /// An informational one-line alert.
    pub fn new(message: &str) -> (a: InlineAlert)
        ensures
            a.message@ == message@,
            a.variant == AlertVariant::Info,
    {
        InlineAlert { message: message.to_owned(), variant: AlertVariant::Info }
    }

    /// Sets the tone.
    pub fn variant(self, variant: AlertVariant) -> (a: InlineAlert)
        ensures
            a.variant == variant,
            a.message == self.message,
    {
        InlineAlert { variant, ..self }
    }

    /// The icon shown: always the tone's own.
    pub fn shown_icon(&self) -> (s: &'static str)
        ensures
            s@ == self.variant.icon_spec(),
    {
        self.variant.icon()
    }
}

/// The tone of a banner.
#[derive(Debug, Clone, Copy, PartialEq, Eq, Structural)]
pub enum NotificationVariant {
    Info,
    Success,
    Warning,
    Error,
}

impl Default for NotificationVariant {
    /// Informational.
    fn default() -> (v: NotificationVariant)
        ensures
            v == NotificationVariant::Info,
    {
        NotificationVariant::Info
    }
}

impl NotificationVariant {
    /// The alert tone with the same icon.
    pub open spec fn as_alert(self) -> AlertVariant {
        match self {
            NotificationVariant::Info => AlertVariant::Info,
            NotificationVariant::Success => AlertVariant::Success,
            NotificationVariant::Warning => AlertVariant::Warning,
            NotificationVariant::Error => AlertVariant::Error,
        }
    }

    /// The icon of a tone: `i`, `v`, `!` or `x`, as for alerts.
    pub fn icon(&self) -> (s: &'static str)
        ensures
            s@ == self.as_alert().icon_spec(),
    {
        match self {
            NotificationVariant::Info => "i",
            NotificationVariant::Success => "v",
            NotificationVariant::Warning => "!",
            NotificationVariant::Error => "x",
        }
    }
}

/// A banner that stays until dismissed. The flags record whether handlers
/// were given for dismissing and for the action.
pub struct Notification {
    /// Identifier of the banner.
    pub id: String,
    /// The headline.
    pub title: String,
    /// Smaller text under the headline.
    pub description: Option<String>,
    /// Its tone.
    pub variant: NotificationVariant,
    /// Icon replacing the tone's own.
    pub icon: Option<String>,
    /// Whether it has a dismiss button.
    pub dismissible: bool,
    /// Whether a dismiss handler was given.
    pub has_on_dismiss: bool,
    /// Text of the action button.
    pub action_label: Option<String>,
}

/// Which controls a banner shows.
#[derive(Debug, Clone, Copy, PartialEq, Eq, Structural)]
pub struct BannerControls {
    /// Whether the action button is drawn.
    pub action: bool,
    /// Whether the dismiss button is drawn.
    pub dismiss: bool,
    /// Whether the dismiss button does something.
    pub dismiss_works: bool,
}

impl Notification {
    /// An informational, dismissible banner without description or action.
    pub fn new(id: &str, title: &str) -> (n: Notification)
        ensures
            n.id@ == id@,
            n.title@ == title@,
            n.description is None && n.icon is None && n.action_label is None,
            n.variant == NotificationVariant::Info,
            n.dismissible && !n.has_on_dismiss,
    {
        Notification {
            id: id.to_owned(),
            title: title.to_owned(),
            description: None,
            variant: NotificationVariant::Info,
            icon: None,
            dismissible: true,
            has_on_dismiss: false,
            action_label: None,
        }
    }

    /// Sets the tone.
    pub fn variant(self, variant: NotificationVariant) -> (n: Notification)
        ensures
            n == (Notification { variant, ..self }),
    {
        Notification { variant, ..self }
    }

    /// Sets the description.
    pub fn description(self, description: &str) -> (n: Notification)
        ensures
            n.description matches Some(d) && d@ == description@,
            n.id == self.id && n.title == self.title && n.variant == self.variant,
            n.icon == self.icon && n.dismissible == self.dismissible,
            n.has_on_dismiss == self.has_on_dismiss && n.action_label == self.action_label,
    {
        Notification { description: Some(description.to_owned()), ..self }
    }

    /// Sets the icon.
    pub fn icon(self, icon: &str) -> (n: Notification)
        ensures
            n.icon matches Some(i) && i@ == icon@,
            n.id == self.id && n.title == self.title && n.variant == self.variant,
            n.description == self.description && n.dismissible == self.dismissible,
            n.has_on_dismiss == self.has_on_dismiss && n.action_label == self.action_label,
    {
        Notification { icon: Some(icon.to_owned()), ..self }
    }

    /// Sets whether there is a dismiss button.
    pub fn dismissible(self, dismissible: bool) -> (n: Notification)
        ensures
            n == (Notification { dismissible, ..self }),
    {
        Notification { dismissible, ..self }
    }

    /// Records that a dismiss handler was given.
    pub fn on_dismiss(self) -> (n: Notification)
        ensures
            n == (Notification { has_on_dismiss: true, ..self }),
    {
        Notification { has_on_dismiss: true, ..self }
    }

    /// Adds an action button with this text.
    pub fn action(self, label: &str) -> (n: Notification)
        ensures
            n.action_label matches Some(l) && l@ == label@,
            n.id == self.id && n.title == self.title && n.variant == self.variant,
            n.description == self.description && n.dismissible == self.dismissible,
            n.has_on_dismiss == self.has_on_dismiss && n.icon == self.icon,
    {
        Notification { action_label: Some(label.to_owned()), ..self }
    }

    /// The icon shown: the one given, else the tone's own.
    pub fn shown_icon(&self) -> (s: String)
        ensures
            s@ == shown_icon(self.icon, self.variant.as_alert()),
    {
        match &self.icon {
            Some(i) => i.clone(),
            None => self.variant.icon().to_owned(),
        }
    }

    /// The controls the banner shows: the action button when it has a label,
    /// the dismiss button when dismissible, working when a handler was given.
    pub fn controls(&self) -> (c: BannerControls)
        ensures
            c.action == (self.action_label is Some),
            c.dismiss == self.dismissible,
            c.dismiss_works == (self.dismissible && self.has_on_dismiss),
    {
        BannerControls {
            action: self.action_label.is_some(),
            dismiss: self.dismissible,
            dismiss_works: self.dismissible && self.has_on_dismiss,
        }
    }
}

} // verus!
