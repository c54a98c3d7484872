//! Translations of the kit's texts into five languages, and looking a text
//! up with a fallback to English.

use vstd::prelude::*;
use std::collections::HashMap;

verus! {

broadcast use vstd::std_specs::hash::group_hash_axioms;

/// The languages the kit is translated into.
#[derive(Debug, Clone, Copy, PartialEq, Eq, Hash, Structural)]
pub enum Language {
    /// English, the default.
    English,
    /// French.
    French,
    /// German.
    German,
    /// Spanish.
    Spanish,
    /// Japanese.
    Japanese,
}

impl Default for Language {
    /// English.
    fn default() -> (l: Language)
        ensures
            l == Language::English,
    {
        Language::English
    }
}

impl Language {
    /// Position of the language in `all`.
    pub open spec fn index_spec(self) -> u64 {
        match self {
            Language::English => 0,
            Language::French => 1,
            Language::German => 2,
            Language::Spanish => 3,
            Language::Japanese => 4,
        }
    }

    /// Position of the language in `all`.
    pub fn index(&self) -> (i: u64)
        ensures
            i == self.index_spec(),
    {
        match self {
            Language::English => 0,
            Language::French => 1,
            Language::German => 2,
            Language::Spanish => 3,
            Language::Japanese => 4,
        }
    }

    /// Every language, English first.
    pub open spec fn all_spec() -> Seq<Language> {
        seq![
            Language::English,
            Language::French,
            Language::German,
            Language::Spanish,
            Language::Japanese,
        ]
    }

    /// Every language, English first.
    pub fn all() -> (v: Vec<Language>)
        ensures
            v@ == Self::all_spec(),
    {
        let v = vec![
            Language::English,
            Language::French,
            Language::German,
            Language::Spanish,
            Language::Japanese,
        ];
        assert(v@ =~= Self::all_spec());
        v
    }


    /// The language's name in the language itself.
    pub fn native_name(&self) -> (s: &'static str)
        ensures
            s@ == match *self {
                Language::English => "English"@,
                Language::French => "Francais"@,
                Language::German => "Deutsch"@,
                Language::Spanish => "Espanol"@,
                Language::Japanese => "Nihongo"@,
            },
    {
        match self {
            Language::English => "English",
            Language::French => "Francais",
            Language::German => "Deutsch",
            Language::Spanish => "Espanol",
            Language::Japanese => "Nihongo",
        }
    }

    /// The ISO 639-1 code of the language.
    pub fn code(&self) -> (s: &'static str)
        ensures
            s@ == match *self {
                Language::English => "en"@,
                Language::French => "fr"@,
                Language::German => "de"@,
                Language::Spanish => "es"@,
                Language::Japanese => "ja"@,
            },
    {
        match self {
            Language::English => "en",
            Language::French => "fr",
            Language::German => "de",
            Language::Spanish => "es",
            Language::Japanese => "ja",
        }
    }

    /// The country code shown as the language's flag.
    pub fn flag(&self) -> (s: &'static str)
        ensures
            s@ == match *self {
                Language::English => "GB"@,
                Language::French => "FR"@,
                Language::German => "DE"@,
                Language::Spanish => "ES"@,
                Language::Japanese => "JP"@,
            },
    {
        match self {
            Language::English => "GB",
            Language::French => "FR",
            Language::German => "DE",
            Language::Spanish => "ES",
            Language::Japanese => "JP",
        }
    }
}

/// The texts that have translations.
#[derive(Debug, Clone, Copy, PartialEq, Eq, Hash, Structural)]
pub enum TranslationKey {
    // App
    AppTitle,
    AppSubtitle,

    // Menu
    MenuFile,
    MenuEdit,
    MenuView,
    MenuHelp,
    MenuQuit,
    MenuTheme,
    MenuLanguage,
    MenuSettings,

    // Theme
    ThemeDark,
    ThemeLight,

    // Section titles
    SectionButtons,
    SectionTypography,
    SectionBadges,
    SectionAvatars,
    SectionFormControls,
    SectionProgress,
    SectionAlerts,
    SectionTabs,
    SectionCards,
    SectionBreadcrumbs,
    SectionSpinners,
    SectionLayout,
    SectionIconButtons,
    SectionToasts,
    SectionDialogs,
    SectionMenus,
    SectionTooltips,
    SectionPotentiometers,
    SectionAccordion,
    SectionQrCode,
    SectionContextMenu,
    SectionPopover,
    SectionSidebar,
    SectionStatusBar,
    SectionSearchBar,
    SectionKeyboardShortcut,
    SectionEmptyState,
    SectionConfirmDialog,
    SectionSplitPane,
    SectionImageView,
    SectionSettingsForm,
    SectionStepIndicator,
    SectionLoadingOverlay,
    SectionTag,
    SectionToolbar,
    SectionNotification,
    SectionTreeView,
    SectionDragList,
    SectionCommandPalette,

    // Component labels
    LabelVariants,
    LabelSizes,
    LabelStates,
    LabelToggles,
    LabelCheckboxes,
    LabelSlider,
    LabelInput,
    LabelSmall,
    LabelMedium,
    LabelLarge,
    LabelDisabled,
    LabelSelected,

    // Button labels
    ButtonPrimary,
    ButtonSecondary,
    ButtonDestructive,
    ButtonGhost,
    ButtonOutline,
    ButtonCancel,
    ButtonSave,
    ButtonConfirm,

    // Dialog
    DialogConfirmTitle,
    DialogConfirmMessage,

    // Alerts
    AlertInfo,
    AlertSuccess,
    AlertWarning,
    AlertError,
    AlertInfoMessage,
    AlertSuccessMessage,
    AlertWarningMessage,
    AlertErrorMessage,

    // Accordion
    AccordionGettingStarted,
    AccordionFeatures,
    AccordionConfiguration,
}

impl TranslationKey {
    /// Position of the key in `all_keys`.
    pub open spec fn index_spec(self) -> u64 {
        match self {
            TranslationKey::AppTitle => 0,
            TranslationKey::AppSubtitle => 1,
            TranslationKey::MenuFile => 2,
            TranslationKey::MenuEdit => 3,
            TranslationKey::MenuView => 4,
            TranslationKey::MenuHelp => 5,
            TranslationKey::MenuQuit => 6,
            TranslationKey::MenuTheme => 7,
            TranslationKey::MenuLanguage => 8,
            TranslationKey::MenuSettings => 9,
            TranslationKey::ThemeDark => 10,
            TranslationKey::ThemeLight => 11,
            TranslationKey::SectionButtons => 12,
            TranslationKey::SectionTypography => 13,
            TranslationKey::SectionBadges => 14,
            TranslationKey::SectionAvatars => 15,
            TranslationKey::SectionFormControls => 16,
            TranslationKey::SectionProgress => 17,
            TranslationKey::SectionAlerts => 18,
            TranslationKey::SectionTabs => 19,
            TranslationKey::SectionCards => 20,
            TranslationKey::SectionBreadcrumbs => 21,
            TranslationKey::SectionSpinners => 22,
            TranslationKey::SectionLayout => 23,
            TranslationKey::SectionIconButtons => 24,
            TranslationKey::SectionToasts => 25,
            TranslationKey::SectionDialogs => 26,
            TranslationKey::SectionMenus => 27,
            TranslationKey::SectionTooltips => 28,
            TranslationKey::SectionPotentiometers => 29,
            TranslationKey::SectionAccordion => 30,
            TranslationKey::SectionQrCode => 31,
            TranslationKey::SectionContextMenu => 32,
            TranslationKey::SectionPopover => 33,
            TranslationKey::SectionSidebar => 34,
            TranslationKey::SectionStatusBar => 35,
            TranslationKey::SectionSearchBar => 36,
            TranslationKey::SectionKeyboardShortcut => 37,
            TranslationKey::SectionEmptyState => 38,
            TranslationKey::SectionConfirmDialog => 39,
            TranslationKey::SectionSplitPane => 40,
            TranslationKey::SectionImageView => 41,
            TranslationKey::SectionSettingsForm => 42,
            TranslationKey::SectionStepIndicator => 43,
            TranslationKey::SectionLoadingOverlay => 44,
            TranslationKey::SectionTag => 45,
            TranslationKey::SectionToolbar => 46,
            TranslationKey::SectionNotification => 47,
            TranslationKey::SectionTreeView => 48,
            TranslationKey::SectionDragList => 49,
            TranslationKey::SectionCommandPalette => 50,
            TranslationKey::LabelVariants => 51,
            TranslationKey::LabelSizes => 52,
            TranslationKey::LabelStates => 53,
            TranslationKey::LabelToggles => 54,
            TranslationKey::LabelCheckboxes => 55,
            TranslationKey::LabelSlider => 56,
            TranslationKey::LabelInput => 57,
            TranslationKey::LabelSmall => 58,
            TranslationKey::LabelMedium => 59,
            TranslationKey::LabelLarge => 60,
            TranslationKey::LabelDisabled => 61,
            TranslationKey::LabelSelected => 62,
            TranslationKey::ButtonPrimary => 63,
            TranslationKey::ButtonSecondary => 64,
            TranslationKey::ButtonDestructive => 65,
            TranslationKey::ButtonGhost => 66,
            TranslationKey::ButtonOutline => 67,
            TranslationKey::ButtonCancel => 68,
            TranslationKey::ButtonSave => 69,
            TranslationKey::ButtonConfirm => 70,
            TranslationKey::DialogConfirmTitle => 71,
            TranslationKey::DialogConfirmMessage => 72,
            TranslationKey::AlertInfo => 73,
            TranslationKey::AlertSuccess => 74,
            TranslationKey::AlertWarning => 75,
            TranslationKey::AlertError => 76,
            TranslationKey::AlertInfoMessage => 77,
            TranslationKey::AlertSuccessMessage => 78,
            TranslationKey::AlertWarningMessage => 79,
            TranslationKey::AlertErrorMessage => 80,
            TranslationKey::AccordionGettingStarted => 81,
            TranslationKey::AccordionFeatures => 82,
            TranslationKey::AccordionConfiguration => 83,
        }
    }

    /// Position of the key in `all_keys`.
    pub fn index(&self) -> (i: u64)
        ensures
            i == self.index_spec(),
    {
        match self {
            TranslationKey::AppTitle => 0,
            TranslationKey::AppSubtitle => 1,
            TranslationKey::MenuFile => 2,
            TranslationKey::MenuEdit => 3,
            TranslationKey::MenuView => 4,
            TranslationKey::MenuHelp => 5,
            TranslationKey::MenuQuit => 6,
            TranslationKey::MenuTheme => 7,
            TranslationKey::MenuLanguage => 8,
            TranslationKey::MenuSettings => 9,
            TranslationKey::ThemeDark => 10,
            TranslationKey::ThemeLight => 11,
            TranslationKey::SectionButtons => 12,
            TranslationKey::SectionTypography => 13,
            TranslationKey::SectionBadges => 14,
            TranslationKey::SectionAvatars => 15,
            TranslationKey::SectionFormControls => 16,
            TranslationKey::SectionProgress => 17,
            TranslationKey::SectionAlerts => 18,
            TranslationKey::SectionTabs => 19,
            TranslationKey::SectionCards => 20,
            TranslationKey::SectionBreadcrumbs => 21,
            TranslationKey::SectionSpinners => 22,
            TranslationKey::SectionLayout => 23,
            TranslationKey::SectionIconButtons => 24,
            TranslationKey::SectionToasts => 25,
            TranslationKey::SectionDialogs => 26,
            TranslationKey::SectionMenus => 27,
            TranslationKey::SectionTooltips => 28,
            TranslationKey::SectionPotentiometers => 29,
            TranslationKey::SectionAccordion => 30,
            TranslationKey::SectionQrCode => 31,
            TranslationKey::SectionContextMenu => 32,
            TranslationKey::SectionPopover => 33,
            TranslationKey::SectionSidebar => 34,
            TranslationKey::SectionStatusBar => 35,
            TranslationKey::SectionSearchBar => 36,
            TranslationKey::SectionKeyboardShortcut => 37,
            TranslationKey::SectionEmptyState => 38,
            TranslationKey::SectionConfirmDialog => 39,
            TranslationKey::SectionSplitPane => 40,
            TranslationKey::SectionImageView => 41,
            TranslationKey::SectionSettingsForm => 42,
            TranslationKey::SectionStepIndicator => 43,
            TranslationKey::SectionLoadingOverlay => 44,
            TranslationKey::SectionTag => 45,
            TranslationKey::SectionToolbar => 46,
            TranslationKey::SectionNotification => 47,
            TranslationKey::SectionTreeView => 48,
            TranslationKey::SectionDragList => 49,
            TranslationKey::SectionCommandPalette => 50,
            TranslationKey::LabelVariants => 51,
            TranslationKey::LabelSizes => 52,
            TranslationKey::LabelStates => 53,
            TranslationKey::LabelToggles => 54,
            TranslationKey::LabelCheckboxes => 55,
            TranslationKey::LabelSlider => 56,
            TranslationKey::LabelInput => 57,
            TranslationKey::LabelSmall => 58,
            TranslationKey::LabelMedium => 59,
            TranslationKey::LabelLarge => 60,
            TranslationKey::LabelDisabled => 61,
            TranslationKey::LabelSelected => 62,
            TranslationKey::ButtonPrimary => 63,
            TranslationKey::ButtonSecondary => 64,
            TranslationKey::ButtonDestructive => 65,
            TranslationKey::ButtonGhost => 66,
            TranslationKey::ButtonOutline => 67,
            TranslationKey::ButtonCancel => 68,
            TranslationKey::ButtonSave => 69,
            TranslationKey::ButtonConfirm => 70,
            TranslationKey::DialogConfirmTitle => 71,
            TranslationKey::DialogConfirmMessage => 72,
            TranslationKey::AlertInfo => 73,
            TranslationKey::AlertSuccess => 74,
            TranslationKey::AlertWarning => 75,
            TranslationKey::AlertError => 76,
            TranslationKey::AlertInfoMessage => 77,
            TranslationKey::AlertSuccessMessage => 78,
            TranslationKey::AlertWarningMessage => 79,
            TranslationKey::AlertErrorMessage => 80,
            TranslationKey::AccordionGettingStarted => 81,
            TranslationKey::AccordionFeatures => 82,
            TranslationKey::AccordionConfiguration => 83,
        }
    }
}

/// Every translation key, in declaration order.
pub open spec fn all_keys_spec() -> Seq<TranslationKey> {
    seq![
        TranslationKey::AppTitle,
        TranslationKey::AppSubtitle,
        TranslationKey::MenuFile,
        TranslationKey::MenuEdit,
        TranslationKey::MenuView,
        TranslationKey::MenuHelp,
        TranslationKey::MenuQuit,
        TranslationKey::MenuTheme,
        TranslationKey::MenuLanguage,
        TranslationKey::MenuSettings,
        TranslationKey::ThemeDark,
        TranslationKey::ThemeLight,
        TranslationKey::SectionButtons,
        TranslationKey::SectionTypography,
        TranslationKey::SectionBadges,
        TranslationKey::SectionAvatars,
        TranslationKey::SectionFormControls,
        TranslationKey::SectionProgress,
        TranslationKey::SectionAlerts,
        TranslationKey::SectionTabs,
        TranslationKey::SectionCards,
        TranslationKey::SectionBreadcrumbs,
        TranslationKey::SectionSpinners,
        TranslationKey::SectionLayout,
        TranslationKey::SectionIconButtons,
        TranslationKey::SectionToasts,
        TranslationKey::SectionDialogs,
        TranslationKey::SectionMenus,
        TranslationKey::SectionTooltips,
        TranslationKey::SectionPotentiometers,
        TranslationKey::SectionAccordion,
        TranslationKey::SectionQrCode,
        TranslationKey::SectionContextMenu,
        TranslationKey::SectionPopover,
        TranslationKey::SectionSidebar,
        TranslationKey::SectionStatusBar,
        TranslationKey::SectionSearchBar,
        TranslationKey::SectionKeyboardShortcut,
        TranslationKey::SectionEmptyState,
        TranslationKey::SectionConfirmDialog,
        TranslationKey::SectionSplitPane,
        TranslationKey::SectionImageView,
        TranslationKey::SectionSettingsForm,
        TranslationKey::SectionStepIndicator,
        TranslationKey::SectionLoadingOverlay,
        TranslationKey::SectionTag,
        TranslationKey::SectionToolbar,
        TranslationKey::SectionNotification,
        TranslationKey::SectionTreeView,
        TranslationKey::SectionDragList,
        TranslationKey::SectionCommandPalette,
        TranslationKey::LabelVariants,
        TranslationKey::LabelSizes,
        TranslationKey::LabelStates,
        TranslationKey::LabelToggles,
        TranslationKey::LabelCheckboxes,
        TranslationKey::LabelSlider,
        TranslationKey::LabelInput,
        TranslationKey::LabelSmall,
        TranslationKey::LabelMedium,
        TranslationKey::LabelLarge,
        TranslationKey::LabelDisabled,
        TranslationKey::LabelSelected,
        TranslationKey::ButtonPrimary,
        TranslationKey::ButtonSecondary,
        TranslationKey::ButtonDestructive,
        TranslationKey::ButtonGhost,
        TranslationKey::ButtonOutline,
        TranslationKey::ButtonCancel,
        TranslationKey::ButtonSave,
        TranslationKey::ButtonConfirm,
        TranslationKey::DialogConfirmTitle,
        TranslationKey::DialogConfirmMessage,
        TranslationKey::AlertInfo,
        TranslationKey::AlertSuccess,
        TranslationKey::AlertWarning,
        TranslationKey::AlertError,
        TranslationKey::AlertInfoMessage,
        TranslationKey::AlertSuccessMessage,
        TranslationKey::AlertWarningMessage,
        TranslationKey::AlertErrorMessage,
        TranslationKey::AccordionGettingStarted,
        TranslationKey::AccordionFeatures,
        TranslationKey::AccordionConfiguration,
    ]
}

/// Every translation key, in declaration order.
pub fn all_keys() -> (v: Vec<TranslationKey>)
    ensures
        v@ == all_keys_spec(),
{
    let v = vec![
        TranslationKey::AppTitle,
        TranslationKey::AppSubtitle,
        TranslationKey::MenuFile,
        TranslationKey::MenuEdit,
        TranslationKey::MenuView,
        TranslationKey::MenuHelp,
        TranslationKey::MenuQuit,
        TranslationKey::MenuTheme,
        TranslationKey::MenuLanguage,
        TranslationKey::MenuSettings,
        TranslationKey::ThemeDark,
        TranslationKey::ThemeLight,
        TranslationKey::SectionButtons,
        TranslationKey::SectionTypography,
        TranslationKey::SectionBadges,
        TranslationKey::SectionAvatars,
        TranslationKey::SectionFormControls,
        TranslationKey::SectionProgress,
        TranslationKey::SectionAlerts,
        TranslationKey::SectionTabs,
        TranslationKey::SectionCards,
        TranslationKey::SectionBreadcrumbs,
        TranslationKey::SectionSpinners,
        TranslationKey::SectionLayout,
        TranslationKey::SectionIconButtons,
        TranslationKey::SectionToasts,
        TranslationKey::SectionDialogs,
        TranslationKey::SectionMenus,
        TranslationKey::SectionTooltips,
        TranslationKey::SectionPotentiometers,
        TranslationKey::SectionAccordion,
        TranslationKey::SectionQrCode,
        TranslationKey::SectionContextMenu,
        TranslationKey::SectionPopover,
        TranslationKey::SectionSidebar,
        TranslationKey::SectionStatusBar,
        TranslationKey::SectionSearchBar,
        TranslationKey::SectionKeyboardShortcut,
        TranslationKey::SectionEmptyState,
        TranslationKey::SectionConfirmDialog,
        TranslationKey::SectionSplitPane,
        TranslationKey::SectionImageView,
        TranslationKey::SectionSettingsForm,
        TranslationKey::SectionStepIndicator,
        TranslationKey::SectionLoadingOverlay,
        TranslationKey::SectionTag,
        TranslationKey::SectionToolbar,
        TranslationKey::SectionNotification,
        TranslationKey::SectionTreeView,
        TranslationKey::SectionDragList,
        TranslationKey::SectionCommandPalette,
        TranslationKey::LabelVariants,
        TranslationKey::LabelSizes,
        TranslationKey::LabelStates,
        TranslationKey::LabelToggles,
        TranslationKey::LabelCheckboxes,
        TranslationKey::LabelSlider,
        TranslationKey::LabelInput,
        TranslationKey::LabelSmall,
        TranslationKey::LabelMedium,
        TranslationKey::LabelLarge,
        TranslationKey::LabelDisabled,
        TranslationKey::LabelSelected,
        TranslationKey::ButtonPrimary,
        TranslationKey::ButtonSecondary,
        TranslationKey::ButtonDestructive,
        TranslationKey::ButtonGhost,
        TranslationKey::ButtonOutline,
        TranslationKey::ButtonCancel,
        TranslationKey::ButtonSave,
        TranslationKey::ButtonConfirm,
        TranslationKey::DialogConfirmTitle,
        TranslationKey::DialogConfirmMessage,
        TranslationKey::AlertInfo,
        TranslationKey::AlertSuccess,
        TranslationKey::AlertWarning,
        TranslationKey::AlertError,
        TranslationKey::AlertInfoMessage,
        TranslationKey::AlertSuccessMessage,
        TranslationKey::AlertWarningMessage,
        TranslationKey::AlertErrorMessage,
        TranslationKey::AccordionGettingStarted,
        TranslationKey::AccordionFeatures,
        TranslationKey::AccordionConfiguration,
    ];
    assert(v@ =~= all_keys_spec());
    v
}

/// The English texts.
pub open spec fn english(key: TranslationKey) -> Seq<char> {
    match key {
        TranslationKey::AppTitle => "GPUI UI Kit Showcase"@,
        TranslationKey::AppSubtitle => "A comprehensive library of reusable UI components for GPUI applications."@,
        TranslationKey::MenuFile => "File"@,
        TranslationKey::MenuEdit => "Edit"@,
        TranslationKey::MenuView => "View"@,
        TranslationKey::MenuHelp => "Help"@,
        TranslationKey::MenuQuit => "Quit"@,
        TranslationKey::MenuTheme => "Theme"@,
        TranslationKey::MenuLanguage => "Language"@,
        TranslationKey::MenuSettings => "Settings"@,
        TranslationKey::ThemeDark => "Dark"@,
        TranslationKey::ThemeLight => "Light"@,
        TranslationKey::SectionButtons => "Buttons"@,
        TranslationKey::SectionTypography => "Typography"@,
        TranslationKey::SectionBadges => "Badges"@,
        TranslationKey::SectionAvatars => "Avatars"@,
        TranslationKey::SectionFormControls => "Form Controls"@,
        TranslationKey::SectionProgress => "Progress Indicators"@,
        TranslationKey::SectionAlerts => "Alerts"@,
        TranslationKey::SectionTabs => "Tabs"@,
        TranslationKey::SectionCards => "Cards"@,
        TranslationKey::SectionBreadcrumbs => "Breadcrumbs"@,
        TranslationKey::SectionSpinners => "Loading Indicators"@,
        TranslationKey::SectionLayout => "Layout Components"@,
        TranslationKey::SectionIconButtons => "Icon Buttons"@,
        TranslationKey::SectionToasts => "Toasts"@,
        TranslationKey::SectionDialogs => "Dialogs"@,
        TranslationKey::SectionMenus => "Menus"@,
        TranslationKey::SectionTooltips => "Tooltips"@,
        TranslationKey::SectionPotentiometers => "Potentiometers"@,
        TranslationKey::SectionAccordion => "Accordion"@,
        TranslationKey::SectionQrCode => "QR Code"@,
        TranslationKey::SectionContextMenu => "Context Menu"@,
        TranslationKey::SectionPopover => "Popover"@,
        TranslationKey::SectionSidebar => "Sidebar"@,
        TranslationKey::SectionStatusBar => "Status Bar"@,
        TranslationKey::SectionSearchBar => "Search Bar"@,
        TranslationKey::SectionKeyboardShortcut => "Keyboard Shortcuts"@,
        TranslationKey::SectionEmptyState => "Empty State"@,
        TranslationKey::SectionConfirmDialog => "Confirm Dialog"@,
        TranslationKey::SectionSplitPane => "Split Pane"@,
        TranslationKey::SectionImageView => "Image View"@,
        TranslationKey::SectionSettingsForm => "Settings Form"@,
        TranslationKey::SectionStepIndicator => "Step Indicator"@,
        TranslationKey::SectionLoadingOverlay => "Loading Overlay"@,
        TranslationKey::SectionTag => "Tag"@,
        TranslationKey::SectionToolbar => "Toolbar"@,
        TranslationKey::SectionNotification => "Notification"@,
        TranslationKey::SectionTreeView => "Tree View"@,
        TranslationKey::SectionDragList => "Drag List"@,
        TranslationKey::SectionCommandPalette => "Command Palette"@,
        TranslationKey::LabelVariants => "Variants"@,
        TranslationKey::LabelSizes => "Sizes"@,
        TranslationKey::LabelStates => "States"@,
        TranslationKey::LabelToggles => "Toggles"@,
        TranslationKey::LabelCheckboxes => "Checkboxes"@,
        TranslationKey::LabelSlider => "Slider"@,
        TranslationKey::LabelInput => "Input"@,
        TranslationKey::LabelSmall => "Small"@,
        TranslationKey::LabelMedium => "Medium"@,
        TranslationKey::LabelLarge => "Large"@,
        TranslationKey::LabelDisabled => "Disabled"@,
        TranslationKey::LabelSelected => "Selected"@,
        TranslationKey::ButtonPrimary => "Primary"@,
        TranslationKey::ButtonSecondary => "Secondary"@,
        TranslationKey::ButtonDestructive => "Destructive"@,
        TranslationKey::ButtonGhost => "Ghost"@,
        TranslationKey::ButtonOutline => "Outline"@,
        TranslationKey::ButtonCancel => "Cancel"@,
        TranslationKey::ButtonSave => "Save"@,
        TranslationKey::ButtonConfirm => "Confirm"@,
        TranslationKey::DialogConfirmTitle => "Confirm Action"@,
        TranslationKey::DialogConfirmMessage => "Are you sure you want to continue? This action cannot be undone."@,
        TranslationKey::AlertInfo => "Information"@,
        TranslationKey::AlertSuccess => "Success"@,
        TranslationKey::AlertWarning => "Warning"@,
        TranslationKey::AlertError => "Error"@,
        TranslationKey::AlertInfoMessage => "This is an informational message."@,
        TranslationKey::AlertSuccessMessage => "Your changes have been saved successfully."@,
        TranslationKey::AlertWarningMessage => "Please review your settings before continuing."@,
        TranslationKey::AlertErrorMessage => "An error occurred while processing your request."@,
        TranslationKey::AccordionGettingStarted => "Getting Started"@,
        TranslationKey::AccordionFeatures => "Features"@,
        TranslationKey::AccordionConfiguration => "Configuration"@,
    }
}

/// The French texts.
pub open spec fn french(key: TranslationKey) -> Seq<char> {
    match key {
        TranslationKey::AppTitle => "Vitrine du UI Kit GPUI"@,
        TranslationKey::AppSubtitle => "Une bibliotheque complete de composants UI reutilisables pour les applications GPUI."@,
        TranslationKey::MenuFile => "Fichier"@,
        TranslationKey::MenuEdit => "Edition"@,
        TranslationKey::MenuView => "Affichage"@,
        TranslationKey::MenuHelp => "Aide"@,
        TranslationKey::MenuQuit => "Quitter"@,
        TranslationKey::MenuTheme => "Theme"@,
        TranslationKey::MenuLanguage => "Langue"@,
        TranslationKey::MenuSettings => "Parametres"@,
        TranslationKey::ThemeDark => "Sombre"@,
        TranslationKey::ThemeLight => "Clair"@,
        TranslationKey::SectionButtons => "Boutons"@,
        TranslationKey::SectionTypography => "Typographie"@,
        TranslationKey::SectionBadges => "Badges"@,
        TranslationKey::SectionAvatars => "Avatars"@,
        TranslationKey::SectionFormControls => "Controles de formulaire"@,
        TranslationKey::SectionProgress => "Indicateurs de progression"@,
        TranslationKey::SectionAlerts => "Alertes"@,
        TranslationKey::SectionTabs => "Onglets"@,
        TranslationKey::SectionCards => "Cartes"@,
        TranslationKey::SectionBreadcrumbs => "Fil d'Ariane"@,
        TranslationKey::SectionSpinners => "Indicateurs de chargement"@,
        TranslationKey::SectionLayout => "Composants de mise en page"@,
        TranslationKey::SectionIconButtons => "Boutons icones"@,
        TranslationKey::SectionToasts => "Notifications"@,
        TranslationKey::SectionDialogs => "Dialogues"@,
        TranslationKey::SectionMenus => "Menus"@,
        TranslationKey::SectionTooltips => "Infobulles"@,
        TranslationKey::SectionPotentiometers => "Potentiometres"@,
        TranslationKey::SectionAccordion => "Accordeon"@,
        TranslationKey::SectionQrCode => "Code QR"@,
        TranslationKey::SectionContextMenu => "Menu contextuel"@,
        TranslationKey::SectionPopover => "Popover"@,
        TranslationKey::SectionSidebar => "Barre laterale"@,
        TranslationKey::SectionStatusBar => "Barre d'etat"@,
        TranslationKey::SectionSearchBar => "Barre de recherche"@,
        TranslationKey::SectionKeyboardShortcut => "Raccourcis clavier"@,
        TranslationKey::SectionEmptyState => "Etat vide"@,
        TranslationKey::SectionConfirmDialog => "Dialogue de confirmation"@,
        TranslationKey::SectionSplitPane => "Panneau divise"@,
        TranslationKey::SectionImageView => "Vue image"@,
        TranslationKey::SectionSettingsForm => "Formulaire de parametres"@,
        TranslationKey::SectionStepIndicator => "Indicateur d'etapes"@,
        TranslationKey::SectionLoadingOverlay => "Ecran de chargement"@,
        TranslationKey::SectionTag => "Etiquette"@,
        TranslationKey::SectionToolbar => "Barre d'outils"@,
        TranslationKey::SectionNotification => "Notification"@,
        TranslationKey::SectionTreeView => "Vue arborescente"@,
        TranslationKey::SectionDragList => "Liste glissable"@,
        TranslationKey::SectionCommandPalette => "Palette de commandes"@,
        TranslationKey::LabelVariants => "Variantes"@,
        TranslationKey::LabelSizes => "Tailles"@,
        TranslationKey::LabelStates => "Etats"@,
        TranslationKey::LabelToggles => "Interrupteurs"@,
        TranslationKey::LabelCheckboxes => "Cases a cocher"@,
        TranslationKey::LabelSlider => "Curseur"@,
        TranslationKey::LabelInput => "Champ de saisie"@,
        TranslationKey::LabelSmall => "Petit"@,
        TranslationKey::LabelMedium => "Moyen"@,
        TranslationKey::LabelLarge => "Grand"@,
        TranslationKey::LabelDisabled => "Desactive"@,
        TranslationKey::LabelSelected => "Selectionne"@,
        TranslationKey::ButtonPrimary => "Primaire"@,
        TranslationKey::ButtonSecondary => "Secondaire"@,
        TranslationKey::ButtonDestructive => "Destructif"@,
        TranslationKey::ButtonGhost => "Fantome"@,
        TranslationKey::ButtonOutline => "Contour"@,
        TranslationKey::ButtonCancel => "Annuler"@,
        TranslationKey::ButtonSave => "Enregistrer"@,
        TranslationKey::ButtonConfirm => "Confirmer"@,
        TranslationKey::DialogConfirmTitle => "Confirmer l'action"@,
        TranslationKey::DialogConfirmMessage => "Etes-vous sur de vouloir continuer ? Cette action est irreversible."@,
        TranslationKey::AlertInfo => "Information"@,
        TranslationKey::AlertSuccess => "Succes"@,
        TranslationKey::AlertWarning => "Avertissement"@,
        TranslationKey::AlertError => "Erreur"@,
        TranslationKey::AlertInfoMessage => "Ceci est un message d'information."@,
        TranslationKey::AlertSuccessMessage => "Vos modifications ont ete enregistrees avec succes."@,
        TranslationKey::AlertWarningMessage => "Veuillez verifier vos parametres avant de continuer."@,
        TranslationKey::AlertErrorMessage => "Une erreur s'est produite lors du traitement de votre demande."@,
        TranslationKey::AccordionGettingStarted => "Premiers pas"@,
        TranslationKey::AccordionFeatures => "Fonctionnalites"@,
        TranslationKey::AccordionConfiguration => "Configuration"@,
    }
}

/// The German texts.
pub open spec fn german(key: TranslationKey) -> Seq<char> {
    match key {
        TranslationKey::AppTitle => "GPUI UI Kit Showcase"@,
        TranslationKey::AppSubtitle => "Eine umfassende Bibliothek wiederverwendbarer UI-Komponenten fur GPUI-Anwendungen."@,
        TranslationKey::MenuFile => "Datei"@,
        TranslationKey::MenuEdit => "Bearbeiten"@,
        TranslationKey::MenuView => "Ansicht"@,
        TranslationKey::MenuHelp => "Hilfe"@,
        TranslationKey::MenuQuit => "Beenden"@,
        TranslationKey::MenuTheme => "Thema"@,
        TranslationKey::MenuLanguage => "Sprache"@,
        TranslationKey::MenuSettings => "Einstellungen"@,
        TranslationKey::ThemeDark => "Dunkel"@,
        TranslationKey::ThemeLight => "Hell"@,
        TranslationKey::SectionButtons => "Schaltflachen"@,
        TranslationKey::SectionTypography => "Typografie"@,
        TranslationKey::SectionBadges => "Abzeichen"@,
        TranslationKey::SectionAvatars => "Avatare"@,
        TranslationKey::SectionFormControls => "Formularsteuerung"@,
        TranslationKey::SectionProgress => "Fortschrittsanzeigen"@,
        TranslationKey::SectionAlerts => "Warnungen"@,
        TranslationKey::SectionTabs => "Registerkarten"@,
        TranslationKey::SectionCards => "Karten"@,
        TranslationKey::SectionBreadcrumbs => "Brotkrumen"@,
        TranslationKey::SectionSpinners => "Ladeanzeigen"@,
        TranslationKey::SectionLayout => "Layout-Komponenten"@,
        TranslationKey::SectionIconButtons => "Symbol-Schaltflachen"@,
        TranslationKey::SectionToasts => "Benachrichtigungen"@,
        TranslationKey::SectionDialogs => "Dialoge"@,
        TranslationKey::SectionMenus => "Menus"@,
        TranslationKey::SectionTooltips => "Tooltips"@,
        TranslationKey::SectionPotentiometers => "Potentiometer"@,
        TranslationKey::SectionAccordion => "Akkordeon"@,
        TranslationKey::SectionQrCode => "QR-Code"@,
        TranslationKey::SectionContextMenu => "Kontextmenu"@,
        TranslationKey::SectionPopover => "Popover"@,
        TranslationKey::SectionSidebar => "Seitenleiste"@,
        TranslationKey::SectionStatusBar => "Statusleiste"@,
        TranslationKey::SectionSearchBar => "Suchleiste"@,
        TranslationKey::SectionKeyboardShortcut => "Tastenkurzel"@,
        TranslationKey::SectionEmptyState => "Leerer Zustand"@,
        TranslationKey::SectionConfirmDialog => "Bestatigungsdialog"@,
        TranslationKey::SectionSplitPane => "Geteiltes Fenster"@,
        TranslationKey::SectionImageView => "Bildansicht"@,
        TranslationKey::SectionSettingsForm => "Einstellungsformular"@,
        TranslationKey::SectionStepIndicator => "Schrittanzeige"@,
        TranslationKey::SectionLoadingOverlay => "Ladebildschirm"@,
        TranslationKey::SectionTag => "Schlagwort"@,
        TranslationKey::SectionToolbar => "Symbolleiste"@,
        TranslationKey::SectionNotification => "Benachrichtigung"@,
        TranslationKey::SectionTreeView => "Baumansicht"@,
        TranslationKey::SectionDragList => "Zieh-Liste"@,
        TranslationKey::SectionCommandPalette => "Befehlspalette"@,
        TranslationKey::LabelVariants => "Varianten"@,
        TranslationKey::LabelSizes => "Grossen"@,
        TranslationKey::LabelStates => "Zustande"@,
        TranslationKey::LabelToggles => "Schalter"@,
        TranslationKey::LabelCheckboxes => "Kontrollkastchen"@,
        TranslationKey::LabelSlider => "Schieberegler"@,
        TranslationKey::LabelInput => "Eingabe"@,
        TranslationKey::LabelSmall => "Klein"@,
        TranslationKey::LabelMedium => "Mittel"@,
        TranslationKey::LabelLarge => "Gross"@,
        TranslationKey::LabelDisabled => "Deaktiviert"@,
        TranslationKey::LabelSelected => "Ausgewahlt"@,
        TranslationKey::ButtonPrimary => "Primar"@,
        TranslationKey::ButtonSecondary => "Sekundar"@,
        TranslationKey::ButtonDestructive => "Destruktiv"@,
        TranslationKey::ButtonGhost => "Geist"@,
        TranslationKey::ButtonOutline => "Umriss"@,
        TranslationKey::ButtonCancel => "Abbrechen"@,
        TranslationKey::ButtonSave => "Speichern"@,
        TranslationKey::ButtonConfirm => "Bestatigen"@,
        TranslationKey::DialogConfirmTitle => "Aktion bestatigen"@,
        TranslationKey::DialogConfirmMessage => "Sind Sie sicher, dass Sie fortfahren mochten? Diese Aktion kann nicht ruckgangig gemacht werden."@,
        TranslationKey::AlertInfo => "Information"@,
        TranslationKey::AlertSuccess => "Erfolg"@,
        TranslationKey::AlertWarning => "Warnung"@,
        TranslationKey::AlertError => "Fehler"@,
        TranslationKey::AlertInfoMessage => "Dies ist eine Informationsmeldung."@,
        TranslationKey::AlertSuccessMessage => "Ihre Anderungen wurden erfolgreich gespeichert."@,
        TranslationKey::AlertWarningMessage => "Bitte uberprufen Sie Ihre Einstellungen, bevor Sie fortfahren."@,
        TranslationKey::AlertErrorMessage => "Bei der Verarbeitung Ihrer Anfrage ist ein Fehler aufgetreten."@,
        TranslationKey::AccordionGettingStarted => "Erste Schritte"@,
        TranslationKey::AccordionFeatures => "Funktionen"@,
        TranslationKey::AccordionConfiguration => "Konfiguration"@,
    }
}

/// The Spanish texts.
pub open spec fn spanish(key: TranslationKey) -> Seq<char> {
    match key {
        TranslationKey::AppTitle => "Galeria del UI Kit GPUI"@,
        TranslationKey::AppSubtitle => "Una biblioteca completa de componentes UI reutilizables para aplicaciones GPUI."@,
        TranslationKey::MenuFile => "Archivo"@,
        TranslationKey::MenuEdit => "Editar"@,
        TranslationKey::MenuView => "Ver"@,
        TranslationKey::MenuHelp => "Ayuda"@,
        TranslationKey::MenuQuit => "Salir"@,
        TranslationKey::MenuTheme => "Tema"@,
        TranslationKey::MenuLanguage => "Idioma"@,
        TranslationKey::MenuSettings => "Configuracion"@,
        TranslationKey::ThemeDark => "Oscuro"@,
        TranslationKey::ThemeLight => "Claro"@,
        TranslationKey::SectionButtons => "Botones"@,
        TranslationKey::SectionTypography => "Tipografia"@,
        TranslationKey::SectionBadges => "Insignias"@,
        TranslationKey::SectionAvatars => "Avatares"@,
        TranslationKey::SectionFormControls => "Controles de formulario"@,
        TranslationKey::SectionProgress => "Indicadores de progreso"@,
        TranslationKey::SectionAlerts => "Alertas"@,
        TranslationKey::SectionTabs => "Pestanas"@,
        TranslationKey::SectionCards => "Tarjetas"@,
        TranslationKey::SectionBreadcrumbs => "Migas de pan"@,
        TranslationKey::SectionSpinners => "Indicadores de carga"@,
        TranslationKey::SectionLayout => "Componentes de diseno"@,
        TranslationKey::SectionIconButtons => "Botones de icono"@,
        TranslationKey::SectionToasts => "Notificaciones"@,
        TranslationKey::SectionDialogs => "Dialogos"@,
        TranslationKey::SectionMenus => "Menus"@,
        TranslationKey::SectionTooltips => "Sugerencias"@,
        TranslationKey::SectionPotentiometers => "Potenciometros"@,
        TranslationKey::SectionAccordion => "Acordeon"@,
        TranslationKey::SectionQrCode => "Codigo QR"@,
        TranslationKey::SectionContextMenu => "Menu contextual"@,
        TranslationKey::SectionPopover => "Popover"@,
        TranslationKey::SectionSidebar => "Barra lateral"@,
        TranslationKey::SectionStatusBar => "Barra de estado"@,
        TranslationKey::SectionSearchBar => "Barra de busqueda"@,
        TranslationKey::SectionKeyboardShortcut => "Atajos de teclado"@,
        TranslationKey::SectionEmptyState => "Estado vacio"@,
        TranslationKey::SectionConfirmDialog => "Dialogo de confirmacion"@,
        TranslationKey::SectionSplitPane => "Panel dividido"@,
        TranslationKey::SectionImageView => "Vista de imagen"@,
        TranslationKey::SectionSettingsForm => "Formulario de ajustes"@,
        TranslationKey::SectionStepIndicator => "Indicador de pasos"@,
        TranslationKey::SectionLoadingOverlay => "Pantalla de carga"@,
        TranslationKey::SectionTag => "Etiqueta"@,
        TranslationKey::SectionToolbar => "Barra de herramientas"@,
        TranslationKey::SectionNotification => "Notificacion"@,
        TranslationKey::SectionTreeView => "Vista de arbol"@,
        TranslationKey::SectionDragList => "Lista arrastrable"@,
        TranslationKey::SectionCommandPalette => "Paleta de comandos"@,
        TranslationKey::LabelVariants => "Variantes"@,
        TranslationKey::LabelSizes => "Tamanos"@,
        TranslationKey::LabelStates => "Estados"@,
        TranslationKey::LabelToggles => "Interruptores"@,
        TranslationKey::LabelCheckboxes => "Casillas"@,
        TranslationKey::LabelSlider => "Deslizador"@,
        TranslationKey::LabelInput => "Entrada"@,
        TranslationKey::LabelSmall => "Pequeno"@,
        TranslationKey::LabelMedium => "Mediano"@,
        TranslationKey::LabelLarge => "Grande"@,
        TranslationKey::LabelDisabled => "Desactivado"@,
        TranslationKey::LabelSelected => "Seleccionado"@,
        TranslationKey::ButtonPrimary => "Primario"@,
        TranslationKey::ButtonSecondary => "Secundario"@,
        TranslationKey::ButtonDestructive => "Destructivo"@,
        TranslationKey::ButtonGhost => "Fantasma"@,
        TranslationKey::ButtonOutline => "Contorno"@,
        TranslationKey::ButtonCancel => "Cancelar"@,
        TranslationKey::ButtonSave => "Guardar"@,
        TranslationKey::ButtonConfirm => "Confirmar"@,
        TranslationKey::DialogConfirmTitle => "Confirmar accion"@,
        TranslationKey::DialogConfirmMessage => "Esta seguro de que desea continuar? Esta accion no se puede deshacer."@,
        TranslationKey::AlertInfo => "Informacion"@,
        TranslationKey::AlertSuccess => "Exito"@,
        TranslationKey::AlertWarning => "Advertencia"@,
        TranslationKey::AlertError => "Error"@,
        TranslationKey::AlertInfoMessage => "Este es un mensaje informativo."@,
        TranslationKey::AlertSuccessMessage => "Sus cambios se han guardado correctamente."@,
        TranslationKey::AlertWarningMessage => "Por favor revise su configuracion antes de continuar."@,
        TranslationKey::AlertErrorMessage => "Se produjo un error al procesar su solicitud."@,
        TranslationKey::AccordionGettingStarted => "Primeros pasos"@,
        TranslationKey::AccordionFeatures => "Caracteristicas"@,
        TranslationKey::AccordionConfiguration => "Configuracion"@,
    }
}

/// The Japanese texts.
pub open spec fn japanese(key: TranslationKey) -> Seq<char> {
    match key {
        TranslationKey::AppTitle => "GPUI UI Kit Showcase"@,
        TranslationKey::AppSubtitle => "GPUIアプリケーション用の再利用可能なUIコンポーネントの包括的なライブラリ。"@,
        TranslationKey::MenuFile => "ファイル"@,
        TranslationKey::MenuEdit => "編集"@,
        TranslationKey::MenuView => "表示"@,
        TranslationKey::MenuHelp => "ヘルプ"@,
        TranslationKey::MenuQuit => "終了"@,
        TranslationKey::MenuTheme => "テーマ"@,
        TranslationKey::MenuLanguage => "言語"@,
        TranslationKey::MenuSettings => "設定"@,
        TranslationKey::ThemeDark => "ダーク"@,
        TranslationKey::ThemeLight => "ライト"@,
        TranslationKey::SectionButtons => "ボタン"@,
        TranslationKey::SectionTypography => "タイポグラフィ"@,
        TranslationKey::SectionBadges => "バッジ"@,
        TranslationKey::SectionAvatars => "アバター"@,
        TranslationKey::SectionFormControls => "フォームコントロール"@,
        TranslationKey::SectionProgress => "進捗インジケーター"@,
        TranslationKey::SectionAlerts => "アラート"@,
        TranslationKey::SectionTabs => "タブ"@,
        TranslationKey::SectionCards => "カード"@,
        TranslationKey::SectionBreadcrumbs => "パンくずリスト"@,
        TranslationKey::SectionSpinners => "読み込みインジケーター"@,
        TranslationKey::SectionLayout => "レイアウトコンポーネント"@,
        TranslationKey::SectionIconButtons => "アイコンボタン"@,
        TranslationKey::SectionToasts => "トースト"@,
        TranslationKey::SectionDialogs => "ダイアログ"@,
        TranslationKey::SectionMenus => "メニュー"@,
        TranslationKey::SectionTooltips => "ツールチップ"@,
        TranslationKey::SectionPotentiometers => "ポテンショメーター"@,
        TranslationKey::SectionAccordion => "アコーディオン"@,
        TranslationKey::SectionQrCode => "QRコード"@,
        TranslationKey::SectionContextMenu => "コンテキストメニュー"@,
        TranslationKey::SectionPopover => "ポップオーバー"@,
        TranslationKey::SectionSidebar => "サイドバー"@,
        TranslationKey::SectionStatusBar => "ステータスバー"@,
        TranslationKey::SectionSearchBar => "検索バー"@,
        TranslationKey::SectionKeyboardShortcut => "キーボードショートカット"@,
        TranslationKey::SectionEmptyState => "空の状態"@,
        TranslationKey::SectionConfirmDialog => "確認ダイアログ"@,
        TranslationKey::SectionSplitPane => "分割パネル"@,
        TranslationKey::SectionImageView => "画像ビュー"@,
        TranslationKey::SectionSettingsForm => "設定フォーム"@,
        TranslationKey::SectionStepIndicator => "ステップインジケーター"@,
        TranslationKey::SectionLoadingOverlay => "ローディングオーバーレイ"@,
        TranslationKey::SectionTag => "タグ"@,
        TranslationKey::SectionToolbar => "ツールバー"@,
        TranslationKey::SectionNotification => "通知"@,
        TranslationKey::SectionTreeView => "ツリービュー"@,
        TranslationKey::SectionDragList => "ドラッグリスト"@,
        TranslationKey::SectionCommandPalette => "コマンドパレット"@,
        TranslationKey::LabelVariants => "バリエーション"@,
        TranslationKey::LabelSizes => "サイズ"@,
        TranslationKey::LabelStates => "状態"@,
        TranslationKey::LabelToggles => "トグル"@,
        TranslationKey::LabelCheckboxes => "チェックボックス"@,
        TranslationKey::LabelSlider => "スライダー"@,
        TranslationKey::LabelInput => "入力"@,
        TranslationKey::LabelSmall => "小"@,
        TranslationKey::LabelMedium => "中"@,
        TranslationKey::LabelLarge => "大"@,
        TranslationKey::LabelDisabled => "無効"@,
        TranslationKey::LabelSelected => "選択済み"@,
        TranslationKey::ButtonPrimary => "プライマリ"@,
        TranslationKey::ButtonSecondary => "セカンダリ"@,
        TranslationKey::ButtonDestructive => "破壊的"@,
        TranslationKey::ButtonGhost => "ゴースト"@,
        TranslationKey::ButtonOutline => "アウトライン"@,
        TranslationKey::ButtonCancel => "キャンセル"@,
        TranslationKey::ButtonSave => "保存"@,
        TranslationKey::ButtonConfirm => "確認"@,
        TranslationKey::DialogConfirmTitle => "アクションの確認"@,
        TranslationKey::DialogConfirmMessage => "続行してもよろしいですか？この操作は元に戻せません。"@,
        TranslationKey::AlertInfo => "情報"@,
        TranslationKey::AlertSuccess => "成功"@,
        TranslationKey::AlertWarning => "警告"@,
        TranslationKey::AlertError => "エラー"@,
        TranslationKey::AlertInfoMessage => "これは情報メッセージです。"@,
        TranslationKey::AlertSuccessMessage => "変更が正常に保存されました。"@,
        TranslationKey::AlertWarningMessage => "続行する前に設定を確認してください。"@,
        TranslationKey::AlertErrorMessage => "リクエストの処理中にエラーが発生しました。"@,
        TranslationKey::AccordionGettingStarted => "はじめに"@,
        TranslationKey::AccordionFeatures => "機能"@,
        TranslationKey::AccordionConfiguration => "設定"@,
    }
}

/// The English text for `key`.
fn english_text(key: TranslationKey) -> (s: &'static str)
    ensures
        s@ == english(key),
{
    match key {
        TranslationKey::AppTitle => "GPUI UI Kit Showcase",
        TranslationKey::AppSubtitle => "A comprehensive library of reusable UI components for GPUI applications.",
        TranslationKey::MenuFile => "File",
        TranslationKey::MenuEdit => "Edit",
        TranslationKey::MenuView => "View",
        TranslationKey::MenuHelp => "Help",
        TranslationKey::MenuQuit => "Quit",
        TranslationKey::MenuTheme => "Theme",
        TranslationKey::MenuLanguage => "Language",
        TranslationKey::MenuSettings => "Settings",
        TranslationKey::ThemeDark => "Dark",
        TranslationKey::ThemeLight => "Light",
        TranslationKey::SectionButtons => "Buttons",
        TranslationKey::SectionTypography => "Typography",
        TranslationKey::SectionBadges => "Badges",
        TranslationKey::SectionAvatars => "Avatars",
        TranslationKey::SectionFormControls => "Form Controls",
        TranslationKey::SectionProgress => "Progress Indicators",
        TranslationKey::SectionAlerts => "Alerts",
        TranslationKey::SectionTabs => "Tabs",
        TranslationKey::SectionCards => "Cards",
        TranslationKey::SectionBreadcrumbs => "Breadcrumbs",
        TranslationKey::SectionSpinners => "Loading Indicators",
        TranslationKey::SectionLayout => "Layout Components",
        TranslationKey::SectionIconButtons => "Icon Buttons",
        TranslationKey::SectionToasts => "Toasts",
        TranslationKey::SectionDialogs => "Dialogs",
        TranslationKey::SectionMenus => "Menus",
        TranslationKey::SectionTooltips => "Tooltips",
        TranslationKey::SectionPotentiometers => "Potentiometers",
        TranslationKey::SectionAccordion => "Accordion",
        TranslationKey::SectionQrCode => "QR Code",
        TranslationKey::SectionContextMenu => "Context Menu",
        TranslationKey::SectionPopover => "Popover",
        TranslationKey::SectionSidebar => "Sidebar",
        TranslationKey::SectionStatusBar => "Status Bar",
        TranslationKey::SectionSearchBar => "Search Bar",
        TranslationKey::SectionKeyboardShortcut => "Keyboard Shortcuts",
        TranslationKey::SectionEmptyState => "Empty State",
        TranslationKey::SectionConfirmDialog => "Confirm Dialog",
        TranslationKey::SectionSplitPane => "Split Pane",
        TranslationKey::SectionImageView => "Image View",
        TranslationKey::SectionSettingsForm => "Settings Form",
        TranslationKey::SectionStepIndicator => "Step Indicator",
        TranslationKey::SectionLoadingOverlay => "Loading Overlay",
        TranslationKey::SectionTag => "Tag",
        TranslationKey::SectionToolbar => "Toolbar",
        TranslationKey::SectionNotification => "Notification",
        TranslationKey::SectionTreeView => "Tree View",
        TranslationKey::SectionDragList => "Drag List",
        TranslationKey::SectionCommandPalette => "Command Palette",
        TranslationKey::LabelVariants => "Variants",
        TranslationKey::LabelSizes => "Sizes",
        TranslationKey::LabelStates => "States",
        TranslationKey::LabelToggles => "Toggles",
        TranslationKey::LabelCheckboxes => "Checkboxes",
        TranslationKey::LabelSlider => "Slider",
        TranslationKey::LabelInput => "Input",
        TranslationKey::LabelSmall => "Small",
        TranslationKey::LabelMedium => "Medium",
        TranslationKey::LabelLarge => "Large",
        TranslationKey::LabelDisabled => "Disabled",
        TranslationKey::LabelSelected => "Selected",
        TranslationKey::ButtonPrimary => "Primary",
        TranslationKey::ButtonSecondary => "Secondary",
        TranslationKey::ButtonDestructive => "Destructive",
        TranslationKey::ButtonGhost => "Ghost",
        TranslationKey::ButtonOutline => "Outline",
        TranslationKey::ButtonCancel => "Cancel",
        TranslationKey::ButtonSave => "Save",
        TranslationKey::ButtonConfirm => "Confirm",
        TranslationKey::DialogConfirmTitle => "Confirm Action",
        TranslationKey::DialogConfirmMessage => "Are you sure you want to continue? This action cannot be undone.",
        TranslationKey::AlertInfo => "Information",
        TranslationKey::AlertSuccess => "Success",
        TranslationKey::AlertWarning => "Warning",
        TranslationKey::AlertError => "Error",
        TranslationKey::AlertInfoMessage => "This is an informational message.",
        TranslationKey::AlertSuccessMessage => "Your changes have been saved successfully.",
        TranslationKey::AlertWarningMessage => "Please review your settings before continuing.",
        TranslationKey::AlertErrorMessage => "An error occurred while processing your request.",
        TranslationKey::AccordionGettingStarted => "Getting Started",
        TranslationKey::AccordionFeatures => "Features",
        TranslationKey::AccordionConfiguration => "Configuration",
    }
}

/// The French text for `key`.
fn french_text(key: TranslationKey) -> (s: &'static str)
    ensures
        s@ == french(key),
{
    match key {
        TranslationKey::AppTitle => "Vitrine du UI Kit GPUI",
        TranslationKey::AppSubtitle => "Une bibliotheque complete de composants UI reutilisables pour les applications GPUI.",
        TranslationKey::MenuFile => "Fichier",
        TranslationKey::MenuEdit => "Edition",
        TranslationKey::MenuView => "Affichage",
        TranslationKey::MenuHelp => "Aide",
        TranslationKey::MenuQuit => "Quitter",
        TranslationKey::MenuTheme => "Theme",
        TranslationKey::MenuLanguage => "Langue",
        TranslationKey::MenuSettings => "Parametres",
        TranslationKey::ThemeDark => "Sombre",
        TranslationKey::ThemeLight => "Clair",
        TranslationKey::SectionButtons => "Boutons",
        TranslationKey::SectionTypography => "Typographie",
        TranslationKey::SectionBadges => "Badges",
        TranslationKey::SectionAvatars => "Avatars",
        TranslationKey::SectionFormControls => "Controles de formulaire",
        TranslationKey::SectionProgress => "Indicateurs de progression",
        TranslationKey::SectionAlerts => "Alertes",
        TranslationKey::SectionTabs => "Onglets",
        TranslationKey::SectionCards => "Cartes",
        TranslationKey::SectionBreadcrumbs => "Fil d'Ariane",
        TranslationKey::SectionSpinners => "Indicateurs de chargement",
        TranslationKey::SectionLayout => "Composants de mise en page",
        TranslationKey::SectionIconButtons => "Boutons icones",
        TranslationKey::SectionToasts => "Notifications",
        TranslationKey::SectionDialogs => "Dialogues",
        TranslationKey::SectionMenus => "Menus",
        TranslationKey::SectionTooltips => "Infobulles",
        TranslationKey::SectionPotentiometers => "Potentiometres",
        TranslationKey::SectionAccordion => "Accordeon",
        TranslationKey::SectionQrCode => "Code QR",
        TranslationKey::SectionContextMenu => "Menu contextuel",
        TranslationKey::SectionPopover => "Popover",
        TranslationKey::SectionSidebar => "Barre laterale",
        TranslationKey::SectionStatusBar => "Barre d'etat",
        TranslationKey::SectionSearchBar => "Barre de recherche",
        TranslationKey::SectionKeyboardShortcut => "Raccourcis clavier",
        TranslationKey::SectionEmptyState => "Etat vide",
        TranslationKey::SectionConfirmDialog => "Dialogue de confirmation",
        TranslationKey::SectionSplitPane => "Panneau divise",
        TranslationKey::SectionImageView => "Vue image",
        TranslationKey::SectionSettingsForm => "Formulaire de parametres",
        TranslationKey::SectionStepIndicator => "Indicateur d'etapes",
        TranslationKey::SectionLoadingOverlay => "Ecran de chargement",
        TranslationKey::SectionTag => "Etiquette",
        TranslationKey::SectionToolbar => "Barre d'outils",
        TranslationKey::SectionNotification => "Notification",
        TranslationKey::SectionTreeView => "Vue arborescente",
        TranslationKey::SectionDragList => "Liste glissable",
        TranslationKey::SectionCommandPalette => "Palette de commandes",
        TranslationKey::LabelVariants => "Variantes",
        TranslationKey::LabelSizes => "Tailles",
        TranslationKey::LabelStates => "Etats",
        TranslationKey::LabelToggles => "Interrupteurs",
        TranslationKey::LabelCheckboxes => "Cases a cocher",
        TranslationKey::LabelSlider => "Curseur",
        TranslationKey::LabelInput => "Champ de saisie",
        TranslationKey::LabelSmall => "Petit",
        TranslationKey::LabelMedium => "Moyen",
        TranslationKey::LabelLarge => "Grand",
        TranslationKey::LabelDisabled => "Desactive",
        TranslationKey::LabelSelected => "Selectionne",
        TranslationKey::ButtonPrimary => "Primaire",
        TranslationKey::ButtonSecondary => "Secondaire",
        TranslationKey::ButtonDestructive => "Destructif",
        TranslationKey::ButtonGhost => "Fantome",
        TranslationKey::ButtonOutline => "Contour",
        TranslationKey::ButtonCancel => "Annuler",
        TranslationKey::ButtonSave => "Enregistrer",
        TranslationKey::ButtonConfirm => "Confirmer",
        TranslationKey::DialogConfirmTitle => "Confirmer l'action",
        TranslationKey::DialogConfirmMessage => "Etes-vous sur de vouloir continuer ? Cette action est irreversible.",
        TranslationKey::AlertInfo => "Information",
        TranslationKey::AlertSuccess => "Succes",
        TranslationKey::AlertWarning => "Avertissement",
        TranslationKey::AlertError => "Erreur",
        TranslationKey::AlertInfoMessage => "Ceci est un message d'information.",
        TranslationKey::AlertSuccessMessage => "Vos modifications ont ete enregistrees avec succes.",
        TranslationKey::AlertWarningMessage => "Veuillez verifier vos parametres avant de continuer.",
        TranslationKey::AlertErrorMessage => "Une erreur s'est produite lors du traitement de votre demande.",
        TranslationKey::AccordionGettingStarted => "Premiers pas",
        TranslationKey::AccordionFeatures => "Fonctionnalites",
        TranslationKey::AccordionConfiguration => "Configuration",
    }
}

/// The German text for `key`.
fn german_text(key: TranslationKey) -> (s: &'static str)
    ensures
        s@ == german(key),
{
    match key {
        TranslationKey::AppTitle => "GPUI UI Kit Showcase",
        TranslationKey::AppSubtitle => "Eine umfassende Bibliothek wiederverwendbarer UI-Komponenten fur GPUI-Anwendungen.",
        TranslationKey::MenuFile => "Datei",
        TranslationKey::MenuEdit => "Bearbeiten",
        TranslationKey::MenuView => "Ansicht",
        TranslationKey::MenuHelp => "Hilfe",
        TranslationKey::MenuQuit => "Beenden",
        TranslationKey::MenuTheme => "Thema",
        TranslationKey::MenuLanguage => "Sprache",
        TranslationKey::MenuSettings => "Einstellungen",
        TranslationKey::ThemeDark => "Dunkel",
        TranslationKey::ThemeLight => "Hell",
        TranslationKey::SectionButtons => "Schaltflachen",
        TranslationKey::SectionTypography => "Typografie",
        TranslationKey::SectionBadges => "Abzeichen",
        TranslationKey::SectionAvatars => "Avatare",
        TranslationKey::SectionFormControls => "Formularsteuerung",
        TranslationKey::SectionProgress => "Fortschrittsanzeigen",
        TranslationKey::SectionAlerts => "Warnungen",
        TranslationKey::SectionTabs => "Registerkarten",
        TranslationKey::SectionCards => "Karten",
        TranslationKey::SectionBreadcrumbs => "Brotkrumen",
        TranslationKey::SectionSpinners => "Ladeanzeigen",
        TranslationKey::SectionLayout => "Layout-Komponenten",
        TranslationKey::SectionIconButtons => "Symbol-Schaltflachen",
        TranslationKey::SectionToasts => "Benachrichtigungen",
        TranslationKey::SectionDialogs => "Dialoge",
        TranslationKey::SectionMenus => "Menus",
        TranslationKey::SectionTooltips => "Tooltips",
        TranslationKey::SectionPotentiometers => "Potentiometer",
        TranslationKey::SectionAccordion => "Akkordeon",
        TranslationKey::SectionQrCode => "QR-Code",
        TranslationKey::SectionContextMenu => "Kontextmenu",
        TranslationKey::SectionPopover => "Popover",
        TranslationKey::SectionSidebar => "Seitenleiste",
        TranslationKey::SectionStatusBar => "Statusleiste",
        TranslationKey::SectionSearchBar => "Suchleiste",
        TranslationKey::SectionKeyboardShortcut => "Tastenkurzel",
        TranslationKey::SectionEmptyState => "Leerer Zustand",
        TranslationKey::SectionConfirmDialog => "Bestatigungsdialog",
        TranslationKey::SectionSplitPane => "Geteiltes Fenster",
        TranslationKey::SectionImageView => "Bildansicht",
        TranslationKey::SectionSettingsForm => "Einstellungsformular",
        TranslationKey::SectionStepIndicator => "Schrittanzeige",
        TranslationKey::SectionLoadingOverlay => "Ladebildschirm",
        TranslationKey::SectionTag => "Schlagwort",
        TranslationKey::SectionToolbar => "Symbolleiste",
        TranslationKey::SectionNotification => "Benachrichtigung",
        TranslationKey::SectionTreeView => "Baumansicht",
        TranslationKey::SectionDragList => "Zieh-Liste",
        TranslationKey::SectionCommandPalette => "Befehlspalette",
        TranslationKey::LabelVariants => "Varianten",
        TranslationKey::LabelSizes => "Grossen",
        TranslationKey::LabelStates => "Zustande",
        TranslationKey::LabelToggles => "Schalter",
        TranslationKey::LabelCheckboxes => "Kontrollkastchen",
        TranslationKey::LabelSlider => "Schieberegler",
        TranslationKey::LabelInput => "Eingabe",
        TranslationKey::LabelSmall => "Klein",
        TranslationKey::LabelMedium => "Mittel",
        TranslationKey::LabelLarge => "Gross",
        TranslationKey::LabelDisabled => "Deaktiviert",
        TranslationKey::LabelSelected => "Ausgewahlt",
        TranslationKey::ButtonPrimary => "Primar",
        TranslationKey::ButtonSecondary => "Sekundar",
        TranslationKey::ButtonDestructive => "Destruktiv",
        TranslationKey::ButtonGhost => "Geist",
        TranslationKey::ButtonOutline => "Umriss",
        TranslationKey::ButtonCancel => "Abbrechen",
        TranslationKey::ButtonSave => "Speichern",
        TranslationKey::ButtonConfirm => "Bestatigen",
        TranslationKey::DialogConfirmTitle => "Aktion bestatigen",
        TranslationKey::DialogConfirmMessage => "Sind Sie sicher, dass Sie fortfahren mochten? Diese Aktion kann nicht ruckgangig gemacht werden.",
        TranslationKey::AlertInfo => "Information",
        TranslationKey::AlertSuccess => "Erfolg",
        TranslationKey::AlertWarning => "Warnung",
        TranslationKey::AlertError => "Fehler",
        TranslationKey::AlertInfoMessage => "Dies ist eine Informationsmeldung.",
        TranslationKey::AlertSuccessMessage => "Ihre Anderungen wurden erfolgreich gespeichert.",
        TranslationKey::AlertWarningMessage => "Bitte uberprufen Sie Ihre Einstellungen, bevor Sie fortfahren.",
        TranslationKey::AlertErrorMessage => "Bei der Verarbeitung Ihrer Anfrage ist ein Fehler aufgetreten.",
        TranslationKey::AccordionGettingStarted => "Erste Schritte",
        TranslationKey::AccordionFeatures => "Funktionen",
        TranslationKey::AccordionConfiguration => "Konfiguration",
    }
}

/// The Spanish text for `key`.
fn spanish_text(key: TranslationKey) -> (s: &'static str)
    ensures
        s@ == spanish(key),
{
    match key {
        TranslationKey::AppTitle => "Galeria del UI Kit GPUI",
        TranslationKey::AppSubtitle => "Una biblioteca completa de componentes UI reutilizables para aplicaciones GPUI.",
        TranslationKey::MenuFile => "Archivo",
        TranslationKey::MenuEdit => "Editar",
        TranslationKey::MenuView => "Ver",
        TranslationKey::MenuHelp => "Ayuda",
        TranslationKey::MenuQuit => "Salir",
        TranslationKey::MenuTheme => "Tema",
        TranslationKey::MenuLanguage => "Idioma",
        TranslationKey::MenuSettings => "Configuracion",
        TranslationKey::ThemeDark => "Oscuro",
        TranslationKey::ThemeLight => "Claro",
        TranslationKey::SectionButtons => "Botones",
        TranslationKey::SectionTypography => "Tipografia",
        TranslationKey::SectionBadges => "Insignias",
        TranslationKey::SectionAvatars => "Avatares",
        TranslationKey::SectionFormControls => "Controles de formulario",
        TranslationKey::SectionProgress => "Indicadores de progreso",
        TranslationKey::SectionAlerts => "Alertas",
        TranslationKey::SectionTabs => "Pestanas",
        TranslationKey::SectionCards => "Tarjetas",
        TranslationKey::SectionBreadcrumbs => "Migas de pan",
        TranslationKey::SectionSpinners => "Indicadores de carga",
        TranslationKey::SectionLayout => "Componentes de diseno",
        TranslationKey::SectionIconButtons => "Botones de icono",
        TranslationKey::SectionToasts => "Notificaciones",
        TranslationKey::SectionDialogs => "Dialogos",
        TranslationKey::SectionMenus => "Menus",
        TranslationKey::SectionTooltips => "Sugerencias",
        TranslationKey::SectionPotentiometers => "Potenciometros",
        TranslationKey::SectionAccordion => "Acordeon",
        TranslationKey::SectionQrCode => "Codigo QR",
        TranslationKey::SectionContextMenu => "Menu contextual",
        TranslationKey::SectionPopover => "Popover",
        TranslationKey::SectionSidebar => "Barra lateral",
        TranslationKey::SectionStatusBar => "Barra de estado",
        TranslationKey::SectionSearchBar => "Barra de busqueda",
        TranslationKey::SectionKeyboardShortcut => "Atajos de teclado",
        TranslationKey::SectionEmptyState => "Estado vacio",
        TranslationKey::SectionConfirmDialog => "Dialogo de confirmacion",
        TranslationKey::SectionSplitPane => "Panel dividido",
        TranslationKey::SectionImageView => "Vista de imagen",
        TranslationKey::SectionSettingsForm => "Formulario de ajustes",
        TranslationKey::SectionStepIndicator => "Indicador de pasos",
        TranslationKey::SectionLoadingOverlay => "Pantalla de carga",
        TranslationKey::SectionTag => "Etiqueta",
        TranslationKey::SectionToolbar => "Barra de herramientas",
        TranslationKey::SectionNotification => "Notificacion",
        TranslationKey::SectionTreeView => "Vista de arbol",
        TranslationKey::SectionDragList => "Lista arrastrable",
        TranslationKey::SectionCommandPalette => "Paleta de comandos",
        TranslationKey::LabelVariants => "Variantes",
        TranslationKey::LabelSizes => "Tamanos",
        TranslationKey::LabelStates => "Estados",
        TranslationKey::LabelToggles => "Interruptores",
        TranslationKey::LabelCheckboxes => "Casillas",
        TranslationKey::LabelSlider => "Deslizador",
        TranslationKey::LabelInput => "Entrada",
        TranslationKey::LabelSmall => "Pequeno",
        TranslationKey::LabelMedium => "Mediano",
        TranslationKey::LabelLarge => "Grande",
        TranslationKey::LabelDisabled => "Desactivado",
        TranslationKey::LabelSelected => "Seleccionado",
        TranslationKey::ButtonPrimary => "Primario",
        TranslationKey::ButtonSecondary => "Secundario",
        TranslationKey::ButtonDestructive => "Destructivo",
        TranslationKey::ButtonGhost => "Fantasma",
        TranslationKey::ButtonOutline => "Contorno",
        TranslationKey::ButtonCancel => "Cancelar",
        TranslationKey::ButtonSave => "Guardar",
        TranslationKey::ButtonConfirm => "Confirmar",
        TranslationKey::DialogConfirmTitle => "Confirmar accion",
        TranslationKey::DialogConfirmMessage => "Esta seguro de que desea continuar? Esta accion no se puede deshacer.",
        TranslationKey::AlertInfo => "Informacion",
        TranslationKey::AlertSuccess => "Exito",
        TranslationKey::AlertWarning => "Advertencia",
        TranslationKey::AlertError => "Error",
        TranslationKey::AlertInfoMessage => "Este es un mensaje informativo.",
        TranslationKey::AlertSuccessMessage => "Sus cambios se han guardado correctamente.",
        TranslationKey::AlertWarningMessage => "Por favor revise su configuracion antes de continuar.",
        TranslationKey::AlertErrorMessage => "Se produjo un error al procesar su solicitud.",
        TranslationKey::AccordionGettingStarted => "Primeros pasos",
        TranslationKey::AccordionFeatures => "Caracteristicas",
        TranslationKey::AccordionConfiguration => "Configuracion",
    }
}

/// The Japanese text for `key`.
fn japanese_text(key: TranslationKey) -> (s: &'static str)
    ensures
        s@ == japanese(key),
{
    match key {
        TranslationKey::AppTitle => "GPUI UI Kit Showcase",
        TranslationKey::AppSubtitle => "GPUIアプリケーション用の再利用可能なUIコンポーネントの包括的なライブラリ。",
        TranslationKey::MenuFile => "ファイル",
        TranslationKey::MenuEdit => "編集",
        TranslationKey::MenuView => "表示",
        TranslationKey::MenuHelp => "ヘルプ",
        TranslationKey::MenuQuit => "終了",
        TranslationKey::MenuTheme => "テーマ",
        TranslationKey::MenuLanguage => "言語",
        TranslationKey::MenuSettings => "設定",
        TranslationKey::ThemeDark => "ダーク",
        TranslationKey::ThemeLight => "ライト",
        TranslationKey::SectionButtons => "ボタン",
        TranslationKey::SectionTypography => "タイポグラフィ",
        TranslationKey::SectionBadges => "バッジ",
        TranslationKey::SectionAvatars => "アバター",
        TranslationKey::SectionFormControls => "フォームコントロール",
        TranslationKey::SectionProgress => "進捗インジケーター",
        TranslationKey::SectionAlerts => "アラート",
        TranslationKey::SectionTabs => "タブ",
        TranslationKey::SectionCards => "カード",
        TranslationKey::SectionBreadcrumbs => "パンくずリスト",
        TranslationKey::SectionSpinners => "読み込みインジケーター",
        TranslationKey::SectionLayout => "レイアウトコンポーネント",
        TranslationKey::SectionIconButtons => "アイコンボタン",
        TranslationKey::SectionToasts => "トースト",
        TranslationKey::SectionDialogs => "ダイアログ",
        TranslationKey::SectionMenus => "メニュー",
        TranslationKey::SectionTooltips => "ツールチップ",
        TranslationKey::SectionPotentiometers => "ポテンショメーター",
        TranslationKey::SectionAccordion => "アコーディオン",
        TranslationKey::SectionQrCode => "QRコード",
        TranslationKey::SectionContextMenu => "コンテキストメニュー",
        TranslationKey::SectionPopover => "ポップオーバー",
        TranslationKey::SectionSidebar => "サイドバー",
        TranslationKey::SectionStatusBar => "ステータスバー",
        TranslationKey::SectionSearchBar => "検索バー",
        TranslationKey::SectionKeyboardShortcut => "キーボードショートカット",
        TranslationKey::SectionEmptyState => "空の状態",
        TranslationKey::SectionConfirmDialog => "確認ダイアログ",
        TranslationKey::SectionSplitPane => "分割パネル",
        TranslationKey::SectionImageView => "画像ビュー",
        TranslationKey::SectionSettingsForm => "設定フォーム",
        TranslationKey::SectionStepIndicator => "ステップインジケーター",
        TranslationKey::SectionLoadingOverlay => "ローディングオーバーレイ",
        TranslationKey::SectionTag => "タグ",
        TranslationKey::SectionToolbar => "ツールバー",
        TranslationKey::SectionNotification => "通知",
        TranslationKey::SectionTreeView => "ツリービュー",
        TranslationKey::SectionDragList => "ドラッグリスト",
        TranslationKey::SectionCommandPalette => "コマンドパレット",
        TranslationKey::LabelVariants => "バリエーション",
        TranslationKey::LabelSizes => "サイズ",
        TranslationKey::LabelStates => "状態",
        TranslationKey::LabelToggles => "トグル",
        TranslationKey::LabelCheckboxes => "チェックボックス",
        TranslationKey::LabelSlider => "スライダー",
        TranslationKey::LabelInput => "入力",
        TranslationKey::LabelSmall => "小",
        TranslationKey::LabelMedium => "中",
        TranslationKey::LabelLarge => "大",
        TranslationKey::LabelDisabled => "無効",
        TranslationKey::LabelSelected => "選択済み",
        TranslationKey::ButtonPrimary => "プライマリ",
        TranslationKey::ButtonSecondary => "セカンダリ",
        TranslationKey::ButtonDestructive => "破壊的",
        TranslationKey::ButtonGhost => "ゴースト",
        TranslationKey::ButtonOutline => "アウトライン",
        TranslationKey::ButtonCancel => "キャンセル",
        TranslationKey::ButtonSave => "保存",
        TranslationKey::ButtonConfirm => "確認",
        TranslationKey::DialogConfirmTitle => "アクションの確認",
        TranslationKey::DialogConfirmMessage => "続行してもよろしいですか？この操作は元に戻せません。",
        TranslationKey::AlertInfo => "情報",
        TranslationKey::AlertSuccess => "成功",
        TranslationKey::AlertWarning => "警告",
        TranslationKey::AlertError => "エラー",
        TranslationKey::AlertInfoMessage => "これは情報メッセージです。",
        TranslationKey::AlertSuccessMessage => "変更が正常に保存されました。",
        TranslationKey::AlertWarningMessage => "続行する前に設定を確認してください。",
        TranslationKey::AlertErrorMessage => "リクエストの処理中にエラーが発生しました。",
        TranslationKey::AccordionGettingStarted => "はじめに",
        TranslationKey::AccordionFeatures => "機能",
        TranslationKey::AccordionConfiguration => "設定",
    }
}

/// The built-in text for `key` in `lang`.
pub open spec fn translation(lang: Language, key: TranslationKey) -> Seq<char> {
    match lang {
        Language::English => english(key),
        Language::French => french(key),
        Language::German => german(key),
        Language::Spanish => spanish(key),
        Language::Japanese => japanese(key),
    }
}

/// The built-in text for `key` in `lang`.
fn translation_text(lang: Language, key: TranslationKey) -> (s: &'static str)
    ensures
        s@ == translation(lang, key),
{
    match lang {
        Language::English => english_text(key),
        Language::French => french_text(key),
        Language::German => german_text(key),
        Language::Spanish => spanish_text(key),
        Language::Japanese => japanese_text(key),
    }
}

/// Where the text for `key` in `lang` is stored: one block of a hundred
/// places per language.
pub open spec fn slot(lang: Language, key: TranslationKey) -> u64 {
    (lang.index_spec() * 100 + key.index_spec()) as u64
}

/// Where the text for `key` in `lang` is stored.
pub fn slot_of(lang: Language, key: TranslationKey) -> (s: u64)
    ensures
        s == slot(lang, key),
{
    lang.index() * 100 + key.index()
}

/// Every key stands in `all_keys` at its own position.
pub proof fn lemma_key_listed(key: TranslationKey)
    ensures
        key.index_spec() < all_keys_spec().len(),
        all_keys_spec()[key.index_spec() as int] == key,
{
}

/// Two slots are equal only for the same language and key.
pub proof fn lemma_slot_injective(l1: Language, k1: TranslationKey, l2: Language, k2: TranslationKey)
    requires
        slot(l1, k1) == slot(l2, k2),
    ensures
        l1 == l2,
        k1 == k2,
{
    lemma_key_listed(k1);
    lemma_key_listed(k2);
}

/// The text looked up for `key` in `lang` in the stored texts `m`: the
/// language's own text, else the English one, else `???`.
pub open spec fn lookup(m: Map<u64, &'static str>, lang: Language, key: TranslationKey) -> Seq<char> {
    if m.contains_key(slot(lang, key)) {
        m[slot(lang, key)]@
    } else if m.contains_key(slot(Language::English, key)) {
        m[slot(Language::English, key)]@
    } else {
        "???"@
    }
}

/// The stored texts of every language.
pub struct Translations {
    /// The texts, by slot.
    pub translations: HashMap<u64, &'static str>,
}

/// `m` holds the built-in text of every key in `lang`.
pub open spec fn holds_language(m: Map<u64, &'static str>, lang: Language) -> bool {
    forall|key: TranslationKey|
        #![trigger slot(lang, key)]
        m.contains_key(slot(lang, key)) && m[slot(lang, key)]@ == translation(lang, key)
}

impl Translations {
    /// Every language's built-in text for every key is stored.
    pub open spec fn complete(&self) -> bool {
        forall|lang: Language| #[trigger] holds_language(self.translations@, lang)
    }

    /// Stores the built-in texts of `lang`, keeping what is stored for the
    /// other languages.
    fn add_language(t: &mut HashMap<u64, &'static str>, lang: Language)
        ensures
            holds_language(final(t)@, lang),
            forall|l: Language|
                l != lang && #[trigger] holds_language(old(t)@, l) ==> holds_language(final(t)@, l),
    {
        let keys = all_keys();
        let ghost start = t@;
        let mut i: usize = 0;
        while i < keys.len()
            invariant
                keys@ == all_keys_spec(),
                i <= keys@.len(),
                forall|j: int|
                    0 <= j < i ==> t@.contains_key(#[trigger] slot(lang, keys@[j])) && t@[slot(
                        lang,
                        keys@[j],
                    )]@ == translation(lang, keys@[j]),
                forall|c: u64|
                    #![trigger t@.contains_key(c)]
                    start.contains_key(c) && (forall|key: TranslationKey| c != slot(lang, key))
                        ==> t@.contains_key(c) && t@[c] == start[c],
            decreases keys@.len() - i,
        {
            let key = keys[i];
            let s = slot_of(lang, key);
            let ghost before = t@;
            t.insert(s, translation_text(lang, key));
            proof {
                assert forall|j: int| 0 <= j < i + 1 implies t@.contains_key(
                    #[trigger] slot(lang, keys@[j]),
                ) && t@[slot(lang, keys@[j])]@ == translation(lang, keys@[j]) by {
                    if j < i && slot(lang, keys@[j]) == s {
                        lemma_slot_injective(lang, keys@[j], lang, key);
                    }
                }
                assert forall|c: u64|
                    start.contains_key(c) && (forall|k: TranslationKey| c != slot(lang, k))
                        implies #[trigger] t@.contains_key(c) && t@[c] == start[c] by {
                    assert(c != slot(lang, key));
                    assert(before.contains_key(c));
                }
            }
            i = i + 1;
        }
        proof {
            assert forall|key: TranslationKey|
                #![trigger slot(lang, key)]
                t@.contains_key(slot(lang, key)) && t@[slot(lang, key)]@ == translation(lang, key) by {
                lemma_key_listed(key);
                let j = key.index_spec() as int;
                assert(keys@[j] == key);
                assert(t@.contains_key(slot(lang, keys@[j])));
            }
            assert forall|l: Language| l != lang && #[trigger] holds_language(start, l) implies holds_language(
                t@,
                l,
            ) by {
                assert forall|key: TranslationKey|
                    #![trigger slot(l, key)]
                    t@.contains_key(slot(l, key)) && t@[slot(l, key)]@ == translation(l, key) by {
                    let c = slot(l, key);
                    assert forall|k2: TranslationKey| c != slot(lang, k2) by {
                        if c == slot(lang, k2) {
                            lemma_slot_injective(l, key, lang, k2);
                        }
                    }
                    assert(start.contains_key(c) && start[c]@ == translation(l, key));
                    assert(t@.contains_key(c) && t@[c] == start[c]);
                }
            }
        }
    }

    /// The built-in texts of every language.
    pub fn new() -> (t: Translations)
        ensures
            t.complete(),
    {
        let mut translations: HashMap<u64, &'static str> = HashMap::new();
        Self::add_language(&mut translations, Language::English);
        Self::add_language(&mut translations, Language::French);
        Self::add_language(&mut translations, Language::German);
        Self::add_language(&mut translations, Language::Spanish);
        Self::add_language(&mut translations, Language::Japanese);
        let t = Translations { translations };
        assert forall|lang: Language| #[trigger] holds_language(t.translations@, lang) by {
            match lang {
                Language::English => {},
                Language::French => {},
                Language::German => {},
                Language::Spanish => {},
                Language::Japanese => {},
            }
        }
        t
    }

    /// The text for `key` in `lang`: the language's own text, else the
    /// English one, else `???`.
    pub fn get(&self, lang: Language, key: TranslationKey) -> (s: &'static str)
        ensures
            s@ == lookup(self.translations@, lang, key),
    {
        match self.translations.get(&slot_of(lang, key)) {
            Some(s) => *s,
            None => match self.translations.get(&slot_of(Language::English, key)) {
                Some(s) => *s,
                None => "???",
            },
        }
    }
}

impl Default for Translations {
    /// The built-in texts of every language.
    fn default() -> (t: Translations)
        ensures
            t.complete(),
    {
        Translations::new()
    }
}

/// With the built-in texts, looking a key up in any language gives that
/// language's own text: no key falls back to English or to `???`.
pub proof fn lemma_complete_lookup(t: Translations, lang: Language, key: TranslationKey)
    requires
        t.complete(),
    ensures
        lookup(t.translations@, lang, key) == translation(lang, key),
{
    assert(holds_language(t.translations@, lang));
    assert(t.translations@.contains_key(slot(lang, key)));
}

/// No English text is the `???` that marks a missing one.
proof fn lemma_english_known(key: TranslationKey)
    ensures
        english(key) != "???"@,
{
    reveal_strlit("???");
    match key {
        TranslationKey::AppTitle => {
            reveal_strlit("GPUI UI Kit Showcase");
            assert("GPUI UI Kit Showcase"@.len() == 20);
        },
        TranslationKey::AppSubtitle => {
            reveal_strlit("A comprehensive library of reusable UI components for GPUI applications.");
            assert("A comprehensive library of reusable UI components for GPUI applications."@.len() == 72);
        },
        TranslationKey::MenuFile => {
            reveal_strlit("File");
            assert("File"@.len() == 4);
        },
        TranslationKey::MenuEdit => {
            reveal_strlit("Edit");
            assert("Edit"@.len() == 4);
        },
        TranslationKey::MenuView => {
            reveal_strlit("View");
            assert("View"@.len() == 4);
        },
        TranslationKey::MenuHelp => {
            reveal_strlit("Help");
            assert("Help"@.len() == 4);
        },
        TranslationKey::MenuQuit => {
            reveal_strlit("Quit");
            assert("Quit"@.len() == 4);
        },
        TranslationKey::MenuTheme => {
            reveal_strlit("Theme");
            assert("Theme"@.len() == 5);
        },
        TranslationKey::MenuLanguage => {
            reveal_strlit("Language");
            assert("Language"@.len() == 8);
        },
        TranslationKey::MenuSettings => {
            reveal_strlit("Settings");
            assert("Settings"@.len() == 8);
        },
        TranslationKey::ThemeDark => {
            reveal_strlit("Dark");
            assert("Dark"@.len() == 4);
        },
        TranslationKey::ThemeLight => {
            reveal_strlit("Light");
            assert("Light"@.len() == 5);
        },
        TranslationKey::SectionButtons => {
            reveal_strlit("Buttons");
            assert("Buttons"@.len() == 7);
        },
        TranslationKey::SectionTypography => {
            reveal_strlit("Typography");
            assert("Typography"@.len() == 10);
        },
        TranslationKey::SectionBadges => {
            reveal_strlit("Badges");
            assert("Badges"@.len() == 6);
        },
        TranslationKey::SectionAvatars => {
            reveal_strlit("Avatars");
            assert("Avatars"@.len() == 7);
        },
        TranslationKey::SectionFormControls => {
            reveal_strlit("Form Controls");
            assert("Form Controls"@.len() == 13);
        },
        TranslationKey::SectionProgress => {
            reveal_strlit("Progress Indicators");
            assert("Progress Indicators"@.len() == 19);
        },
        TranslationKey::SectionAlerts => {
            reveal_strlit("Alerts");
            assert("Alerts"@.len() == 6);
        },
        TranslationKey::SectionTabs => {
            reveal_strlit("Tabs");
            assert("Tabs"@.len() == 4);
        },
        TranslationKey::SectionCards => {
            reveal_strlit("Cards");
            assert("Cards"@.len() == 5);
        },
        TranslationKey::SectionBreadcrumbs => {
            reveal_strlit("Breadcrumbs");
            assert("Breadcrumbs"@.len() == 11);
        },
        TranslationKey::SectionSpinners => {
            reveal_strlit("Loading Indicators");
            assert("Loading Indicators"@.len() == 18);
        },
        TranslationKey::SectionLayout => {
            reveal_strlit("Layout Components");
            assert("Layout Components"@.len() == 17);
        },
        TranslationKey::SectionIconButtons => {
            reveal_strlit("Icon Buttons");
            assert("Icon Buttons"@.len() == 12);
        },
        TranslationKey::SectionToasts => {
            reveal_strlit("Toasts");
            assert("Toasts"@.len() == 6);
        },
        TranslationKey::SectionDialogs => {
            reveal_strlit("Dialogs");
            assert("Dialogs"@.len() == 7);
        },
        TranslationKey::SectionMenus => {
            reveal_strlit("Menus");
            assert("Menus"@.len() == 5);
        },
        TranslationKey::SectionTooltips => {
            reveal_strlit("Tooltips");
            assert("Tooltips"@.len() == 8);
        },
        TranslationKey::SectionPotentiometers => {
            reveal_strlit("Potentiometers");
            assert("Potentiometers"@.len() == 14);
        },
        TranslationKey::SectionAccordion => {
            reveal_strlit("Accordion");
            assert("Accordion"@.len() == 9);
        },
        TranslationKey::SectionQrCode => {
            reveal_strlit("QR Code");
            assert("QR Code"@.len() == 7);
        },
        TranslationKey::SectionContextMenu => {
            reveal_strlit("Context Menu");
            assert("Context Menu"@.len() == 12);
        },
        TranslationKey::SectionPopover => {
            reveal_strlit("Popover");
            assert("Popover"@.len() == 7);
        },
        TranslationKey::SectionSidebar => {
            reveal_strlit("Sidebar");
            assert("Sidebar"@.len() == 7);
        },
        TranslationKey::SectionStatusBar => {
            reveal_strlit("Status Bar");
            assert("Status Bar"@.len() == 10);
        },
        TranslationKey::SectionSearchBar => {
            reveal_strlit("Search Bar");
            assert("Search Bar"@.len() == 10);
        },
        TranslationKey::SectionKeyboardShortcut => {
            reveal_strlit("Keyboard Shortcuts");
            assert("Keyboard Shortcuts"@.len() == 18);
        },
        TranslationKey::SectionEmptyState => {
            reveal_strlit("Empty State");
            assert("Empty State"@.len() == 11);
        },
        TranslationKey::SectionConfirmDialog => {
            reveal_strlit("Confirm Dialog");
            assert("Confirm Dialog"@.len() == 14);
        },
        TranslationKey::SectionSplitPane => {
            reveal_strlit("Split Pane");
            assert("Split Pane"@.len() == 10);
        },
        TranslationKey::SectionImageView => {
            reveal_strlit("Image View");
            assert("Image View"@.len() == 10);
        },
        TranslationKey::SectionSettingsForm => {
            reveal_strlit("Settings Form");
            assert("Settings Form"@.len() == 13);
        },
        TranslationKey::SectionStepIndicator => {
            reveal_strlit("Step Indicator");
            assert("Step Indicator"@.len() == 14);
        },
        TranslationKey::SectionLoadingOverlay => {
            reveal_strlit("Loading Overlay");
            assert("Loading Overlay"@.len() == 15);
        },
        TranslationKey::SectionTag => {
            reveal_strlit("Tag");
            assert("Tag"@[0] == 'T');
        },
        TranslationKey::SectionToolbar => {
            reveal_strlit("Toolbar");
            assert("Toolbar"@.len() == 7);
        },
        TranslationKey::SectionNotification => {
            reveal_strlit("Notification");
            assert("Notification"@.len() == 12);
        },
        TranslationKey::SectionTreeView => {
            reveal_strlit("Tree View");
            assert("Tree View"@.len() == 9);
        },
        TranslationKey::SectionDragList => {
            reveal_strlit("Drag List");
            assert("Drag List"@.len() == 9);
        },
        TranslationKey::SectionCommandPalette => {
            reveal_strlit("Command Palette");
            assert("Command Palette"@.len() == 15);
        },
        TranslationKey::LabelVariants => {
            reveal_strlit("Variants");
            assert("Variants"@.len() == 8);
        },
        TranslationKey::LabelSizes => {
            reveal_strlit("Sizes");
            assert("Sizes"@.len() == 5);
        },
        TranslationKey::LabelStates => {
            reveal_strlit("States");
            assert("States"@.len() == 6);
        },
        TranslationKey::LabelToggles => {
            reveal_strlit("Toggles");
            assert("Toggles"@.len() == 7);
        },
        TranslationKey::LabelCheckboxes => {
            reveal_strlit("Checkboxes");
            assert("Checkboxes"@.len() == 10);
        },
        TranslationKey::LabelSlider => {
            reveal_strlit("Slider");
            assert("Slider"@.len() == 6);
        },
        TranslationKey::LabelInput => {
            reveal_strlit("Input");
            assert("Input"@.len() == 5);
        },
        TranslationKey::LabelSmall => {
            reveal_strlit("Small");
            assert("Small"@.len() == 5);
        },
        TranslationKey::LabelMedium => {
            reveal_strlit("Medium");
            assert("Medium"@.len() == 6);
        },
        TranslationKey::LabelLarge => {
            reveal_strlit("Large");
            assert("Large"@.len() == 5);
        },
        TranslationKey::LabelDisabled => {
            reveal_strlit("Disabled");
            assert("Disabled"@.len() == 8);
        },
        TranslationKey::LabelSelected => {
            reveal_strlit("Selected");
            assert("Selected"@.len() == 8);
        },
        TranslationKey::ButtonPrimary => {
            reveal_strlit("Primary");
            assert("Primary"@.len() == 7);
        },
        TranslationKey::ButtonSecondary => {
            reveal_strlit("Secondary");
            assert("Secondary"@.len() == 9);
        },
        TranslationKey::ButtonDestructive => {
            reveal_strlit("Destructive");
            assert("Destructive"@.len() == 11);
        },
        TranslationKey::ButtonGhost => {
            reveal_strlit("Ghost");
            assert("Ghost"@.len() == 5);
        },
        TranslationKey::ButtonOutline => {
            reveal_strlit("Outline");
            assert("Outline"@.len() == 7);
        },
        TranslationKey::ButtonCancel => {
            reveal_strlit("Cancel");
            assert("Cancel"@.len() == 6);
        },
        TranslationKey::ButtonSave => {
            reveal_strlit("Save");
            assert("Save"@.len() == 4);
        },
        TranslationKey::ButtonConfirm => {
            reveal_strlit("Confirm");
            assert("Confirm"@.len() == 7);
        },
        TranslationKey::DialogConfirmTitle => {
            reveal_strlit("Confirm Action");
            assert("Confirm Action"@.len() == 14);
        },
        TranslationKey::DialogConfirmMessage => {
            reveal_strlit("Are you sure you want to continue? This action cannot be undone.");
            assert("Are you sure you want to continue? This action cannot be undone."@.len() == 64);
        },
        TranslationKey::AlertInfo => {
            reveal_strlit("Information");
            assert("Information"@.len() == 11);
        },
        TranslationKey::AlertSuccess => {
            reveal_strlit("Success");
            assert("Success"@.len() == 7);
        },
        TranslationKey::AlertWarning => {
            reveal_strlit("Warning");
            assert("Warning"@.len() == 7);
        },
        TranslationKey::AlertError => {
            reveal_strlit("Error");
            assert("Error"@.len() == 5);
        },
        TranslationKey::AlertInfoMessage => {
            reveal_strlit("This is an informational message.");
            assert("This is an informational message."@.len() == 33);
        },
        TranslationKey::AlertSuccessMessage => {
            reveal_strlit("Your changes have been saved successfully.");
            assert("Your changes have been saved successfully."@.len() == 42);
        },
        TranslationKey::AlertWarningMessage => {
            reveal_strlit("Please review your settings before continuing.");
            assert("Please review your settings before continuing."@.len() == 46);
        },
        TranslationKey::AlertErrorMessage => {
            reveal_strlit("An error occurred while processing your request.");
            assert("An error occurred while processing your request."@.len() == 48);
        },
        TranslationKey::AccordionGettingStarted => {
            reveal_strlit("Getting Started");
            assert("Getting Started"@.len() == 15);
        },
        TranslationKey::AccordionFeatures => {
            reveal_strlit("Features");
            assert("Features"@.len() == 8);
        },
        TranslationKey::AccordionConfiguration => {
            reveal_strlit("Configuration");
            assert("Configuration"@.len() == 13);
        },
    }
}

/// No French text is the `???` that marks a missing one.
proof fn lemma_french_known(key: TranslationKey)
    ensures
        french(key) != "???"@,
{
    reveal_strlit("???");
    match key {
        TranslationKey::AppTitle => {
            reveal_strlit("Vitrine du UI Kit GPUI");
            assert("Vitrine du UI Kit GPUI"@.len() == 22);
        },
        TranslationKey::AppSubtitle => {
            reveal_strlit("Une bibliotheque complete de composants UI reutilisables pour les applications GPUI.");
            assert("Une bibliotheque complete de composants UI reutilisables pour les applications GPUI."@.len() == 84);
        },
        TranslationKey::MenuFile => {
            reveal_strlit("Fichier");
            assert("Fichier"@.len() == 7);
        },
        TranslationKey::MenuEdit => {
            reveal_strlit("Edition");
            assert("Edition"@.len() == 7);
        },
        TranslationKey::MenuView => {
            reveal_strlit("Affichage");
            assert("Affichage"@.len() == 9);
        },
        TranslationKey::MenuHelp => {
            reveal_strlit("Aide");
            assert("Aide"@.len() == 4);
        },
        TranslationKey::MenuQuit => {
            reveal_strlit("Quitter");
            assert("Quitter"@.len() == 7);
        },
        TranslationKey::MenuTheme => {
            reveal_strlit("Theme");
            assert("Theme"@.len() == 5);
        },
        TranslationKey::MenuLanguage => {
            reveal_strlit("Langue");
            assert("Langue"@.len() == 6);
        },
        TranslationKey::MenuSettings => {
            reveal_strlit("Parametres");
            assert("Parametres"@.len() == 10);
        },
        TranslationKey::ThemeDark => {
            reveal_strlit("Sombre");
            assert("Sombre"@.len() == 6);
        },
        TranslationKey::ThemeLight => {
            reveal_strlit("Clair");
            assert("Clair"@.len() == 5);
        },
        TranslationKey::SectionButtons => {
            reveal_strlit("Boutons");
            assert("Boutons"@.len() == 7);
        },
        TranslationKey::SectionTypography => {
            reveal_strlit("Typographie");
            assert("Typographie"@.len() == 11);
        },
        TranslationKey::SectionBadges => {
            reveal_strlit("Badges");
            assert("Badges"@.len() == 6);
        },
        TranslationKey::SectionAvatars => {
            reveal_strlit("Avatars");
            assert("Avatars"@.len() == 7);
        },
        TranslationKey::SectionFormControls => {
            reveal_strlit("Controles de formulaire");
            assert("Controles de formulaire"@.len() == 23);
        },
        TranslationKey::SectionProgress => {
            reveal_strlit("Indicateurs de progression");
            assert("Indicateurs de progression"@.len() == 26);
        },
        TranslationKey::SectionAlerts => {
            reveal_strlit("Alertes");
            assert("Alertes"@.len() == 7);
        },
        TranslationKey::SectionTabs => {
            reveal_strlit("Onglets");
            assert("Onglets"@.len() == 7);
        },
        TranslationKey::SectionCards => {
            reveal_strlit("Cartes");
            assert("Cartes"@.len() == 6);
        },
        TranslationKey::SectionBreadcrumbs => {
            reveal_strlit("Fil d'Ariane");
            assert("Fil d'Ariane"@.len() == 12);
        },
        TranslationKey::SectionSpinners => {
            reveal_strlit("Indicateurs de chargement");
            assert("Indicateurs de chargement"@.len() == 25);
        },
        TranslationKey::SectionLayout => {
            reveal_strlit("Composants de mise en page");
            assert("Composants de mise en page"@.len() == 26);
        },
        TranslationKey::SectionIconButtons => {
            reveal_strlit("Boutons icones");
            assert("Boutons icones"@.len() == 14);
        },
        TranslationKey::SectionToasts => {
            reveal_strlit("Notifications");
            assert("Notifications"@.len() == 13);
        },
        TranslationKey::SectionDialogs => {
            reveal_strlit("Dialogues");
            assert("Dialogues"@.len() == 9);
        },
        TranslationKey::SectionMenus => {
            reveal_strlit("Menus");
            assert("Menus"@.len() == 5);
        },
        TranslationKey::SectionTooltips => {
            reveal_strlit("Infobulles");
            assert("Infobulles"@.len() == 10);
        },
        TranslationKey::SectionPotentiometers => {
            reveal_strlit("Potentiometres");
            assert("Potentiometres"@.len() == 14);
        },
        TranslationKey::SectionAccordion => {
            reveal_strlit("Accordeon");
            assert("Accordeon"@.len() == 9);
        },
        TranslationKey::SectionQrCode => {
            reveal_strlit("Code QR");
            assert("Code QR"@.len() == 7);
        },
        TranslationKey::SectionContextMenu => {
            reveal_strlit("Menu contextuel");
            assert("Menu contextuel"@.len() == 15);
        },
        TranslationKey::SectionPopover => {
            reveal_strlit("Popover");
            assert("Popover"@.len() == 7);
        },
        TranslationKey::SectionSidebar => {
            reveal_strlit("Barre laterale");
            assert("Barre laterale"@.len() == 14);
        },
        TranslationKey::SectionStatusBar => {
            reveal_strlit("Barre d'etat");
            assert("Barre d'etat"@.len() == 12);
        },
        TranslationKey::SectionSearchBar => {
            reveal_strlit("Barre de recherche");
            assert("Barre de recherche"@.len() == 18);
        },
        TranslationKey::SectionKeyboardShortcut => {
            reveal_strlit("Raccourcis clavier");
            assert("Raccourcis clavier"@.len() == 18);
        },
        TranslationKey::SectionEmptyState => {
            reveal_strlit("Etat vide");
            assert("Etat vide"@.len() == 9);
        },
        TranslationKey::SectionConfirmDialog => {
            reveal_strlit("Dialogue de confirmation");
            assert("Dialogue de confirmation"@.len() == 24);
        },
        TranslationKey::SectionSplitPane => {
            reveal_strlit("Panneau divise");
            assert("Panneau divise"@.len() == 14);
        },
        TranslationKey::SectionImageView => {
            reveal_strlit("Vue image");
            assert("Vue image"@.len() == 9);
        },
        TranslationKey::SectionSettingsForm => {
            reveal_strlit("Formulaire de parametres");
            assert("Formulaire de parametres"@.len() == 24);
        },
        TranslationKey::SectionStepIndicator => {
            reveal_strlit("Indicateur d'etapes");
            assert("Indicateur d'etapes"@.len() == 19);
        },
        TranslationKey::SectionLoadingOverlay => {
            reveal_strlit("Ecran de chargement");
            assert("Ecran de chargement"@.len() == 19);
        },
        TranslationKey::SectionTag => {
            reveal_strlit("Etiquette");
            assert("Etiquette"@.len() == 9);
        },
        TranslationKey::SectionToolbar => {
            reveal_strlit("Barre d'outils");
            assert("Barre d'outils"@.len() == 14);
        },
        TranslationKey::SectionNotification => {
            reveal_strlit("Notification");
            assert("Notification"@.len() == 12);
        },
        TranslationKey::SectionTreeView => {
            reveal_strlit("Vue arborescente");
            assert("Vue arborescente"@.len() == 16);
        },
        TranslationKey::SectionDragList => {
            reveal_strlit("Liste glissable");
            assert("Liste glissable"@.len() == 15);
        },
        TranslationKey::SectionCommandPalette => {
            reveal_strlit("Palette de commandes");
            assert("Palette de commandes"@.len() == 20);
        },
        TranslationKey::LabelVariants => {
            reveal_strlit("Variantes");
            assert("Variantes"@.len() == 9);
        },
        TranslationKey::LabelSizes => {
            reveal_strlit("Tailles");
            assert("Tailles"@.len() == 7);
        },
        TranslationKey::LabelStates => {
            reveal_strlit("Etats");
            assert("Etats"@.len() == 5);
        },
        TranslationKey::LabelToggles => {
            reveal_strlit("Interrupteurs");
            assert("Interrupteurs"@.len() == 13);
        },
        TranslationKey::LabelCheckboxes => {
            reveal_strlit("Cases a cocher");
            assert("Cases a cocher"@.len() == 14);
        },
        TranslationKey::LabelSlider => {
            reveal_strlit("Curseur");
            assert("Curseur"@.len() == 7);
        },
        TranslationKey::LabelInput => {
            reveal_strlit("Champ de saisie");
            assert("Champ de saisie"@.len() == 15);
        },
        TranslationKey::LabelSmall => {
            reveal_strlit("Petit");
            assert("Petit"@.len() == 5);
        },
        TranslationKey::LabelMedium => {
            reveal_strlit("Moyen");
            assert("Moyen"@.len() == 5);
        },
        TranslationKey::LabelLarge => {
            reveal_strlit("Grand");
            assert("Grand"@.len() == 5);
        },
        TranslationKey::LabelDisabled => {
            reveal_strlit("Desactive");
            assert("Desactive"@.len() == 9);
        },
        TranslationKey::LabelSelected => {
            reveal_strlit("Selectionne");
            assert("Selectionne"@.len() == 11);
        },
        TranslationKey::ButtonPrimary => {
            reveal_strlit("Primaire");
            assert("Primaire"@.len() == 8);
        },
        TranslationKey::ButtonSecondary => {
            reveal_strlit("Secondaire");
            assert("Secondaire"@.len() == 10);
        },
        TranslationKey::ButtonDestructive => {
            reveal_strlit("Destructif");
            assert("Destructif"@.len() == 10);
        },
        TranslationKey::ButtonGhost => {
            reveal_strlit("Fantome");
            assert("Fantome"@.len() == 7);
        },
        TranslationKey::ButtonOutline => {
            reveal_strlit("Contour");
            assert("Contour"@.len() == 7);
        },
        TranslationKey::ButtonCancel => {
            reveal_strlit("Annuler");
            assert("Annuler"@.len() == 7);
        },
        TranslationKey::ButtonSave => {
            reveal_strlit("Enregistrer");
            assert("Enregistrer"@.len() == 11);
        },
        TranslationKey::ButtonConfirm => {
            reveal_strlit("Confirmer");
            assert("Confirmer"@.len() == 9);
        },
        TranslationKey::DialogConfirmTitle => {
            reveal_strlit("Confirmer l'action");
            assert("Confirmer l'action"@.len() == 18);
        },
        TranslationKey::DialogConfirmMessage => {
            reveal_strlit("Etes-vous sur de vouloir continuer ? Cette action est irreversible.");
            assert("Etes-vous sur de vouloir continuer ? Cette action est irreversible."@.len() == 67);
        },
        TranslationKey::AlertInfo => {
            reveal_strlit("Information");
            assert("Information"@.len() == 11);
        },
        TranslationKey::AlertSuccess => {
            reveal_strlit("Succes");
            assert("Succes"@.len() == 6);
        },
        TranslationKey::AlertWarning => {
            reveal_strlit("Avertissement");
            assert("Avertissement"@.len() == 13);
        },
        TranslationKey::AlertError => {
            reveal_strlit("Erreur");
            assert("Erreur"@.len() == 6);
        },
        TranslationKey::AlertInfoMessage => {
            reveal_strlit("Ceci est un message d'information.");
            assert("Ceci est un message d'information."@.len() == 34);
        },
        TranslationKey::AlertSuccessMessage => {
            reveal_strlit("Vos modifications ont ete enregistrees avec succes.");
            assert("Vos modifications ont ete enregistrees avec succes."@.len() == 51);
        },
        TranslationKey::AlertWarningMessage => {
            reveal_strlit("Veuillez verifier vos parametres avant de continuer.");
            assert("Veuillez verifier vos parametres avant de continuer."@.len() == 52);
        },
        TranslationKey::AlertErrorMessage => {
            reveal_strlit("Une erreur s'est produite lors du traitement de votre demande.");
            assert("Une erreur s'est produite lors du traitement de votre demande."@.len() == 62);
        },
        TranslationKey::AccordionGettingStarted => {
            reveal_strlit("Premiers pas");
            assert("Premiers pas"@.len() == 12);
        },
        TranslationKey::AccordionFeatures => {
            reveal_strlit("Fonctionnalites");
            assert("Fonctionnalites"@.len() == 15);
        },
        TranslationKey::AccordionConfiguration => {
            reveal_strlit("Configuration");
            assert("Configuration"@.len() == 13);
        },
    }
}

/// No German text is the `???` that marks a missing one.
proof fn lemma_german_known(key: TranslationKey)
    ensures
        german(key) != "???"@,
{
    reveal_strlit("???");
    match key {
        TranslationKey::AppTitle => {
            reveal_strlit("GPUI UI Kit Showcase");
            assert("GPUI UI Kit Showcase"@.len() == 20);
        },
        TranslationKey::AppSubtitle => {
            reveal_strlit("Eine umfassende Bibliothek wiederverwendbarer UI-Komponenten fur GPUI-Anwendungen.");
            assert("Eine umfassende Bibliothek wiederverwendbarer UI-Komponenten fur GPUI-Anwendungen."@.len() == 82);
        },
        TranslationKey::MenuFile => {
            reveal_strlit("Datei");
            assert("Datei"@.len() == 5);
        },
        TranslationKey::MenuEdit => {
            reveal_strlit("Bearbeiten");
            assert("Bearbeiten"@.len() == 10);
        },
        TranslationKey::MenuView => {
            reveal_strlit("Ansicht");
            assert("Ansicht"@.len() == 7);
        },
        TranslationKey::MenuHelp => {
            reveal_strlit("Hilfe");
            assert("Hilfe"@.len() == 5);
        },
        TranslationKey::MenuQuit => {
            reveal_strlit("Beenden");
            assert("Beenden"@.len() == 7);
        },
        TranslationKey::MenuTheme => {
            reveal_strlit("Thema");
            assert("Thema"@.len() == 5);
        },
        TranslationKey::MenuLanguage => {
            reveal_strlit("Sprache");
            assert("Sprache"@.len() == 7);
        },
        TranslationKey::MenuSettings => {
            reveal_strlit("Einstellungen");
            assert("Einstellungen"@.len() == 13);
        },
        TranslationKey::ThemeDark => {
            reveal_strlit("Dunkel");
            assert("Dunkel"@.len() == 6);
        },
        TranslationKey::ThemeLight => {
            reveal_strlit("Hell");
            assert("Hell"@.len() == 4);
        },
        TranslationKey::SectionButtons => {
            reveal_strlit("Schaltflachen");
            assert("Schaltflachen"@.len() == 13);
        },
        TranslationKey::SectionTypography => {
            reveal_strlit("Typografie");
            assert("Typografie"@.len() == 10);
        },
        TranslationKey::SectionBadges => {
            reveal_strlit("Abzeichen");
            assert("Abzeichen"@.len() == 9);
        },
        TranslationKey::SectionAvatars => {
            reveal_strlit("Avatare");
            assert("Avatare"@.len() == 7);
        },
        TranslationKey::SectionFormControls => {
            reveal_strlit("Formularsteuerung");
            assert("Formularsteuerung"@.len() == 17);
        },
        TranslationKey::SectionProgress => {
            reveal_strlit("Fortschrittsanzeigen");
            assert("Fortschrittsanzeigen"@.len() == 20);
        },
        TranslationKey::SectionAlerts => {
            reveal_strlit("Warnungen");
            assert("Warnungen"@.len() == 9);
        },
        TranslationKey::SectionTabs => {
            reveal_strlit("Registerkarten");
            assert("Registerkarten"@.len() == 14);
        },
        TranslationKey::SectionCards => {
            reveal_strlit("Karten");
            assert("Karten"@.len() == 6);
        },
        TranslationKey::SectionBreadcrumbs => {
            reveal_strlit("Brotkrumen");
            assert("Brotkrumen"@.len() == 10);
        },
        TranslationKey::SectionSpinners => {
            reveal_strlit("Ladeanzeigen");
            assert("Ladeanzeigen"@.len() == 12);
        },
        TranslationKey::SectionLayout => {
            reveal_strlit("Layout-Komponenten");
            assert("Layout-Komponenten"@.len() == 18);
        },
        TranslationKey::SectionIconButtons => {
            reveal_strlit("Symbol-Schaltflachen");
            assert("Symbol-Schaltflachen"@.len() == 20);
        },
        TranslationKey::SectionToasts => {
            reveal_strlit("Benachrichtigungen");
            assert("Benachrichtigungen"@.len() == 18);
        },
        TranslationKey::SectionDialogs => {
            reveal_strlit("Dialoge");
            assert("Dialoge"@.len() == 7);
        },
        TranslationKey::SectionMenus => {
            reveal_strlit("Menus");
            assert("Menus"@.len() == 5);
        },
        TranslationKey::SectionTooltips => {
            reveal_strlit("Tooltips");
            assert("Tooltips"@.len() == 8);
        },
        TranslationKey::SectionPotentiometers => {
            reveal_strlit("Potentiometer");
            assert("Potentiometer"@.len() == 13);
        },
        TranslationKey::SectionAccordion => {
            reveal_strlit("Akkordeon");
            assert("Akkordeon"@.len() == 9);
        },
        TranslationKey::SectionQrCode => {
            reveal_strlit("QR-Code");
            assert("QR-Code"@.len() == 7);
        },
        TranslationKey::SectionContextMenu => {
            reveal_strlit("Kontextmenu");
            assert("Kontextmenu"@.len() == 11);
        },
        TranslationKey::SectionPopover => {
            reveal_strlit("Popover");
            assert("Popover"@.len() == 7);
        },
        TranslationKey::SectionSidebar => {
            reveal_strlit("Seitenleiste");
            assert("Seitenleiste"@.len() == 12);
        },
        TranslationKey::SectionStatusBar => {
            reveal_strlit("Statusleiste");
            assert("Statusleiste"@.len() == 12);
        },
        TranslationKey::SectionSearchBar => {
            reveal_strlit("Suchleiste");
            assert("Suchleiste"@.len() == 10);
        },
        TranslationKey::SectionKeyboardShortcut => {
            reveal_strlit("Tastenkurzel");
            assert("Tastenkurzel"@.len() == 12);
        },
        TranslationKey::SectionEmptyState => {
            reveal_strlit("Leerer Zustand");
            assert("Leerer Zustand"@.len() == 14);
        },
        TranslationKey::SectionConfirmDialog => {
            reveal_strlit("Bestatigungsdialog");
            assert("Bestatigungsdialog"@.len() == 18);
        },
        TranslationKey::SectionSplitPane => {
            reveal_strlit("Geteiltes Fenster");
            assert("Geteiltes Fenster"@.len() == 17);
        },
        TranslationKey::SectionImageView => {
            reveal_strlit("Bildansicht");
            assert("Bildansicht"@.len() == 11);
        },
        TranslationKey::SectionSettingsForm => {
            reveal_strlit("Einstellungsformular");
            assert("Einstellungsformular"@.len() == 20);
        },
        TranslationKey::SectionStepIndicator => {
            reveal_strlit("Schrittanzeige");
            assert("Schrittanzeige"@.len() == 14);
        },
        TranslationKey::SectionLoadingOverlay => {
            reveal_strlit("Ladebildschirm");
            assert("Ladebildschirm"@.len() == 14);
        },
        TranslationKey::SectionTag => {
            reveal_strlit("Schlagwort");
            assert("Schlagwort"@.len() == 10);
        },
        TranslationKey::SectionToolbar => {
            reveal_strlit("Symbolleiste");
            assert("Symbolleiste"@.len() == 12);
        },
        TranslationKey::SectionNotification => {
            reveal_strlit("Benachrichtigung");
            assert("Benachrichtigung"@.len() == 16);
        },
        TranslationKey::SectionTreeView => {
            reveal_strlit("Baumansicht");
            assert("Baumansicht"@.len() == 11);
        },
        TranslationKey::SectionDragList => {
            reveal_strlit("Zieh-Liste");
            assert("Zieh-Liste"@.len() == 10);
        },
        TranslationKey::SectionCommandPalette => {
            reveal_strlit("Befehlspalette");
            assert("Befehlspalette"@.len() == 14);
        },
        TranslationKey::LabelVariants => {
            reveal_strlit("Varianten");
            assert("Varianten"@.len() == 9);
        },
        TranslationKey::LabelSizes => {
            reveal_strlit("Grossen");
            assert("Grossen"@.len() == 7);
        },
        TranslationKey::LabelStates => {
            reveal_strlit("Zustande");
            assert("Zustande"@.len() == 8);
        },
        TranslationKey::LabelToggles => {
            reveal_strlit("Schalter");
            assert("Schalter"@.len() == 8);
        },
        TranslationKey::LabelCheckboxes => {
            reveal_strlit("Kontrollkastchen");
            assert("Kontrollkastchen"@.len() == 16);
        },
        TranslationKey::LabelSlider => {
            reveal_strlit("Schieberegler");
            assert("Schieberegler"@.len() == 13);
        },
        TranslationKey::LabelInput => {
            reveal_strlit("Eingabe");
            assert("Eingabe"@.len() == 7);
        },
        TranslationKey::LabelSmall => {
            reveal_strlit("Klein");
            assert("Klein"@.len() == 5);
        },
        TranslationKey::LabelMedium => {
            reveal_strlit("Mittel");
            assert("Mittel"@.len() == 6);
        },
        TranslationKey::LabelLarge => {
            reveal_strlit("Gross");
            assert("Gross"@.len() == 5);
        },
        TranslationKey::LabelDisabled => {
            reveal_strlit("Deaktiviert");
            assert("Deaktiviert"@.len() == 11);
        },
        TranslationKey::LabelSelected => {
            reveal_strlit("Ausgewahlt");
            assert("Ausgewahlt"@.len() == 10);
        },
        TranslationKey::ButtonPrimary => {
            reveal_strlit("Primar");
            assert("Primar"@.len() == 6);
        },
        TranslationKey::ButtonSecondary => {
            reveal_strlit("Sekundar");
            assert("Sekundar"@.len() == 8);
        },
        TranslationKey::ButtonDestructive => {
            reveal_strlit("Destruktiv");
            assert("Destruktiv"@.len() == 10);
        },
        TranslationKey::ButtonGhost => {
            reveal_strlit("Geist");
            assert("Geist"@.len() == 5);
        },
        TranslationKey::ButtonOutline => {
            reveal_strlit("Umriss");
            assert("Umriss"@.len() == 6);
        },
        TranslationKey::ButtonCancel => {
            reveal_strlit("Abbrechen");
            assert("Abbrechen"@.len() == 9);
        },
        TranslationKey::ButtonSave => {
            reveal_strlit("Speichern");
            assert("Speichern"@.len() == 9);
        },
        TranslationKey::ButtonConfirm => {
            reveal_strlit("Bestatigen");
            assert("Bestatigen"@.len() == 10);
        },
        TranslationKey::DialogConfirmTitle => {
            reveal_strlit("Aktion bestatigen");
            assert("Aktion bestatigen"@.len() == 17);
        },
        TranslationKey::DialogConfirmMessage => {
            reveal_strlit("Sind Sie sicher, dass Sie fortfahren mochten? Diese Aktion kann nicht ruckgangig gemacht werden.");
            assert("Sind Sie sicher, dass Sie fortfahren mochten? Diese Aktion kann nicht ruckgangig gemacht werden."@.len() == 96);
        },
        TranslationKey::AlertInfo => {
            reveal_strlit("Information");
            assert("Information"@.len() == 11);
        },
        TranslationKey::AlertSuccess => {
            reveal_strlit("Erfolg");
            assert("Erfolg"@.len() == 6);
        },
        TranslationKey::AlertWarning => {
            reveal_strlit("Warnung");
            assert("Warnung"@.len() == 7);
        },
        TranslationKey::AlertError => {
            reveal_strlit("Fehler");
            assert("Fehler"@.len() == 6);
        },
        TranslationKey::AlertInfoMessage => {
            reveal_strlit("Dies ist eine Informationsmeldung.");
            assert("Dies ist eine Informationsmeldung."@.len() == 34);
        },
        TranslationKey::AlertSuccessMessage => {
            reveal_strlit("Ihre Anderungen wurden erfolgreich gespeichert.");
            assert("Ihre Anderungen wurden erfolgreich gespeichert."@.len() == 47);
        },
        TranslationKey::AlertWarningMessage => {
            reveal_strlit("Bitte uberprufen Sie Ihre Einstellungen, bevor Sie fortfahren.");
            assert("Bitte uberprufen Sie Ihre Einstellungen, bevor Sie fortfahren."@.len() == 62);
        },
        TranslationKey::AlertErrorMessage => {
            reveal_strlit("Bei der Verarbeitung Ihrer Anfrage ist ein Fehler aufgetreten.");
            assert("Bei der Verarbeitung Ihrer Anfrage ist ein Fehler aufgetreten."@.len() == 62);
        },
        TranslationKey::AccordionGettingStarted => {
            reveal_strlit("Erste Schritte");
            assert("Erste Schritte"@.len() == 14);
        },
        TranslationKey::AccordionFeatures => {
            reveal_strlit("Funktionen");
            assert("Funktionen"@.len() == 10);
        },
        TranslationKey::AccordionConfiguration => {
            reveal_strlit("Konfiguration");
            assert("Konfiguration"@.len() == 13);
        },
    }
}

/// No Spanish text is the `???` that marks a missing one.
proof fn lemma_spanish_known(key: TranslationKey)
    ensures
        spanish(key) != "???"@,
{
    reveal_strlit("???");
    match key {
        TranslationKey::AppTitle => {
            reveal_strlit("Galeria del UI Kit GPUI");
            assert("Galeria del UI Kit GPUI"@.len() == 23);
        },
        TranslationKey::AppSubtitle => {
            reveal_strlit("Una biblioteca completa de componentes UI reutilizables para aplicaciones GPUI.");
            assert("Una biblioteca completa de componentes UI reutilizables para aplicaciones GPUI."@.len() == 79);
        },
        TranslationKey::MenuFile => {
            reveal_strlit("Archivo");
            assert("Archivo"@.len() == 7);
        },
        TranslationKey::MenuEdit => {
            reveal_strlit("Editar");
            assert("Editar"@.len() == 6);
        },
        TranslationKey::MenuView => {
            reveal_strlit("Ver");
            assert("Ver"@[0] == 'V');
        },
        TranslationKey::MenuHelp => {
            reveal_strlit("Ayuda");
            assert("Ayuda"@.len() == 5);
        },
        TranslationKey::MenuQuit => {
            reveal_strlit("Salir");
            assert("Salir"@.len() == 5);
        },
        TranslationKey::MenuTheme => {
            reveal_strlit("Tema");
            assert("Tema"@.len() == 4);
        },
        TranslationKey::MenuLanguage => {
            reveal_strlit("Idioma");
            assert("Idioma"@.len() == 6);
        },
        TranslationKey::MenuSettings => {
            reveal_strlit("Configuracion");
            assert("Configuracion"@.len() == 13);
        },
        TranslationKey::ThemeDark => {
            reveal_strlit("Oscuro");
            assert("Oscuro"@.len() == 6);
        },
        TranslationKey::ThemeLight => {
            reveal_strlit("Claro");
            assert("Claro"@.len() == 5);
        },
        TranslationKey::SectionButtons => {
            reveal_strlit("Botones");
            assert("Botones"@.len() == 7);
        },
        TranslationKey::SectionTypography => {
            reveal_strlit("Tipografia");
            assert("Tipografia"@.len() == 10);
        },
        TranslationKey::SectionBadges => {
            reveal_strlit("Insignias");
            assert("Insignias"@.len() == 9);
        },
        TranslationKey::SectionAvatars => {
            reveal_strlit("Avatares");
            assert("Avatares"@.len() == 8);
        },
        TranslationKey::SectionFormControls => {
            reveal_strlit("Controles de formulario");
            assert("Controles de formulario"@.len() == 23);
        },
        TranslationKey::SectionProgress => {
            reveal_strlit("Indicadores de progreso");
            assert("Indicadores de progreso"@.len() == 23);
        },
        TranslationKey::SectionAlerts => {
            reveal_strlit("Alertas");
            assert("Alertas"@.len() == 7);
        },
        TranslationKey::SectionTabs => {
            reveal_strlit("Pestanas");
            assert("Pestanas"@.len() == 8);
        },
        TranslationKey::SectionCards => {
            reveal_strlit("Tarjetas");
            assert("Tarjetas"@.len() == 8);
        },
        TranslationKey::SectionBreadcrumbs => {
            reveal_strlit("Migas de pan");
            assert("Migas de pan"@.len() == 12);
        },
        TranslationKey::SectionSpinners => {
            reveal_strlit("Indicadores de carga");
            assert("Indicadores de carga"@.len() == 20);
        },
        TranslationKey::SectionLayout => {
            reveal_strlit("Componentes de diseno");
            assert("Componentes de diseno"@.len() == 21);
        },
        TranslationKey::SectionIconButtons => {
            reveal_strlit("Botones de icono");
            assert("Botones de icono"@.len() == 16);
        },
        TranslationKey::SectionToasts => {
            reveal_strlit("Notificaciones");
            assert("Notificaciones"@.len() == 14);
        },
        TranslationKey::SectionDialogs => {
            reveal_strlit("Dialogos");
            assert("Dialogos"@.len() == 8);
        },
        TranslationKey::SectionMenus => {
            reveal_strlit("Menus");
            assert("Menus"@.len() == 5);
        },
        TranslationKey::SectionTooltips => {
            reveal_strlit("Sugerencias");
            assert("Sugerencias"@.len() == 11);
        },
        TranslationKey::SectionPotentiometers => {
            reveal_strlit("Potenciometros");
            assert("Potenciometros"@.len() == 14);
        },
        TranslationKey::SectionAccordion => {
            reveal_strlit("Acordeon");
            assert("Acordeon"@.len() == 8);
        },
        TranslationKey::SectionQrCode => {
            reveal_strlit("Codigo QR");
            assert("Codigo QR"@.len() == 9);
        },
        TranslationKey::SectionContextMenu => {
            reveal_strlit("Menu contextual");
            assert("Menu contextual"@.len() == 15);
        },
        TranslationKey::SectionPopover => {
            reveal_strlit("Popover");
            assert("Popover"@.len() == 7);
        },
        TranslationKey::SectionSidebar => {
            reveal_strlit("Barra lateral");
            assert("Barra lateral"@.len() == 13);
        },
        TranslationKey::SectionStatusBar => {
            reveal_strlit("Barra de estado");
            assert("Barra de estado"@.len() == 15);
        },
        TranslationKey::SectionSearchBar => {
            reveal_strlit("Barra de busqueda");
            assert("Barra de busqueda"@.len() == 17);
        },
        TranslationKey::SectionKeyboardShortcut => {
            reveal_strlit("Atajos de teclado");
            assert("Atajos de teclado"@.len() == 17);
        },
        TranslationKey::SectionEmptyState => {
            reveal_strlit("Estado vacio");
            assert("Estado vacio"@.len() == 12);
        },
        TranslationKey::SectionConfirmDialog => {
            reveal_strlit("Dialogo de confirmacion");
            assert("Dialogo de confirmacion"@.len() == 23);
        },
        TranslationKey::SectionSplitPane => {
            reveal_strlit("Panel dividido");
            assert("Panel dividido"@.len() == 14);
        },
        TranslationKey::SectionImageView => {
            reveal_strlit("Vista de imagen");
            assert("Vista de imagen"@.len() == 15);
        },
        TranslationKey::SectionSettingsForm => {
            reveal_strlit("Formulario de ajustes");
            assert("Formulario de ajustes"@.len() == 21);
        },
        TranslationKey::SectionStepIndicator => {
            reveal_strlit("Indicador de pasos");
            assert("Indicador de pasos"@.len() == 18);
        },
        TranslationKey::SectionLoadingOverlay => {
            reveal_strlit("Pantalla de carga");
            assert("Pantalla de carga"@.len() == 17);
        },
        TranslationKey::SectionTag => {
            reveal_strlit("Etiqueta");
            assert("Etiqueta"@.len() == 8);
        },
        TranslationKey::SectionToolbar => {
            reveal_strlit("Barra de herramientas");
            assert("Barra de herramientas"@.len() == 21);
        },
        TranslationKey::SectionNotification => {
            reveal_strlit("Notificacion");
            assert("Notificacion"@.len() == 12);
        },
        TranslationKey::SectionTreeView => {
            reveal_strlit("Vista de arbol");
            assert("Vista de arbol"@.len() == 14);
        },
        TranslationKey::SectionDragList => {
            reveal_strlit("Lista arrastrable");
            assert("Lista arrastrable"@.len() == 17);
        },
        TranslationKey::SectionCommandPalette => {
            reveal_strlit("Paleta de comandos");
            assert("Paleta de comandos"@.len() == 18);
        },
        TranslationKey::LabelVariants => {
            reveal_strlit("Variantes");
            assert("Variantes"@.len() == 9);
        },
        TranslationKey::LabelSizes => {
            reveal_strlit("Tamanos");
            assert("Tamanos"@.len() == 7);
        },
        TranslationKey::LabelStates => {
            reveal_strlit("Estados");
            assert("Estados"@.len() == 7);
        },
        TranslationKey::LabelToggles => {
            reveal_strlit("Interruptores");
            assert("Interruptores"@.len() == 13);
        },
        TranslationKey::LabelCheckboxes => {
            reveal_strlit("Casillas");
            assert("Casillas"@.len() == 8);
        },
        TranslationKey::LabelSlider => {
            reveal_strlit("Deslizador");
            assert("Deslizador"@.len() == 10);
        },
        TranslationKey::LabelInput => {
            reveal_strlit("Entrada");
            assert("Entrada"@.len() == 7);
        },
        TranslationKey::LabelSmall => {
            reveal_strlit("Pequeno");
            assert("Pequeno"@.len() == 7);
        },
        TranslationKey::LabelMedium => {
            reveal_strlit("Mediano");
            assert("Mediano"@.len() == 7);
        },
        TranslationKey::LabelLarge => {
            reveal_strlit("Grande");
            assert("Grande"@.len() == 6);
        },
        TranslationKey::LabelDisabled => {
            reveal_strlit("Desactivado");
            assert("Desactivado"@.len() == 11);
        },
        TranslationKey::LabelSelected => {
            reveal_strlit("Seleccionado");
            assert("Seleccionado"@.len() == 12);
        },
        TranslationKey::ButtonPrimary => {
            reveal_strlit("Primario");
            assert("Primario"@.len() == 8);
        },
        TranslationKey::ButtonSecondary => {
            reveal_strlit("Secundario");
            assert("Secundario"@.len() == 10);
        },
        TranslationKey::ButtonDestructive => {
            reveal_strlit("Destructivo");
            assert("Destructivo"@.len() == 11);
        },
        TranslationKey::ButtonGhost => {
            reveal_strlit("Fantasma");
            assert("Fantasma"@.len() == 8);
        },
        TranslationKey::ButtonOutline => {
            reveal_strlit("Contorno");
            assert("Contorno"@.len() == 8);
        },
        TranslationKey::ButtonCancel => {
            reveal_strlit("Cancelar");
            assert("Cancelar"@.len() == 8);
        },
        TranslationKey::ButtonSave => {
            reveal_strlit("Guardar");
            assert("Guardar"@.len() == 7);
        },
        TranslationKey::ButtonConfirm => {
            reveal_strlit("Confirmar");
            assert("Confirmar"@.len() == 9);
        },
        TranslationKey::DialogConfirmTitle => {
            reveal_strlit("Confirmar accion");
            assert("Confirmar accion"@.len() == 16);
        },
        TranslationKey::DialogConfirmMessage => {
            reveal_strlit("Esta seguro de que desea continuar? Esta accion no se puede deshacer.");
            assert("Esta seguro de que desea continuar? Esta accion no se puede deshacer."@.len() == 69);
        },
        TranslationKey::AlertInfo => {
            reveal_strlit("Informacion");
            assert("Informacion"@.len() == 11);
        },
        TranslationKey::AlertSuccess => {
            reveal_strlit("Exito");
            assert("Exito"@.len() == 5);
        },
        TranslationKey::AlertWarning => {
            reveal_strlit("Advertencia");
            assert("Advertencia"@.len() == 11);
        },
        TranslationKey::AlertError => {
            reveal_strlit("Error");
            assert("Error"@.len() == 5);
        },
        TranslationKey::AlertInfoMessage => {
            reveal_strlit("Este es un mensaje informativo.");
            assert("Este es un mensaje informativo."@.len() == 31);
        },
        TranslationKey::AlertSuccessMessage => {
            reveal_strlit("Sus cambios se han guardado correctamente.");
            assert("Sus cambios se han guardado correctamente."@.len() == 42);
        },
        TranslationKey::AlertWarningMessage => {
            reveal_strlit("Por favor revise su configuracion antes de continuar.");
            assert("Por favor revise su configuracion antes de continuar."@.len() == 53);
        },
        TranslationKey::AlertErrorMessage => {
            reveal_strlit("Se produjo un error al procesar su solicitud.");
            assert("Se produjo un error al procesar su solicitud."@.len() == 45);
        },
        TranslationKey::AccordionGettingStarted => {
            reveal_strlit("Primeros pasos");
            assert("Primeros pasos"@.len() == 14);
        },
        TranslationKey::AccordionFeatures => {
            reveal_strlit("Caracteristicas");
            assert("Caracteristicas"@.len() == 15);
        },
        TranslationKey::AccordionConfiguration => {
            reveal_strlit("Configuracion");
            assert("Configuracion"@.len() == 13);
        },
    }
}

/// No Japanese text is the `???` that marks a missing one.
proof fn lemma_japanese_known(key: TranslationKey)
    ensures
        japanese(key) != "???"@,
{
    reveal_strlit("???");
    match key {
        TranslationKey::AppTitle => {
            reveal_strlit("GPUI UI Kit Showcase");
            assert("GPUI UI Kit Showcase"@.len() == 20);
        },
        TranslationKey::AppSubtitle => {
            reveal_strlit("GPUIアプリケーション用の再利用可能なUIコンポーネントの包括的なライブラリ。");
            assert("GPUIアプリケーション用の再利用可能なUIコンポーネントの包括的なライブラリ。"@.len() == 40);
        },
        TranslationKey::MenuFile => {
            reveal_strlit("ファイル");
            assert("ファイル"@.len() == 4);
        },
        TranslationKey::MenuEdit => {
            reveal_strlit("編集");
            assert("編集"@.len() == 2);
        },
        TranslationKey::MenuView => {
            reveal_strlit("表示");
            assert("表示"@.len() == 2);
        },
        TranslationKey::MenuHelp => {
            reveal_strlit("ヘルプ");
            assert("ヘルプ"@[0] == '\u{30d8}');
        },
        TranslationKey::MenuQuit => {
            reveal_strlit("終了");
            assert("終了"@.len() == 2);
        },
        TranslationKey::MenuTheme => {
            reveal_strlit("テーマ");
            assert("テーマ"@[0] == '\u{30c6}');
        },
        TranslationKey::MenuLanguage => {
            reveal_strlit("言語");
            assert("言語"@.len() == 2);
        },
        TranslationKey::MenuSettings => {
            reveal_strlit("設定");
            assert("設定"@.len() == 2);
        },
        TranslationKey::ThemeDark => {
            reveal_strlit("ダーク");
            assert("ダーク"@[0] == '\u{30c0}');
        },
        TranslationKey::ThemeLight => {
            reveal_strlit("ライト");
            assert("ライト"@[0] == '\u{30e9}');
        },
        TranslationKey::SectionButtons => {
            reveal_strlit("ボタン");
            assert("ボタン"@[0] == '\u{30dc}');
        },
        TranslationKey::SectionTypography => {
            reveal_strlit("タイポグラフィ");
            assert("タイポグラフィ"@.len() == 7);
        },
        TranslationKey::SectionBadges => {
            reveal_strlit("バッジ");
            assert("バッジ"@[0] == '\u{30d0}');
        },
        TranslationKey::SectionAvatars => {
            reveal_strlit("アバター");
            assert("アバター"@.len() == 4);
        },
        TranslationKey::SectionFormControls => {
            reveal_strlit("フォームコントロール");
            assert("フォームコントロール"@.len() == 10);
        },
        TranslationKey::SectionProgress => {
            reveal_strlit("進捗インジケーター");
            assert("進捗インジケーター"@.len() == 9);
        },
        TranslationKey::SectionAlerts => {
            reveal_strlit("アラート");
            assert("アラート"@.len() == 4);
        },
        TranslationKey::SectionTabs => {
            reveal_strlit("タブ");
            assert("タブ"@.len() == 2);
        },
        TranslationKey::SectionCards => {
            reveal_strlit("カード");
            assert("カード"@[0] == '\u{30ab}');
        },
        TranslationKey::SectionBreadcrumbs => {
            reveal_strlit("パンくずリスト");
            assert("パンくずリスト"@.len() == 7);
        },
        TranslationKey::SectionSpinners => {
            reveal_strlit("読み込みインジケーター");
            assert("読み込みインジケーター"@.len() == 11);
        },
        TranslationKey::SectionLayout => {
            reveal_strlit("レイアウトコンポーネント");
            assert("レイアウトコンポーネント"@.len() == 12);
        },
        TranslationKey::SectionIconButtons => {
            reveal_strlit("アイコンボタン");
            assert("アイコンボタン"@.len() == 7);
        },
        TranslationKey::SectionToasts => {
            reveal_strlit("トースト");
            assert("トースト"@.len() == 4);
        },
        TranslationKey::SectionDialogs => {
            reveal_strlit("ダイアログ");
            assert("ダイアログ"@.len() == 5);
        },
        TranslationKey::SectionMenus => {
            reveal_strlit("メニュー");
            assert("メニュー"@.len() == 4);
        },
        TranslationKey::SectionTooltips => {
            reveal_strlit("ツールチップ");
            assert("ツールチップ"@.len() == 6);
        },
        TranslationKey::SectionPotentiometers => {
            reveal_strlit("ポテンショメーター");
            assert("ポテンショメーター"@.len() == 9);
        },
        TranslationKey::SectionAccordion => {
            reveal_strlit("アコーディオン");
            assert("アコーディオン"@.len() == 7);
        },
        TranslationKey::SectionQrCode => {
            reveal_strlit("QRコード");
            assert("QRコード"@.len() == 5);
        },
        TranslationKey::SectionContextMenu => {
            reveal_strlit("コンテキストメニュー");
            assert("コンテキストメニュー"@.len() == 10);
        },
        TranslationKey::SectionPopover => {
            reveal_strlit("ポップオーバー");
            assert("ポップオーバー"@.len() == 7);
        },
        TranslationKey::SectionSidebar => {
            reveal_strlit("サイドバー");
            assert("サイドバー"@.len() == 5);
        },
        TranslationKey::SectionStatusBar => {
            reveal_strlit("ステータスバー");
            assert("ステータスバー"@.len() == 7);
        },
        TranslationKey::SectionSearchBar => {
            reveal_strlit("検索バー");
            assert("検索バー"@.len() == 4);
        },
        TranslationKey::SectionKeyboardShortcut => {
            reveal_strlit("キーボードショートカット");
            assert("キーボードショートカット"@.len() == 12);
        },
        TranslationKey::SectionEmptyState => {
            reveal_strlit("空の状態");
            assert("空の状態"@.len() == 4);
        },
        TranslationKey::SectionConfirmDialog => {
            reveal_strlit("確認ダイアログ");
            assert("確認ダイアログ"@.len() == 7);
        },
        TranslationKey::SectionSplitPane => {
            reveal_strlit("分割パネル");
            assert("分割パネル"@.len() == 5);
        },
        TranslationKey::SectionImageView => {
            reveal_strlit("画像ビュー");
            assert("画像ビュー"@.len() == 5);
        },
        TranslationKey::SectionSettingsForm => {
            reveal_strlit("設定フォーム");
            assert("設定フォーム"@.len() == 6);
        },
        TranslationKey::SectionStepIndicator => {
            reveal_strlit("ステップインジケーター");
            assert("ステップインジケーター"@.len() == 11);
        },
        TranslationKey::SectionLoadingOverlay => {
            reveal_strlit("ローディングオーバーレイ");
            assert("ローディングオーバーレイ"@.len() == 12);
        },
        TranslationKey::SectionTag => {
            reveal_strlit("タグ");
            assert("タグ"@.len() == 2);
        },
        TranslationKey::SectionToolbar => {
            reveal_strlit("ツールバー");
            assert("ツールバー"@.len() == 5);
        },
        TranslationKey::SectionNotification => {
            reveal_strlit("通知");
            assert("通知"@.len() == 2);
        },
        TranslationKey::SectionTreeView => {
            reveal_strlit("ツリービュー");
            assert("ツリービュー"@.len() == 6);
        },
        TranslationKey::SectionDragList => {
            reveal_strlit("ドラッグリスト");
            assert("ドラッグリスト"@.len() == 7);
        },
        TranslationKey::SectionCommandPalette => {
            reveal_strlit("コマンドパレット");
            assert("コマンドパレット"@.len() == 8);
        },
        TranslationKey::LabelVariants => {
            reveal_strlit("バリエーション");
            assert("バリエーション"@.len() == 7);
        },
        TranslationKey::LabelSizes => {
            reveal_strlit("サイズ");
            assert("サイズ"@[0] == '\u{30b5}');
        },
        TranslationKey::LabelStates => {
            reveal_strlit("状態");
            assert("状態"@.len() == 2);
        },
        TranslationKey::LabelToggles => {
            reveal_strlit("トグル");
            assert("トグル"@[0] == '\u{30c8}');
        },
        TranslationKey::LabelCheckboxes => {
            reveal_strlit("チェックボックス");
            assert("チェックボックス"@.len() == 8);
        },
        TranslationKey::LabelSlider => {
            reveal_strlit("スライダー");
            assert("スライダー"@.len() == 5);
        },
        TranslationKey::LabelInput => {
            reveal_strlit("入力");
            assert("入力"@.len() == 2);
        },
        TranslationKey::LabelSmall => {
            reveal_strlit("小");
            assert("小"@.len() == 1);
        },
        TranslationKey::LabelMedium => {
            reveal_strlit("中");
            assert("中"@.len() == 1);
        },
        TranslationKey::LabelLarge => {
            reveal_strlit("大");
            assert("大"@.len() == 1);
        },
        TranslationKey::LabelDisabled => {
            reveal_strlit("無効");
            assert("無効"@.len() == 2);
        },
        TranslationKey::LabelSelected => {
            reveal_strlit("選択済み");
            assert("選択済み"@.len() == 4);
        },
        TranslationKey::ButtonPrimary => {
            reveal_strlit("プライマリ");
            assert("プライマリ"@.len() == 5);
        },
        TranslationKey::ButtonSecondary => {
            reveal_strlit("セカンダリ");
            assert("セカンダリ"@.len() == 5);
        },
        TranslationKey::ButtonDestructive => {
            reveal_strlit("破壊的");
            assert("破壊的"@[0] == '\u{7834}');
        },
        TranslationKey::ButtonGhost => {
            reveal_strlit("ゴースト");
            assert("ゴースト"@.len() == 4);
        },
        TranslationKey::ButtonOutline => {
            reveal_strlit("アウトライン");
            assert("アウトライン"@.len() == 6);
        },
        TranslationKey::ButtonCancel => {
            reveal_strlit("キャンセル");
            assert("キャンセル"@.len() == 5);
        },
        TranslationKey::ButtonSave => {
            reveal_strlit("保存");
            assert("保存"@.len() == 2);
        },
        TranslationKey::ButtonConfirm => {
            reveal_strlit("確認");
            assert("確認"@.len() == 2);
        },
        TranslationKey::DialogConfirmTitle => {
            reveal_strlit("アクションの確認");
            assert("アクションの確認"@.len() == 8);
        },
        TranslationKey::DialogConfirmMessage => {
            reveal_strlit("続行してもよろしいですか？この操作は元に戻せません。");
            assert("続行してもよろしいですか？この操作は元に戻せません。"@.len() == 26);
        },
        TranslationKey::AlertInfo => {
            reveal_strlit("情報");
            assert("情報"@.len() == 2);
        },
        TranslationKey::AlertSuccess => {
            reveal_strlit("成功");
            assert("成功"@.len() == 2);
        },
        TranslationKey::AlertWarning => {
            reveal_strlit("警告");
            assert("警告"@.len() == 2);
        },
        TranslationKey::AlertError => {
            reveal_strlit("エラー");
            assert("エラー"@[0] == '\u{30a8}');
        },
        TranslationKey::AlertInfoMessage => {
            reveal_strlit("これは情報メッセージです。");
            assert("これは情報メッセージです。"@.len() == 13);
        },
        TranslationKey::AlertSuccessMessage => {
            reveal_strlit("変更が正常に保存されました。");
            assert("変更が正常に保存されました。"@.len() == 14);
        },
        TranslationKey::AlertWarningMessage => {
            reveal_strlit("続行する前に設定を確認してください。");
            assert("続行する前に設定を確認してください。"@.len() == 18);
        },
        TranslationKey::AlertErrorMessage => {
            reveal_strlit("リクエストの処理中にエラーが発生しました。");
            assert("リクエストの処理中にエラーが発生しました。"@.len() == 21);
        },
        TranslationKey::AccordionGettingStarted => {
            reveal_strlit("はじめに");
            assert("はじめに"@.len() == 4);
        },
        TranslationKey::AccordionFeatures => {
            reveal_strlit("機能");
            assert("機能"@.len() == 2);
        },
        TranslationKey::AccordionConfiguration => {
            reveal_strlit("設定");
            assert("設定"@.len() == 2);
        },
    }
}

/// No built-in text is the `???` that marks a missing one.
proof fn lemma_translation_known(lang: Language, key: TranslationKey)
    ensures
        translation(lang, key) != "???"@,
{
    match lang {
        Language::English => lemma_english_known(key),
        Language::French => lemma_french_known(key),
        Language::German => lemma_german_known(key),
        Language::Spanish => lemma_spanish_known(key),
        Language::Japanese => lemma_japanese_known(key),
    }
}

/// Law: with the built-in texts, every key is translated in every language:
/// no lookup gives `???`.
pub proof fn lemma_complete_never_unknown(t: Translations, lang: Language, key: TranslationKey)
    requires
        t.complete(),
    ensures
        lookup(t.translations@, lang, key) != "???"@,
{
    lemma_complete_lookup(t, lang, key);
    lemma_translation_known(lang, key);
}

/// The key whose English text is `s`, told apart from the other English texts by
/// its length and a few of its characters.
spec fn english_key_of(s: Seq<char>) -> Option<TranslationKey> {
    if s.len() == 20 {
        Some(TranslationKey::AppTitle)
    } else if s.len() == 72 {
        Some(TranslationKey::AppSubtitle)
    } else if s.len() == 4 && s[0] == 'F' {
        Some(TranslationKey::MenuFile)
    } else if s.len() == 4 && s[0] == 'E' {
        Some(TranslationKey::MenuEdit)
    } else if s.len() == 4 && s[0] == 'V' {
        Some(TranslationKey::MenuView)
    } else if s.len() == 4 && s[0] == 'H' {
        Some(TranslationKey::MenuHelp)
    } else if s.len() == 4 && s[0] == 'Q' {
        Some(TranslationKey::MenuQuit)
    } else if s.len() == 5 && s[0] == 'T' {
        Some(TranslationKey::MenuTheme)
    } else if s.len() == 8 && s[0] == 'L' {
        Some(TranslationKey::MenuLanguage)
    } else if s.len() == 8 && s[2] == 't' {
        Some(TranslationKey::MenuSettings)
    } else if s.len() == 4 && s[0] == 'D' {
        Some(TranslationKey::ThemeDark)
    } else if s.len() == 5 && s[2] == 'g' {
        Some(TranslationKey::ThemeLight)
    } else if s.len() == 7 && s[0] == 'B' {
        Some(TranslationKey::SectionButtons)
    } else if s.len() == 10 && s[0] == 'T' {
        Some(TranslationKey::SectionTypography)
    } else if s.len() == 6 && s[0] == 'B' {
        Some(TranslationKey::SectionBadges)
    } else if s.len() == 7 && s[0] == 'A' {
        Some(TranslationKey::SectionAvatars)
    } else if s.len() == 13 && s[0] == 'F' {
        Some(TranslationKey::SectionFormControls)
    } else if s.len() == 19 {
        Some(TranslationKey::SectionProgress)
    } else if s.len() == 6 && s[0] == 'A' {
        Some(TranslationKey::SectionAlerts)
    } else if s.len() == 4 && s[0] == 'T' {
        Some(TranslationKey::SectionTabs)
    } else if s.len() == 5 && s[0] == 'C' {
        Some(TranslationKey::SectionCards)
    } else if s.len() == 11 && s[0] == 'B' {
        Some(TranslationKey::SectionBreadcrumbs)
    } else if s.len() == 18 && s[0] == 'L' {
        Some(TranslationKey::SectionSpinners)
    } else if s.len() == 17 {
        Some(TranslationKey::SectionLayout)
    } else if s.len() == 12 && s[0] == 'I' {
        Some(TranslationKey::SectionIconButtons)
    } else if s.len() == 6 && s[0] == 'T' {
        Some(TranslationKey::SectionToasts)
    } else if s.len() == 7 && s[0] == 'D' {
        Some(TranslationKey::SectionDialogs)
    } else if s.len() == 5 && s[0] == 'M' {
        Some(TranslationKey::SectionMenus)
    } else if s.len() == 8 && s[0] == 'T' {
        Some(TranslationKey::SectionTooltips)
    } else if s.len() == 14 && s[0] == 'P' {
        Some(TranslationKey::SectionPotentiometers)
    } else if s.len() == 9 && s[0] == 'A' {
        Some(TranslationKey::SectionAccordion)
    } else if s.len() == 7 && s[0] == 'Q' {
        Some(TranslationKey::SectionQrCode)
    } else if s.len() == 12 && s[0] == 'C' {
        Some(TranslationKey::SectionContextMenu)
    } else if s.len() == 7 && s[2] == 'p' {
        Some(TranslationKey::SectionPopover)
    } else if s.len() == 7 && s[2] == 'd' {
        Some(TranslationKey::SectionSidebar)
    } else if s.len() == 10 && s[1] == 't' {
        Some(TranslationKey::SectionStatusBar)
    } else if s.len() == 10 && s[1] == 'e' {
        Some(TranslationKey::SectionSearchBar)
    } else if s.len() == 18 && s[0] == 'K' {
        Some(TranslationKey::SectionKeyboardShortcut)
    } else if s.len() == 11 && s[0] == 'E' {
        Some(TranslationKey::SectionEmptyState)
    } else if s.len() == 14 && s[8] == 'D' {
        Some(TranslationKey::SectionConfirmDialog)
    } else if s.len() == 10 && s[1] == 'p' {
        Some(TranslationKey::SectionSplitPane)
    } else if s.len() == 10 && s[0] == 'I' {
        Some(TranslationKey::SectionImageView)
    } else if s.len() == 13 && s[0] == 'S' {
        Some(TranslationKey::SectionSettingsForm)
    } else if s.len() == 14 && s[0] == 'S' {
        Some(TranslationKey::SectionStepIndicator)
    } else if s.len() == 15 && s[0] == 'L' {
        Some(TranslationKey::SectionLoadingOverlay)
    } else if s.len() == 3 {
        Some(TranslationKey::SectionTag)
    } else if s.len() == 7 && s[2] == 'o' {
        Some(TranslationKey::SectionToolbar)
    } else if s.len() == 12 && s[0] == 'N' {
        Some(TranslationKey::SectionNotification)
    } else if s.len() == 9 && s[0] == 'T' {
        Some(TranslationKey::SectionTreeView)
    } else if s.len() == 9 && s[0] == 'D' {
        Some(TranslationKey::SectionDragList)
    } else if s.len() == 15 && s[0] == 'C' {
        Some(TranslationKey::SectionCommandPalette)
    } else if s.len() == 8 && s[0] == 'V' {
        Some(TranslationKey::LabelVariants)
    } else if s.len() == 5 && s[2] == 'z' {
        Some(TranslationKey::LabelSizes)
    } else if s.len() == 6 && s[1] == 't' {
        Some(TranslationKey::LabelStates)
    } else if s.len() == 7 && s[2] == 'g' {
        Some(TranslationKey::LabelToggles)
    } else if s.len() == 10 && s[0] == 'C' {
        Some(TranslationKey::LabelCheckboxes)
    } else if s.len() == 6 && s[2] == 'i' {
        Some(TranslationKey::LabelSlider)
    } else if s.len() == 5 && s[0] == 'I' {
        Some(TranslationKey::LabelInput)
    } else if s.len() == 5 && s[1] == 'm' {
        Some(TranslationKey::LabelSmall)
    } else if s.len() == 6 && s[0] == 'M' {
        Some(TranslationKey::LabelMedium)
    } else if s.len() == 5 && s[3] == 'g' {
        Some(TranslationKey::LabelLarge)
    } else if s.len() == 8 && s[0] == 'D' {
        Some(TranslationKey::LabelDisabled)
    } else if s.len() == 8 && s[2] == 'l' {
        Some(TranslationKey::LabelSelected)
    } else if s.len() == 7 && s[1] == 'r' {
        Some(TranslationKey::ButtonPrimary)
    } else if s.len() == 9 && s[0] == 'S' {
        Some(TranslationKey::ButtonSecondary)
    } else if s.len() == 11 && s[0] == 'D' {
        Some(TranslationKey::ButtonDestructive)
    } else if s.len() == 5 && s[0] == 'G' {
        Some(TranslationKey::ButtonGhost)
    } else if s.len() == 7 && s[0] == 'O' {
        Some(TranslationKey::ButtonOutline)
    } else if s.len() == 6 && s[0] == 'C' {
        Some(TranslationKey::ButtonCancel)
    } else if s.len() == 4 && s[0] == 'S' {
        Some(TranslationKey::ButtonSave)
    } else if s.len() == 7 && s[0] == 'C' {
        Some(TranslationKey::ButtonConfirm)
    } else if s.len() == 14 && s[8] == 'A' {
        Some(TranslationKey::DialogConfirmTitle)
    } else if s.len() == 64 {
        Some(TranslationKey::DialogConfirmMessage)
    } else if s.len() == 11 && s[0] == 'I' {
        Some(TranslationKey::AlertInfo)
    } else if s.len() == 7 && s[2] == 'c' {
        Some(TranslationKey::AlertSuccess)
    } else if s.len() == 7 && s[0] == 'W' {
        Some(TranslationKey::AlertWarning)
    } else if s.len() == 5 && s[0] == 'E' {
        Some(TranslationKey::AlertError)
    } else if s.len() == 33 {
        Some(TranslationKey::AlertInfoMessage)
    } else if s.len() == 42 {
        Some(TranslationKey::AlertSuccessMessage)
    } else if s.len() == 46 {
        Some(TranslationKey::AlertWarningMessage)
    } else if s.len() == 48 {
        Some(TranslationKey::AlertErrorMessage)
    } else if s.len() == 15 && s[0] == 'G' {
        Some(TranslationKey::AccordionGettingStarted)
    } else if s.len() == 8 && s[0] == 'F' {
        Some(TranslationKey::AccordionFeatures)
    } else if s.len() == 13 && s[0] == 'C' {
        Some(TranslationKey::AccordionConfiguration)
    } else {
        None
    }
}

/// Each English text leads back to its key.
proof fn lemma_english_key_of(key: TranslationKey)
    ensures
        english_key_of(english(key)) == Some(key),
{
    match key {
        TranslationKey::AppTitle => {
            reveal_strlit("GPUI UI Kit Showcase");
            assert("GPUI UI Kit Showcase"@.len() == 20);
        },
        TranslationKey::AppSubtitle => {
            reveal_strlit("A comprehensive library of reusable UI components for GPUI applications.");
            assert("A comprehensive library of reusable UI components for GPUI applications."@.len() == 72);
        },
        TranslationKey::MenuFile => {
            reveal_strlit("File");
            assert("File"@.len() == 4);
        },
        TranslationKey::MenuEdit => {
            reveal_strlit("Edit");
            assert("Edit"@.len() == 4);
        },
        TranslationKey::MenuView => {
            reveal_strlit("View");
            assert("View"@.len() == 4);
        },
        TranslationKey::MenuHelp => {
            reveal_strlit("Help");
            assert("Help"@.len() == 4);
        },
        TranslationKey::MenuQuit => {
            reveal_strlit("Quit");
            assert("Quit"@.len() == 4);
        },
        TranslationKey::MenuTheme => {
            reveal_strlit("Theme");
            assert("Theme"@.len() == 5);
        },
        TranslationKey::MenuLanguage => {
            reveal_strlit("Language");
            assert("Language"@.len() == 8);
        },
        TranslationKey::MenuSettings => {
            reveal_strlit("Settings");
            assert("Settings"@.len() == 8);
        },
        TranslationKey::ThemeDark => {
            reveal_strlit("Dark");
            assert("Dark"@.len() == 4);
        },
        TranslationKey::ThemeLight => {
            reveal_strlit("Light");
            assert("Light"@.len() == 5);
        },
        TranslationKey::SectionButtons => {
            reveal_strlit("Buttons");
            assert("Buttons"@.len() == 7);
        },
        TranslationKey::SectionTypography => {
            reveal_strlit("Typography");
            assert("Typography"@.len() == 10);
        },
        TranslationKey::SectionBadges => {
            reveal_strlit("Badges");
            assert("Badges"@.len() == 6);
        },
        TranslationKey::SectionAvatars => {
            reveal_strlit("Avatars");
            assert("Avatars"@.len() == 7);
        },
        TranslationKey::SectionFormControls => {
            reveal_strlit("Form Controls");
            assert("Form Controls"@.len() == 13);
        },
        TranslationKey::SectionProgress => {
            reveal_strlit("Progress Indicators");
            assert("Progress Indicators"@.len() == 19);
        },
        TranslationKey::SectionAlerts => {
            reveal_strlit("Alerts");
            assert("Alerts"@.len() == 6);
        },
        TranslationKey::SectionTabs => {
            reveal_strlit("Tabs");
            assert("Tabs"@.len() == 4);
        },
        TranslationKey::SectionCards => {
            reveal_strlit("Cards");
            assert("Cards"@.len() == 5);
        },
        TranslationKey::SectionBreadcrumbs => {
            reveal_strlit("Breadcrumbs");
            assert("Breadcrumbs"@.len() == 11);
        },
        TranslationKey::SectionSpinners => {
            reveal_strlit("Loading Indicators");
            assert("Loading Indicators"@.len() == 18);
        },
        TranslationKey::SectionLayout => {
            reveal_strlit("Layout Components");
            assert("Layout Components"@.len() == 17);
        },
        TranslationKey::SectionIconButtons => {
            reveal_strlit("Icon Buttons");
            assert("Icon Buttons"@.len() == 12);
        },
        TranslationKey::SectionToasts => {
            reveal_strlit("Toasts");
            assert("Toasts"@.len() == 6);
        },
        TranslationKey::SectionDialogs => {
            reveal_strlit("Dialogs");
            assert("Dialogs"@.len() == 7);
        },
        TranslationKey::SectionMenus => {
            reveal_strlit("Menus");
            assert("Menus"@.len() == 5);
        },
        TranslationKey::SectionTooltips => {
            reveal_strlit("Tooltips");
            assert("Tooltips"@.len() == 8);
        },
        TranslationKey::SectionPotentiometers => {
            reveal_strlit("Potentiometers");
            assert("Potentiometers"@.len() == 14);
        },
        TranslationKey::SectionAccordion => {
            reveal_strlit("Accordion");
            assert("Accordion"@.len() == 9);
        },
        TranslationKey::SectionQrCode => {
            reveal_strlit("QR Code");
            assert("QR Code"@.len() == 7);
        },
        TranslationKey::SectionContextMenu => {
            reveal_strlit("Context Menu");
            assert("Context Menu"@.len() == 12);
        },
        TranslationKey::SectionPopover => {
            reveal_strlit("Popover");
            assert("Popover"@.len() == 7);
        },
        TranslationKey::SectionSidebar => {
            reveal_strlit("Sidebar");
            assert("Sidebar"@.len() == 7);
        },
        TranslationKey::SectionStatusBar => {
            reveal_strlit("Status Bar");
            assert("Status Bar"@.len() == 10);
        },
        TranslationKey::SectionSearchBar => {
            reveal_strlit("Search Bar");
            assert("Search Bar"@.len() == 10);
        },
        TranslationKey::SectionKeyboardShortcut => {
            reveal_strlit("Keyboard Shortcuts");
            assert("Keyboard Shortcuts"@.len() == 18);
        },
        TranslationKey::SectionEmptyState => {
            reveal_strlit("Empty State");
            assert("Empty State"@.len() == 11);
        },
        TranslationKey::SectionConfirmDialog => {
            reveal_strlit("Confirm Dialog");
            assert("Confirm Dialog"@.len() == 14);
        },
        TranslationKey::SectionSplitPane => {
            reveal_strlit("Split Pane");
            assert("Split Pane"@.len() == 10);
        },
        TranslationKey::SectionImageView => {
            reveal_strlit("Image View");
            assert("Image View"@.len() == 10);
        },
        TranslationKey::SectionSettingsForm => {
            reveal_strlit("Settings Form");
            assert("Settings Form"@.len() == 13);
        },
        TranslationKey::SectionStepIndicator => {
            reveal_strlit("Step Indicator");
            assert("Step Indicator"@.len() == 14);
        },
        TranslationKey::SectionLoadingOverlay => {
            reveal_strlit("Loading Overlay");
            assert("Loading Overlay"@.len() == 15);
        },
        TranslationKey::SectionTag => {
            reveal_strlit("Tag");
            assert("Tag"@.len() == 3);
        },
        TranslationKey::SectionToolbar => {
            reveal_strlit("Toolbar");
            assert("Toolbar"@.len() == 7);
        },
        TranslationKey::SectionNotification => {
            reveal_strlit("Notification");
            assert("Notification"@.len() == 12);
        },
        TranslationKey::SectionTreeView => {
            reveal_strlit("Tree View");
            assert("Tree View"@.len() == 9);
        },
        TranslationKey::SectionDragList => {
            reveal_strlit("Drag List");
            assert("Drag List"@.len() == 9);
        },
        TranslationKey::SectionCommandPalette => {
            reveal_strlit("Command Palette");
            assert("Command Palette"@.len() == 15);
        },
        TranslationKey::LabelVariants => {
            reveal_strlit("Variants");
            assert("Variants"@.len() == 8);
        },
        TranslationKey::LabelSizes => {
            reveal_strlit("Sizes");
            assert("Sizes"@.len() == 5);
        },
        TranslationKey::LabelStates => {
            reveal_strlit("States");
            assert("States"@.len() == 6);
        },
        TranslationKey::LabelToggles => {
            reveal_strlit("Toggles");
            assert("Toggles"@.len() == 7);
        },
        TranslationKey::LabelCheckboxes => {
            reveal_strlit("Checkboxes");
            assert("Checkboxes"@.len() == 10);
        },
        TranslationKey::LabelSlider => {
            reveal_strlit("Slider");
            assert("Slider"@.len() == 6);
        },
        TranslationKey::LabelInput => {
            reveal_strlit("Input");
            assert("Input"@.len() == 5);
        },
        TranslationKey::LabelSmall => {
            reveal_strlit("Small");
            assert("Small"@.len() == 5);
        },
        TranslationKey::LabelMedium => {
            reveal_strlit("Medium");
            assert("Medium"@.len() == 6);
        },
        TranslationKey::LabelLarge => {
            reveal_strlit("Large");
            assert("Large"@.len() == 5);
        },
        TranslationKey::LabelDisabled => {
            reveal_strlit("Disabled");
            assert("Disabled"@.len() == 8);
        },
        TranslationKey::LabelSelected => {
            reveal_strlit("Selected");
            assert("Selected"@.len() == 8);
        },
        TranslationKey::ButtonPrimary => {
            reveal_strlit("Primary");
            assert("Primary"@.len() == 7);
        },
        TranslationKey::ButtonSecondary => {
            reveal_strlit("Secondary");
            assert("Secondary"@.len() == 9);
        },
        TranslationKey::ButtonDestructive => {
            reveal_strlit("Destructive");
            assert("Destructive"@.len() == 11);
        },
        TranslationKey::ButtonGhost => {
            reveal_strlit("Ghost");
            assert("Ghost"@.len() == 5);
        },
        TranslationKey::ButtonOutline => {
            reveal_strlit("Outline");
            assert("Outline"@.len() == 7);
        },
        TranslationKey::ButtonCancel => {
            reveal_strlit("Cancel");
            assert("Cancel"@.len() == 6);
        },
        TranslationKey::ButtonSave => {
            reveal_strlit("Save");
            assert("Save"@.len() == 4);
        },
        TranslationKey::ButtonConfirm => {
            reveal_strlit("Confirm");
            assert("Confirm"@.len() == 7);
        },
        TranslationKey::DialogConfirmTitle => {
            reveal_strlit("Confirm Action");
            assert("Confirm Action"@.len() == 14);
        },
        TranslationKey::DialogConfirmMessage => {
            reveal_strlit("Are you sure you want to continue? This action cannot be undone.");
            assert("Are you sure you want to continue? This action cannot be undone."@.len() == 64);
        },
        TranslationKey::AlertInfo => {
            reveal_strlit("Information");
            assert("Information"@.len() == 11);
        },
        TranslationKey::AlertSuccess => {
            reveal_strlit("Success");
            assert("Success"@.len() == 7);
        },
        TranslationKey::AlertWarning => {
            reveal_strlit("Warning");
            assert("Warning"@.len() == 7);
        },
        TranslationKey::AlertError => {
            reveal_strlit("Error");
            assert("Error"@.len() == 5);
        },
        TranslationKey::AlertInfoMessage => {
            reveal_strlit("This is an informational message.");
            assert("This is an informational message."@.len() == 33);
        },
        TranslationKey::AlertSuccessMessage => {
            reveal_strlit("Your changes have been saved successfully.");
            assert("Your changes have been saved successfully."@.len() == 42);
        },
        TranslationKey::AlertWarningMessage => {
            reveal_strlit("Please review your settings before continuing.");
            assert("Please review your settings before continuing."@.len() == 46);
        },
        TranslationKey::AlertErrorMessage => {
            reveal_strlit("An error occurred while processing your request.");
            assert("An error occurred while processing your request."@.len() == 48);
        },
        TranslationKey::AccordionGettingStarted => {
            reveal_strlit("Getting Started");
            assert("Getting Started"@.len() == 15);
        },
        TranslationKey::AccordionFeatures => {
            reveal_strlit("Features");
            assert("Features"@.len() == 8);
        },
        TranslationKey::AccordionConfiguration => {
            reveal_strlit("Configuration");
            assert("Configuration"@.len() == 13);
        },
    }
}

/// The key whose French text is `s`, told apart from the other French texts by
/// its length and a few of its characters.
spec fn french_key_of(s: Seq<char>) -> Option<TranslationKey> {
    if s.len() == 22 {
        Some(TranslationKey::AppTitle)
    } else if s.len() == 84 {
        Some(TranslationKey::AppSubtitle)
    } else if s.len() == 7 && s[1] == 'i' {
        Some(TranslationKey::MenuFile)
    } else if s.len() == 7 && s[0] == 'E' {
        Some(TranslationKey::MenuEdit)
    } else if s.len() == 9 && s[1] == 'f' {
        Some(TranslationKey::MenuView)
    } else if s.len() == 4 {
        Some(TranslationKey::MenuHelp)
    } else if s.len() == 7 && s[0] == 'Q' {
        Some(TranslationKey::MenuQuit)
    } else if s.len() == 5 && s[0] == 'T' {
        Some(TranslationKey::MenuTheme)
    } else if s.len() == 6 && s[0] == 'L' {
        Some(TranslationKey::MenuLanguage)
    } else if s.len() == 10 && s[0] == 'P' {
        Some(TranslationKey::MenuSettings)
    } else if s.len() == 6 && s[1] == 'o' {
        Some(TranslationKey::ThemeDark)
    } else if s.len() == 5 && s[0] == 'C' {
        Some(TranslationKey::ThemeLight)
    } else if s.len() == 7 && s[0] == 'B' {
        Some(TranslationKey::SectionButtons)
    } else if s.len() == 11 && s[0] == 'T' {
        Some(TranslationKey::SectionTypography)
    } else if s.len() == 6 && s[0] == 'B' {
        Some(TranslationKey::SectionBadges)
    } else if s.len() == 7 && s[1] == 'v' {
        Some(TranslationKey::SectionAvatars)
    } else if s.len() == 23 {
        Some(TranslationKey::SectionFormControls)
    } else if s.len() == 26 && s[0] == 'I' {
        Some(TranslationKey::SectionProgress)
    } else if s.len() == 7 && s[1] == 'l' {
        Some(TranslationKey::SectionAlerts)
    } else if s.len() == 7 && s[0] == 'O' {
        Some(TranslationKey::SectionTabs)
    } else if s.len() == 6 && s[0] == 'C' {
        Some(TranslationKey::SectionCards)
    } else if s.len() == 12 && s[0] == 'F' {
        Some(TranslationKey::SectionBreadcrumbs)
    } else if s.len() == 25 {
        Some(TranslationKey::SectionSpinners)
    } else if s.len() == 26 && s[0] == 'C' {
        Some(TranslationKey::SectionLayout)
    } else if s.len() == 14 && s[2] == 'u' {
        Some(TranslationKey::SectionIconButtons)
    } else if s.len() == 13 && s[0] == 'N' {
        Some(TranslationKey::SectionToasts)
    } else if s.len() == 9 && s[1] == 'i' {
        Some(TranslationKey::SectionDialogs)
    } else if s.len() == 5 && s[2] == 'n' {
        Some(TranslationKey::SectionMenus)
    } else if s.len() == 10 && s[0] == 'I' {
        Some(TranslationKey::SectionTooltips)
    } else if s.len() == 14 && s[2] == 't' {
        Some(TranslationKey::SectionPotentiometers)
    } else if s.len() == 9 && s[1] == 'c' {
        Some(TranslationKey::SectionAccordion)
    } else if s.len() == 7 && s[2] == 'd' {
        Some(TranslationKey::SectionQrCode)
    } else if s.len() == 15 && s[0] == 'M' {
        Some(TranslationKey::SectionContextMenu)
    } else if s.len() == 7 && s[0] == 'P' {
        Some(TranslationKey::SectionPopover)
    } else if s.len() == 14 && s[6] == 'l' {
        Some(TranslationKey::SectionSidebar)
    } else if s.len() == 12 && s[0] == 'B' {
        Some(TranslationKey::SectionStatusBar)
    } else if s.len() == 18 && s[0] == 'B' {
        Some(TranslationKey::SectionSearchBar)
    } else if s.len() == 18 && s[0] == 'R' {
        Some(TranslationKey::SectionKeyboardShortcut)
    } else if s.len() == 9 && s[3] == 't' {
        Some(TranslationKey::SectionEmptyState)
    } else if s.len() == 24 && s[0] == 'D' {
        Some(TranslationKey::SectionConfirmDialog)
    } else if s.len() == 14 && s[2] == 'n' {
        Some(TranslationKey::SectionSplitPane)
    } else if s.len() == 9 && s[1] == 'u' {
        Some(TranslationKey::SectionImageView)
    } else if s.len() == 24 && s[0] == 'F' {
        Some(TranslationKey::SectionSettingsForm)
    } else if s.len() == 19 && s[0] == 'I' {
        Some(TranslationKey::SectionStepIndicator)
    } else if s.len() == 19 && s[0] == 'E' {
        Some(TranslationKey::SectionLoadingOverlay)
    } else if s.len() == 9 && s[2] == 'i' {
        Some(TranslationKey::SectionTag)
    } else if s.len() == 14 && s[6] == 'd' {
        Some(TranslationKey::SectionToolbar)
    } else if s.len() == 12 && s[0] == 'N' {
        Some(TranslationKey::SectionNotification)
    } else if s.len() == 16 {
        Some(TranslationKey::SectionTreeView)
    } else if s.len() == 15 && s[0] == 'L' {
        Some(TranslationKey::SectionDragList)
    } else if s.len() == 20 {
        Some(TranslationKey::SectionCommandPalette)
    } else if s.len() == 9 && s[1] == 'a' {
        Some(TranslationKey::LabelVariants)
    } else if s.len() == 7 && s[0] == 'T' {
        Some(TranslationKey::LabelSizes)
    } else if s.len() == 5 && s[0] == 'E' {
        Some(TranslationKey::LabelStates)
    } else if s.len() == 13 && s[0] == 'I' {
        Some(TranslationKey::LabelToggles)
    } else if s.len() == 14 && s[0] == 'C' {
        Some(TranslationKey::LabelCheckboxes)
    } else if s.len() == 7 && s[2] == 'r' {
        Some(TranslationKey::LabelSlider)
    } else if s.len() == 15 && s[0] == 'C' {
        Some(TranslationKey::LabelInput)
    } else if s.len() == 5 && s[0] == 'P' {
        Some(TranslationKey::LabelSmall)
    } else if s.len() == 5 && s[1] == 'o' {
        Some(TranslationKey::LabelMedium)
    } else if s.len() == 5 && s[0] == 'G' {
        Some(TranslationKey::LabelLarge)
    } else if s.len() == 9 && s[1] == 'e' {
        Some(TranslationKey::LabelDisabled)
    } else if s.len() == 11 && s[0] == 'S' {
        Some(TranslationKey::LabelSelected)
    } else if s.len() == 8 {
        Some(TranslationKey::ButtonPrimary)
    } else if s.len() == 10 && s[0] == 'S' {
        Some(TranslationKey::ButtonSecondary)
    } else if s.len() == 10 && s[0] == 'D' {
        Some(TranslationKey::ButtonDestructive)
    } else if s.len() == 7 && s[5] == 'm' {
        Some(TranslationKey::ButtonGhost)
    } else if s.len() == 7 && s[1] == 'o' && s[5] == 'u' {
        Some(TranslationKey::ButtonOutline)
    } else if s.len() == 7 && s[3] == 'u' {
        Some(TranslationKey::ButtonCancel)
    } else if s.len() == 11 && s[0] == 'E' {
        Some(TranslationKey::ButtonSave)
    } else if s.len() == 9 && s[0] == 'C' {
        Some(TranslationKey::ButtonConfirm)
    } else if s.len() == 18 && s[0] == 'C' {
        Some(TranslationKey::DialogConfirmTitle)
    } else if s.len() == 67 {
        Some(TranslationKey::DialogConfirmMessage)
    } else if s.len() == 11 && s[0] == 'I' {
        Some(TranslationKey::AlertInfo)
    } else if s.len() == 6 && s[1] == 'u' {
        Some(TranslationKey::AlertSuccess)
    } else if s.len() == 13 && s[0] == 'A' {
        Some(TranslationKey::AlertWarning)
    } else if s.len() == 6 && s[0] == 'E' {
        Some(TranslationKey::AlertError)
    } else if s.len() == 34 {
        Some(TranslationKey::AlertInfoMessage)
    } else if s.len() == 51 {
        Some(TranslationKey::AlertSuccessMessage)
    } else if s.len() == 52 {
        Some(TranslationKey::AlertWarningMessage)
    } else if s.len() == 62 {
        Some(TranslationKey::AlertErrorMessage)
    } else if s.len() == 12 && s[0] == 'P' {
        Some(TranslationKey::AccordionGettingStarted)
    } else if s.len() == 15 && s[0] == 'F' {
        Some(TranslationKey::AccordionFeatures)
    } else if s.len() == 13 && s[0] == 'C' {
        Some(TranslationKey::AccordionConfiguration)
    } else {
        None
    }
}

/// Each French text leads back to its key.
proof fn lemma_french_key_of(key: TranslationKey)
    ensures
        french_key_of(french(key)) == Some(key),
{
    match key {
        TranslationKey::AppTitle => {
            reveal_strlit("Vitrine du UI Kit GPUI");
            assert("Vitrine du UI Kit GPUI"@.len() == 22);
        },
        TranslationKey::AppSubtitle => {
            reveal_strlit("Une bibliotheque complete de composants UI reutilisables pour les applications GPUI.");
            assert("Une bibliotheque complete de composants UI reutilisables pour les applications GPUI."@.len() == 84);
        },
        TranslationKey::MenuFile => {
            reveal_strlit("Fichier");
            assert("Fichier"@.len() == 7);
        },
        TranslationKey::MenuEdit => {
            reveal_strlit("Edition");
            assert("Edition"@.len() == 7);
        },
        TranslationKey::MenuView => {
            reveal_strlit("Affichage");
            assert("Affichage"@.len() == 9);
        },
        TranslationKey::MenuHelp => {
            reveal_strlit("Aide");
            assert("Aide"@.len() == 4);
        },
        TranslationKey::MenuQuit => {
            reveal_strlit("Quitter");
            assert("Quitter"@.len() == 7);
        },
        TranslationKey::MenuTheme => {
            reveal_strlit("Theme");
            assert("Theme"@.len() == 5);
        },
        TranslationKey::MenuLanguage => {
            reveal_strlit("Langue");
            assert("Langue"@.len() == 6);
        },
        TranslationKey::MenuSettings => {
            reveal_strlit("Parametres");
            assert("Parametres"@.len() == 10);
        },
        TranslationKey::ThemeDark => {
            reveal_strlit("Sombre");
            assert("Sombre"@.len() == 6);
        },
        TranslationKey::ThemeLight => {
            reveal_strlit("Clair");
            assert("Clair"@.len() == 5);
        },
        TranslationKey::SectionButtons => {
            reveal_strlit("Boutons");
            assert("Boutons"@.len() == 7);
        },
        TranslationKey::SectionTypography => {
            reveal_strlit("Typographie");
            assert("Typographie"@.len() == 11);
        },
        TranslationKey::SectionBadges => {
            reveal_strlit("Badges");
            assert("Badges"@.len() == 6);
        },
        TranslationKey::SectionAvatars => {
            reveal_strlit("Avatars");
            assert("Avatars"@.len() == 7);
        },
        TranslationKey::SectionFormControls => {
            reveal_strlit("Controles de formulaire");
            assert("Controles de formulaire"@.len() == 23);
        },
        TranslationKey::SectionProgress => {
            reveal_strlit("Indicateurs de progression");
            assert("Indicateurs de progression"@.len() == 26);
        },
        TranslationKey::SectionAlerts => {
            reveal_strlit("Alertes");
            assert("Alertes"@.len() == 7);
        },
        TranslationKey::SectionTabs => {
            reveal_strlit("Onglets");
            assert("Onglets"@.len() == 7);
        },
        TranslationKey::SectionCards => {
            reveal_strlit("Cartes");
            assert("Cartes"@.len() == 6);
        },
        TranslationKey::SectionBreadcrumbs => {
            reveal_strlit("Fil d'Ariane");
            assert("Fil d'Ariane"@.len() == 12);
        },
        TranslationKey::SectionSpinners => {
            reveal_strlit("Indicateurs de chargement");
            assert("Indicateurs de chargement"@.len() == 25);
        },
        TranslationKey::SectionLayout => {
            reveal_strlit("Composants de mise en page");
            assert("Composants de mise en page"@.len() == 26);
        },
        TranslationKey::SectionIconButtons => {
            reveal_strlit("Boutons icones");
            assert("Boutons icones"@.len() == 14);
        },
        TranslationKey::SectionToasts => {
            reveal_strlit("Notifications");
            assert("Notifications"@.len() == 13);
        },
        TranslationKey::SectionDialogs => {
            reveal_strlit("Dialogues");
            assert("Dialogues"@.len() == 9);
        },
        TranslationKey::SectionMenus => {
            reveal_strlit("Menus");
            assert("Menus"@.len() == 5);
        },
        TranslationKey::SectionTooltips => {
            reveal_strlit("Infobulles");
            assert("Infobulles"@.len() == 10);
        },
        TranslationKey::SectionPotentiometers => {
            reveal_strlit("Potentiometres");
            assert("Potentiometres"@.len() == 14);
        },
        TranslationKey::SectionAccordion => {
            reveal_strlit("Accordeon");
            assert("Accordeon"@.len() == 9);
        },
        TranslationKey::SectionQrCode => {
            reveal_strlit("Code QR");
            assert("Code QR"@.len() == 7);
        },
        TranslationKey::SectionContextMenu => {
            reveal_strlit("Menu contextuel");
            assert("Menu contextuel"@.len() == 15);
        },
        TranslationKey::SectionPopover => {
            reveal_strlit("Popover");
            assert("Popover"@.len() == 7);
        },
        TranslationKey::SectionSidebar => {
            reveal_strlit("Barre laterale");
            assert("Barre laterale"@.len() == 14);
        },
        TranslationKey::SectionStatusBar => {
            reveal_strlit("Barre d'etat");
            assert("Barre d'etat"@.len() == 12);
        },
        TranslationKey::SectionSearchBar => {
            reveal_strlit("Barre de recherche");
            assert("Barre de recherche"@.len() == 18);
        },
        TranslationKey::SectionKeyboardShortcut => {
            reveal_strlit("Raccourcis clavier");
            assert("Raccourcis clavier"@.len() == 18);
        },
        TranslationKey::SectionEmptyState => {
            reveal_strlit("Etat vide");
            assert("Etat vide"@.len() == 9);
        },
        TranslationKey::SectionConfirmDialog => {
            reveal_strlit("Dialogue de confirmation");
            assert("Dialogue de confirmation"@.len() == 24);
        },
        TranslationKey::SectionSplitPane => {
            reveal_strlit("Panneau divise");
            assert("Panneau divise"@.len() == 14);
        },
        TranslationKey::SectionImageView => {
            reveal_strlit("Vue image");
            assert("Vue image"@.len() == 9);
        },
        TranslationKey::SectionSettingsForm => {
            reveal_strlit("Formulaire de parametres");
            assert("Formulaire de parametres"@.len() == 24);
        },
        TranslationKey::SectionStepIndicator => {
            reveal_strlit("Indicateur d'etapes");
            assert("Indicateur d'etapes"@.len() == 19);
        },
        TranslationKey::SectionLoadingOverlay => {
            reveal_strlit("Ecran de chargement");
            assert("Ecran de chargement"@.len() == 19);
        },
        TranslationKey::SectionTag => {
            reveal_strlit("Etiquette");
            assert("Etiquette"@.len() == 9);
        },
        TranslationKey::SectionToolbar => {
            reveal_strlit("Barre d'outils");
            assert("Barre d'outils"@.len() == 14);
        },
        TranslationKey::SectionNotification => {
            reveal_strlit("Notification");
            assert("Notification"@.len() == 12);
        },
        TranslationKey::SectionTreeView => {
            reveal_strlit("Vue arborescente");
            assert("Vue arborescente"@.len() == 16);
        },
        TranslationKey::SectionDragList => {
            reveal_strlit("Liste glissable");
            assert("Liste glissable"@.len() == 15);
        },
        TranslationKey::SectionCommandPalette => {
            reveal_strlit("Palette de commandes");
            assert("Palette de commandes"@.len() == 20);
        },
        TranslationKey::LabelVariants => {
            reveal_strlit("Variantes");
            assert("Variantes"@.len() == 9);
        },
        TranslationKey::LabelSizes => {
            reveal_strlit("Tailles");
            assert("Tailles"@.len() == 7);
        },
        TranslationKey::LabelStates => {
            reveal_strlit("Etats");
            assert("Etats"@.len() == 5);
        },
        TranslationKey::LabelToggles => {
            reveal_strlit("Interrupteurs");
            assert("Interrupteurs"@.len() == 13);
        },
        TranslationKey::LabelCheckboxes => {
            reveal_strlit("Cases a cocher");
            assert("Cases a cocher"@.len() == 14);
        },
        TranslationKey::LabelSlider => {
            reveal_strlit("Curseur");
            assert("Curseur"@.len() == 7);
        },
        TranslationKey::LabelInput => {
            reveal_strlit("Champ de saisie");
            assert("Champ de saisie"@.len() == 15);
        },
        TranslationKey::LabelSmall => {
            reveal_strlit("Petit");
            assert("Petit"@.len() == 5);
        },
        TranslationKey::LabelMedium => {
            reveal_strlit("Moyen");
            assert("Moyen"@.len() == 5);
        },
        TranslationKey::LabelLarge => {
            reveal_strlit("Grand");
            assert("Grand"@.len() == 5);
        },
        TranslationKey::LabelDisabled => {
            reveal_strlit("Desactive");
            assert("Desactive"@.len() == 9);
        },
        TranslationKey::LabelSelected => {
            reveal_strlit("Selectionne");
            assert("Selectionne"@.len() == 11);
        },
        TranslationKey::ButtonPrimary => {
            reveal_strlit("Primaire");
            assert("Primaire"@.len() == 8);
        },
        TranslationKey::ButtonSecondary => {
            reveal_strlit("Secondaire");
            assert("Secondaire"@.len() == 10);
        },
        TranslationKey::ButtonDestructive => {
            reveal_strlit("Destructif");
            assert("Destructif"@.len() == 10);
        },
        TranslationKey::ButtonGhost => {
            reveal_strlit("Fantome");
            assert("Fantome"@.len() == 7);
        },
        TranslationKey::ButtonOutline => {
            reveal_strlit("Contour");
            assert("Contour"@.len() == 7);
        },
        TranslationKey::ButtonCancel => {
            reveal_strlit("Annuler");
            assert("Annuler"@.len() == 7);
        },
        TranslationKey::ButtonSave => {
            reveal_strlit("Enregistrer");
            assert("Enregistrer"@.len() == 11);
        },
        TranslationKey::ButtonConfirm => {
            reveal_strlit("Confirmer");
            assert("Confirmer"@.len() == 9);
        },
        TranslationKey::DialogConfirmTitle => {
            reveal_strlit("Confirmer l'action");
            assert("Confirmer l'action"@.len() == 18);
        },
        TranslationKey::DialogConfirmMessage => {
            reveal_strlit("Etes-vous sur de vouloir continuer ? Cette action est irreversible.");
            assert("Etes-vous sur de vouloir continuer ? Cette action est irreversible."@.len() == 67);
        },
        TranslationKey::AlertInfo => {
            reveal_strlit("Information");
            assert("Information"@.len() == 11);
        },
        TranslationKey::AlertSuccess => {
            reveal_strlit("Succes");
            assert("Succes"@.len() == 6);
        },
        TranslationKey::AlertWarning => {
            reveal_strlit("Avertissement");
            assert("Avertissement"@.len() == 13);
        },
        TranslationKey::AlertError => {
            reveal_strlit("Erreur");
            assert("Erreur"@.len() == 6);
        },
        TranslationKey::AlertInfoMessage => {
            reveal_strlit("Ceci est un message d'information.");
            assert("Ceci est un message d'information."@.len() == 34);
        },
        TranslationKey::AlertSuccessMessage => {
            reveal_strlit("Vos modifications ont ete enregistrees avec succes.");
            assert("Vos modifications ont ete enregistrees avec succes."@.len() == 51);
        },
        TranslationKey::AlertWarningMessage => {
            reveal_strlit("Veuillez verifier vos parametres avant de continuer.");
            assert("Veuillez verifier vos parametres avant de continuer."@.len() == 52);
        },
        TranslationKey::AlertErrorMessage => {
            reveal_strlit("Une erreur s'est produite lors du traitement de votre demande.");
            assert("Une erreur s'est produite lors du traitement de votre demande."@.len() == 62);
        },
        TranslationKey::AccordionGettingStarted => {
            reveal_strlit("Premiers pas");
            assert("Premiers pas"@.len() == 12);
        },
        TranslationKey::AccordionFeatures => {
            reveal_strlit("Fonctionnalites");
            assert("Fonctionnalites"@.len() == 15);
        },
        TranslationKey::AccordionConfiguration => {
            reveal_strlit("Configuration");
            assert("Configuration"@.len() == 13);
        },
    }
}

/// The key whose German text is `s`, told apart from the other German texts by
/// its length and a few of its characters.
spec fn german_key_of(s: Seq<char>) -> Option<TranslationKey> {
    if s.len() == 20 && s[0] == 'G' {
        Some(TranslationKey::AppTitle)
    } else if s.len() == 82 {
        Some(TranslationKey::AppSubtitle)
    } else if s.len() == 5 && s[0] == 'D' {
        Some(TranslationKey::MenuFile)
    } else if s.len() == 10 && s[2] == 'a' {
        Some(TranslationKey::MenuEdit)
    } else if s.len() == 7 && s[1] == 'n' {
        Some(TranslationKey::MenuView)
    } else if s.len() == 5 && s[0] == 'H' {
        Some(TranslationKey::MenuHelp)
    } else if s.len() == 7 && s[0] == 'B' {
        Some(TranslationKey::MenuQuit)
    } else if s.len() == 5 && s[0] == 'T' {
        Some(TranslationKey::MenuTheme)
    } else if s.len() == 7 && s[0] == 'S' {
        Some(TranslationKey::MenuLanguage)
    } else if s.len() == 13 && s[0] == 'E' {
        Some(TranslationKey::MenuSettings)
    } else if s.len() == 6 && s[0] == 'D' {
        Some(TranslationKey::ThemeDark)
    } else if s.len() == 4 {
        Some(TranslationKey::ThemeLight)
    } else if s.len() == 13 && s[3] == 'a' {
        Some(TranslationKey::SectionButtons)
    } else if s.len() == 10 && s[0] == 'T' {
        Some(TranslationKey::SectionTypography)
    } else if s.len() == 9 && s[2] == 'z' {
        Some(TranslationKey::SectionBadges)
    } else if s.len() == 7 && s[1] == 'v' {
        Some(TranslationKey::SectionAvatars)
    } else if s.len() == 17 && s[0] == 'F' {
        Some(TranslationKey::SectionFormControls)
    } else if s.len() == 20 && s[0] == 'F' {
        Some(TranslationKey::SectionProgress)
    } else if s.len() == 9 && s[0] == 'W' {
        Some(TranslationKey::SectionAlerts)
    } else if s.len() == 14 && s[0] == 'R' {
        Some(TranslationKey::SectionTabs)
    } else if s.len() == 6 && s[0] == 'K' {
        Some(TranslationKey::SectionCards)
    } else if s.len() == 10 && s[1] == 'r' {
        Some(TranslationKey::SectionBreadcrumbs)
    } else if s.len() == 12 && s[0] == 'L' {
        Some(TranslationKey::SectionSpinners)
    } else if s.len() == 18 && s[0] == 'L' {
        Some(TranslationKey::SectionLayout)
    } else if s.len() == 20 && s[0] == 'S' {
        Some(TranslationKey::SectionIconButtons)
    } else if s.len() == 18 && s[2] == 'n' {
        Some(TranslationKey::SectionToasts)
    } else if s.len() == 7 && s[0] == 'D' {
        Some(TranslationKey::SectionDialogs)
    } else if s.len() == 5 && s[0] == 'M' {
        Some(TranslationKey::SectionMenus)
    } else if s.len() == 8 && s[0] == 'T' {
        Some(TranslationKey::SectionTooltips)
    } else if s.len() == 13 && s[0] == 'P' {
        Some(TranslationKey::SectionPotentiometers)
    } else if s.len() == 9 && s[1] == 'k' {
        Some(TranslationKey::SectionAccordion)
    } else if s.len() == 7 && s[0] == 'Q' {
        Some(TranslationKey::SectionQrCode)
    } else if s.len() == 11 && s[0] == 'K' {
        Some(TranslationKey::SectionContextMenu)
    } else if s.len() == 7 && s[0] == 'P' {
        Some(TranslationKey::SectionPopover)
    } else if s.len() == 12 && s[1] == 'e' {
        Some(TranslationKey::SectionSidebar)
    } else if s.len() == 12 && s[1] == 't' {
        Some(TranslationKey::SectionStatusBar)
    } else if s.len() == 10 && s[2] == 'c' {
        Some(TranslationKey::SectionSearchBar)
    } else if s.len() == 12 && s[0] == 'T' {
        Some(TranslationKey::SectionKeyboardShortcut)
    } else if s.len() == 14 && s[2] == 'e' {
        Some(TranslationKey::SectionEmptyState)
    } else if s.len() == 18 && s[2] == 's' {
        Some(TranslationKey::SectionConfirmDialog)
    } else if s.len() == 17 && s[0] == 'G' {
        Some(TranslationKey::SectionSplitPane)
    } else if s.len() == 11 && s[1] == 'i' {
        Some(TranslationKey::SectionImageView)
    } else if s.len() == 20 && s[0] == 'E' {
        Some(TranslationKey::SectionSettingsForm)
    } else if s.len() == 14 && s[0] == 'S' {
        Some(TranslationKey::SectionStepIndicator)
    } else if s.len() == 14 && s[1] == 'a' {
        Some(TranslationKey::SectionLoadingOverlay)
    } else if s.len() == 10 && s[1] == 'c' {
        Some(TranslationKey::SectionTag)
    } else if s.len() == 12 && s[1] == 'y' {
        Some(TranslationKey::SectionToolbar)
    } else if s.len() == 16 && s[0] == 'B' {
        Some(TranslationKey::SectionNotification)
    } else if s.len() == 11 && s[1] == 'a' {
        Some(TranslationKey::SectionTreeView)
    } else if s.len() == 10 && s[0] == 'Z' {
        Some(TranslationKey::SectionDragList)
    } else if s.len() == 14 && s[0] == 'B' {
        Some(TranslationKey::SectionCommandPalette)
    } else if s.len() == 9 && s[0] == 'V' {
        Some(TranslationKey::LabelVariants)
    } else if s.len() == 7 && s[0] == 'G' {
        Some(TranslationKey::LabelSizes)
    } else if s.len() == 8 && s[0] == 'Z' {
        Some(TranslationKey::LabelStates)
    } else if s.len() == 8 && s[1] == 'c' {
        Some(TranslationKey::LabelToggles)
    } else if s.len() == 16 && s[0] == 'K' {
        Some(TranslationKey::LabelCheckboxes)
    } else if s.len() == 13 && s[3] == 'i' {
        Some(TranslationKey::LabelSlider)
    } else if s.len() == 7 && s[0] == 'E' {
        Some(TranslationKey::LabelInput)
    } else if s.len() == 5 && s[0] == 'K' {
        Some(TranslationKey::LabelSmall)
    } else if s.len() == 6 && s[0] == 'M' {
        Some(TranslationKey::LabelMedium)
    } else if s.len() == 5 && s[1] == 'r' {
        Some(TranslationKey::LabelLarge)
    } else if s.len() == 11 && s[0] == 'D' {
        Some(TranslationKey::LabelDisabled)
    } else if s.len() == 10 && s[0] == 'A' {
        Some(TranslationKey::LabelSelected)
    } else if s.len() == 6 && s[0] == 'P' {
        Some(TranslationKey::ButtonPrimary)
    } else if s.len() == 8 && s[1] == 'e' {
        Some(TranslationKey::ButtonSecondary)
    } else if s.len() == 10 && s[0] == 'D' {
        Some(TranslationKey::ButtonDestructive)
    } else if s.len() == 5 && s[2] == 'i' {
        Some(TranslationKey::ButtonGhost)
    } else if s.len() == 6 && s[0] == 'U' {
        Some(TranslationKey::ButtonOutline)
    } else if s.len() == 9 && s[2] == 'b' {
        Some(TranslationKey::ButtonCancel)
    } else if s.len() == 9 && s[0] == 'S' {
        Some(TranslationKey::ButtonSave)
    } else if s.len() == 10 && s[5] == 't' {
        Some(TranslationKey::ButtonConfirm)
    } else if s.len() == 17 && s[0] == 'A' {
        Some(TranslationKey::DialogConfirmTitle)
    } else if s.len() == 96 {
        Some(TranslationKey::DialogConfirmMessage)
    } else if s.len() == 11 && s[0] == 'I' {
        Some(TranslationKey::AlertInfo)
    } else if s.len() == 6 && s[0] == 'E' {
        Some(TranslationKey::AlertSuccess)
    } else if s.len() == 7 && s[0] == 'W' {
        Some(TranslationKey::AlertWarning)
    } else if s.len() == 6 && s[0] == 'F' {
        Some(TranslationKey::AlertError)
    } else if s.len() == 34 {
        Some(TranslationKey::AlertInfoMessage)
    } else if s.len() == 47 {
        Some(TranslationKey::AlertSuccessMessage)
    } else if s.len() == 62 && s[1] == 'i' {
        Some(TranslationKey::AlertWarningMessage)
    } else if s.len() == 62 && s[1] == 'e' {
        Some(TranslationKey::AlertErrorMessage)
    } else if s.len() == 14 && s[0] == 'E' {
        Some(TranslationKey::AccordionGettingStarted)
    } else if s.len() == 10 && s[0] == 'F' {
        Some(TranslationKey::AccordionFeatures)
    } else if s.len() == 13 && s[0] == 'K' {
        Some(TranslationKey::AccordionConfiguration)
    } else {
        None
    }
}

/// Each German text leads back to its key.
proof fn lemma_german_key_of(key: TranslationKey)
    ensures
        german_key_of(german(key)) == Some(key),
{
    match key {
        TranslationKey::AppTitle => {
            reveal_strlit("GPUI UI Kit Showcase");
            assert("GPUI UI Kit Showcase"@.len() == 20);
        },
        TranslationKey::AppSubtitle => {
            reveal_strlit("Eine umfassende Bibliothek wiederverwendbarer UI-Komponenten fur GPUI-Anwendungen.");
            assert("Eine umfassende Bibliothek wiederverwendbarer UI-Komponenten fur GPUI-Anwendungen."@.len() == 82);
        },
        TranslationKey::MenuFile => {
            reveal_strlit("Datei");
            assert("Datei"@.len() == 5);
        },
        TranslationKey::MenuEdit => {
            reveal_strlit("Bearbeiten");
            assert("Bearbeiten"@.len() == 10);
        },
        TranslationKey::MenuView => {
            reveal_strlit("Ansicht");
            assert("Ansicht"@.len() == 7);
        },
        TranslationKey::MenuHelp => {
            reveal_strlit("Hilfe");
            assert("Hilfe"@.len() == 5);
        },
        TranslationKey::MenuQuit => {
            reveal_strlit("Beenden");
            assert("Beenden"@.len() == 7);
        },
        TranslationKey::MenuTheme => {
            reveal_strlit("Thema");
            assert("Thema"@.len() == 5);
        },
        TranslationKey::MenuLanguage => {
            reveal_strlit("Sprache");
            assert("Sprache"@.len() == 7);
        },
        TranslationKey::MenuSettings => {
            reveal_strlit("Einstellungen");
            assert("Einstellungen"@.len() == 13);
        },
        TranslationKey::ThemeDark => {
            reveal_strlit("Dunkel");
            assert("Dunkel"@.len() == 6);
        },
        TranslationKey::ThemeLight => {
            reveal_strlit("Hell");
            assert("Hell"@.len() == 4);
        },
        TranslationKey::SectionButtons => {
            reveal_strlit("Schaltflachen");
            assert("Schaltflachen"@.len() == 13);
        },
        TranslationKey::SectionTypography => {
            reveal_strlit("Typografie");
            assert("Typografie"@.len() == 10);
        },
        TranslationKey::SectionBadges => {
            reveal_strlit("Abzeichen");
            assert("Abzeichen"@.len() == 9);
        },
        TranslationKey::SectionAvatars => {
            reveal_strlit("Avatare");
            assert("Avatare"@.len() == 7);
        },
        TranslationKey::SectionFormControls => {
            reveal_strlit("Formularsteuerung");
            assert("Formularsteuerung"@.len() == 17);
        },
        TranslationKey::SectionProgress => {
            reveal_strlit("Fortschrittsanzeigen");
            assert("Fortschrittsanzeigen"@.len() == 20);
        },
        TranslationKey::SectionAlerts => {
            reveal_strlit("Warnungen");
            assert("Warnungen"@.len() == 9);
        },
        TranslationKey::SectionTabs => {
            reveal_strlit("Registerkarten");
            assert("Registerkarten"@.len() == 14);
        },
        TranslationKey::SectionCards => {
            reveal_strlit("Karten");
            assert("Karten"@.len() == 6);
        },
        TranslationKey::SectionBreadcrumbs => {
            reveal_strlit("Brotkrumen");
            assert("Brotkrumen"@.len() == 10);
        },
        TranslationKey::SectionSpinners => {
            reveal_strlit("Ladeanzeigen");
            assert("Ladeanzeigen"@.len() == 12);
        },
        TranslationKey::SectionLayout => {
            reveal_strlit("Layout-Komponenten");
            assert("Layout-Komponenten"@.len() == 18);
        },
        TranslationKey::SectionIconButtons => {
            reveal_strlit("Symbol-Schaltflachen");
            assert("Symbol-Schaltflachen"@.len() == 20);
        },
        TranslationKey::SectionToasts => {
            reveal_strlit("Benachrichtigungen");
            assert("Benachrichtigungen"@.len() == 18);
        },
        TranslationKey::SectionDialogs => {
            reveal_strlit("Dialoge");
            assert("Dialoge"@.len() == 7);
        },
        TranslationKey::SectionMenus => {
            reveal_strlit("Menus");
            assert("Menus"@.len() == 5);
        },
        TranslationKey::SectionTooltips => {
            reveal_strlit("Tooltips");
            assert("Tooltips"@.len() == 8);
        },
        TranslationKey::SectionPotentiometers => {
            reveal_strlit("Potentiometer");
            assert("Potentiometer"@.len() == 13);
        },
        TranslationKey::SectionAccordion => {
            reveal_strlit("Akkordeon");
            assert("Akkordeon"@.len() == 9);
        },
        TranslationKey::SectionQrCode => {
            reveal_strlit("QR-Code");
            assert("QR-Code"@.len() == 7);
        },
        TranslationKey::SectionContextMenu => {
            reveal_strlit("Kontextmenu");
            assert("Kontextmenu"@.len() == 11);
        },
        TranslationKey::SectionPopover => {
            reveal_strlit("Popover");
            assert("Popover"@.len() == 7);
        },
        TranslationKey::SectionSidebar => {
            reveal_strlit("Seitenleiste");
            assert("Seitenleiste"@.len() == 12);
        },
        TranslationKey::SectionStatusBar => {
            reveal_strlit("Statusleiste");
            assert("Statusleiste"@.len() == 12);
        },
        TranslationKey::SectionSearchBar => {
            reveal_strlit("Suchleiste");
            assert("Suchleiste"@.len() == 10);
        },
        TranslationKey::SectionKeyboardShortcut => {
            reveal_strlit("Tastenkurzel");
            assert("Tastenkurzel"@.len() == 12);
        },
        TranslationKey::SectionEmptyState => {
            reveal_strlit("Leerer Zustand");
            assert("Leerer Zustand"@.len() == 14);
        },
        TranslationKey::SectionConfirmDialog => {
            reveal_strlit("Bestatigungsdialog");
            assert("Bestatigungsdialog"@.len() == 18);
        },
        TranslationKey::SectionSplitPane => {
            reveal_strlit("Geteiltes Fenster");
            assert("Geteiltes Fenster"@.len() == 17);
        },
        TranslationKey::SectionImageView => {
            reveal_strlit("Bildansicht");
            assert("Bildansicht"@.len() == 11);
        },
        TranslationKey::SectionSettingsForm => {
            reveal_strlit("Einstellungsformular");
            assert("Einstellungsformular"@.len() == 20);
        },
        TranslationKey::SectionStepIndicator => {
            reveal_strlit("Schrittanzeige");
            assert("Schrittanzeige"@.len() == 14);
        },
        TranslationKey::SectionLoadingOverlay => {
            reveal_strlit("Ladebildschirm");
            assert("Ladebildschirm"@.len() == 14);
        },
        TranslationKey::SectionTag => {
            reveal_strlit("Schlagwort");
            assert("Schlagwort"@.len() == 10);
        },
        TranslationKey::SectionToolbar => {
            reveal_strlit("Symbolleiste");
            assert("Symbolleiste"@.len() == 12);
        },
        TranslationKey::SectionNotification => {
            reveal_strlit("Benachrichtigung");
            assert("Benachrichtigung"@.len() == 16);
        },
        TranslationKey::SectionTreeView => {
            reveal_strlit("Baumansicht");
            assert("Baumansicht"@.len() == 11);
        },
        TranslationKey::SectionDragList => {
            reveal_strlit("Zieh-Liste");
            assert("Zieh-Liste"@.len() == 10);
        },
        TranslationKey::SectionCommandPalette => {
            reveal_strlit("Befehlspalette");
            assert("Befehlspalette"@.len() == 14);
        },
        TranslationKey::LabelVariants => {
            reveal_strlit("Varianten");
            assert("Varianten"@.len() == 9);
        },
        TranslationKey::LabelSizes => {
            reveal_strlit("Grossen");
            assert("Grossen"@.len() == 7);
        },
        TranslationKey::LabelStates => {
            reveal_strlit("Zustande");
            assert("Zustande"@.len() == 8);
        },
        TranslationKey::LabelToggles => {
            reveal_strlit("Schalter");
            assert("Schalter"@.len() == 8);
        },
        TranslationKey::LabelCheckboxes => {
            reveal_strlit("Kontrollkastchen");
            assert("Kontrollkastchen"@.len() == 16);
        },
        TranslationKey::LabelSlider => {
            reveal_strlit("Schieberegler");
            assert("Schieberegler"@.len() == 13);
        },
        TranslationKey::LabelInput => {
            reveal_strlit("Eingabe");
            assert("Eingabe"@.len() == 7);
        },
        TranslationKey::LabelSmall => {
            reveal_strlit("Klein");
            assert("Klein"@.len() == 5);
        },
        TranslationKey::LabelMedium => {
            reveal_strlit("Mittel");
            assert("Mittel"@.len() == 6);
        },
        TranslationKey::LabelLarge => {
            reveal_strlit("Gross");
            assert("Gross"@.len() == 5);
        },
        TranslationKey::LabelDisabled => {
            reveal_strlit("Deaktiviert");
            assert("Deaktiviert"@.len() == 11);
        },
        TranslationKey::LabelSelected => {
            reveal_strlit("Ausgewahlt");
            assert("Ausgewahlt"@.len() == 10);
        },
        TranslationKey::ButtonPrimary => {
            reveal_strlit("Primar");
            assert("Primar"@.len() == 6);
        },
        TranslationKey::ButtonSecondary => {
            reveal_strlit("Sekundar");
            assert("Sekundar"@.len() == 8);
        },
        TranslationKey::ButtonDestructive => {
            reveal_strlit("Destruktiv");
            assert("Destruktiv"@.len() == 10);
        },
        TranslationKey::ButtonGhost => {
            reveal_strlit("Geist");
            assert("Geist"@.len() == 5);
        },
        TranslationKey::ButtonOutline => {
            reveal_strlit("Umriss");
            assert("Umriss"@.len() == 6);
        },
        TranslationKey::ButtonCancel => {
            reveal_strlit("Abbrechen");
            assert("Abbrechen"@.len() == 9);
        },
        TranslationKey::ButtonSave => {
            reveal_strlit("Speichern");
            assert("Speichern"@.len() == 9);
        },
        TranslationKey::ButtonConfirm => {
            reveal_strlit("Bestatigen");
            assert("Bestatigen"@.len() == 10);
        },
        TranslationKey::DialogConfirmTitle => {
            reveal_strlit("Aktion bestatigen");
            assert("Aktion bestatigen"@.len() == 17);
        },
        TranslationKey::DialogConfirmMessage => {
            reveal_strlit("Sind Sie sicher, dass Sie fortfahren mochten? Diese Aktion kann nicht ruckgangig gemacht werden.");
            assert("Sind Sie sicher, dass Sie fortfahren mochten? Diese Aktion kann nicht ruckgangig gemacht werden."@.len() == 96);
        },
        TranslationKey::AlertInfo => {
            reveal_strlit("Information");
            assert("Information"@.len() == 11);
        },
        TranslationKey::AlertSuccess => {
            reveal_strlit("Erfolg");
            assert("Erfolg"@.len() == 6);
        },
        TranslationKey::AlertWarning => {
            reveal_strlit("Warnung");
            assert("Warnung"@.len() == 7);
        },
        TranslationKey::AlertError => {
            reveal_strlit("Fehler");
            assert("Fehler"@.len() == 6);
        },
        TranslationKey::AlertInfoMessage => {
            reveal_strlit("Dies ist eine Informationsmeldung.");
            assert("Dies ist eine Informationsmeldung."@.len() == 34);
        },
        TranslationKey::AlertSuccessMessage => {
            reveal_strlit("Ihre Anderungen wurden erfolgreich gespeichert.");
            assert("Ihre Anderungen wurden erfolgreich gespeichert."@.len() == 47);
        },
        TranslationKey::AlertWarningMessage => {
            reveal_strlit("Bitte uberprufen Sie Ihre Einstellungen, bevor Sie fortfahren.");
            assert("Bitte uberprufen Sie Ihre Einstellungen, bevor Sie fortfahren."@.len() == 62);
        },
        TranslationKey::AlertErrorMessage => {
            reveal_strlit("Bei der Verarbeitung Ihrer Anfrage ist ein Fehler aufgetreten.");
            assert("Bei der Verarbeitung Ihrer Anfrage ist ein Fehler aufgetreten."@.len() == 62);
        },
        TranslationKey::AccordionGettingStarted => {
            reveal_strlit("Erste Schritte");
            assert("Erste Schritte"@.len() == 14);
        },
        TranslationKey::AccordionFeatures => {
            reveal_strlit("Funktionen");
            assert("Funktionen"@.len() == 10);
        },
        TranslationKey::AccordionConfiguration => {
            reveal_strlit("Konfiguration");
            assert("Konfiguration"@.len() == 13);
        },
    }
}

/// The key whose Spanish text is `s`, told apart from the other Spanish texts by
/// its length and a few of its characters.
spec fn spanish_key_of(s: Seq<char>) -> Option<TranslationKey> {
    if s.len() == 23 && s[0] == 'G' {
        Some(TranslationKey::AppTitle)
    } else if s.len() == 79 {
        Some(TranslationKey::AppSubtitle)
    } else if s.len() == 7 && s[1] == 'r' {
        Some(TranslationKey::MenuFile)
    } else if s.len() == 6 && s[0] == 'E' {
        Some(TranslationKey::MenuEdit)
    } else if s.len() == 3 {
        Some(TranslationKey::MenuView)
    } else if s.len() == 5 && s[0] == 'A' {
        Some(TranslationKey::MenuHelp)
    } else if s.len() == 5 && s[0] == 'S' {
        Some(TranslationKey::MenuQuit)
    } else if s.len() == 4 {
        Some(TranslationKey::MenuTheme)
    } else if s.len() == 6 && s[0] == 'I' {
        Some(TranslationKey::MenuLanguage)
    } else if s.len() == 13 && s[0] == 'C' {
        Some(TranslationKey::MenuSettings)
    } else if s.len() == 6 && s[0] == 'O' {
        Some(TranslationKey::ThemeDark)
    } else if s.len() == 5 && s[0] == 'C' {
        Some(TranslationKey::ThemeLight)
    } else if s.len() == 7 && s[0] == 'B' {
        Some(TranslationKey::SectionButtons)
    } else if s.len() == 10 && s[0] == 'T' {
        Some(TranslationKey::SectionTypography)
    } else if s.len() == 9 && s[0] == 'I' {
        Some(TranslationKey::SectionBadges)
    } else if s.len() == 8 && s[1] == 'v' {
        Some(TranslationKey::SectionAvatars)
    } else if s.len() == 23 && s[0] == 'C' {
        Some(TranslationKey::SectionFormControls)
    } else if s.len() == 23 && s[0] == 'I' {
        Some(TranslationKey::SectionProgress)
    } else if s.len() == 7 && s[1] == 'l' {
        Some(TranslationKey::SectionAlerts)
    } else if s.len() == 8 && s[1] == 'e' {
        Some(TranslationKey::SectionTabs)
    } else if s.len() == 8 && s[0] == 'T' {
        Some(TranslationKey::SectionCards)
    } else if s.len() == 12 && s[0] == 'M' {
        Some(TranslationKey::SectionBreadcrumbs)
    } else if s.len() == 20 {
        Some(TranslationKey::SectionSpinners)
    } else if s.len() == 21 && s[0] == 'C' {
        Some(TranslationKey::SectionLayout)
    } else if s.len() == 16 && s[0] == 'B' {
        Some(TranslationKey::SectionIconButtons)
    } else if s.len() == 14 && s[0] == 'N' {
        Some(TranslationKey::SectionToasts)
    } else if s.len() == 8 && s[0] == 'D' {
        Some(TranslationKey::SectionDialogs)
    } else if s.len() == 5 && s[0] == 'M' {
        Some(TranslationKey::SectionMenus)
    } else if s.len() == 11 && s[0] == 'S' {
        Some(TranslationKey::SectionTooltips)
    } else if s.len() == 14 && s[4] == 'n' {
        Some(TranslationKey::SectionPotentiometers)
    } else if s.len() == 8 && s[1] == 'c' {
        Some(TranslationKey::SectionAccordion)
    } else if s.len() == 9 && s[2] == 'd' {
        Some(TranslationKey::SectionQrCode)
    } else if s.len() == 15 && s[0] == 'M' {
        Some(TranslationKey::SectionContextMenu)
    } else if s.len() == 7 && s[2] == 'p' {
        Some(TranslationKey::SectionPopover)
    } else if s.len() == 13 && s[0] == 'B' {
        Some(TranslationKey::SectionSidebar)
    } else if s.len() == 15 && s[0] == 'B' {
        Some(TranslationKey::SectionStatusBar)
    } else if s.len() == 17 && s[0] == 'B' {
        Some(TranslationKey::SectionSearchBar)
    } else if s.len() == 17 && s[0] == 'A' {
        Some(TranslationKey::SectionKeyboardShortcut)
    } else if s.len() == 12 && s[0] == 'E' {
        Some(TranslationKey::SectionEmptyState)
    } else if s.len() == 23 && s[0] == 'D' {
        Some(TranslationKey::SectionConfirmDialog)
    } else if s.len() == 14 && s[1] == 'a' {
        Some(TranslationKey::SectionSplitPane)
    } else if s.len() == 15 && s[0] == 'V' {
        Some(TranslationKey::SectionImageView)
    } else if s.len() == 21 && s[0] == 'F' {
        Some(TranslationKey::SectionSettingsForm)
    } else if s.len() == 18 && s[0] == 'I' {
        Some(TranslationKey::SectionStepIndicator)
    } else if s.len() == 17 && s[0] == 'P' {
        Some(TranslationKey::SectionLoadingOverlay)
    } else if s.len() == 8 && s[0] == 'E' {
        Some(TranslationKey::SectionTag)
    } else if s.len() == 21 && s[0] == 'B' {
        Some(TranslationKey::SectionToolbar)
    } else if s.len() == 12 && s[0] == 'N' {
        Some(TranslationKey::SectionNotification)
    } else if s.len() == 14 && s[0] == 'V' {
        Some(TranslationKey::SectionTreeView)
    } else if s.len() == 17 && s[0] == 'L' {
        Some(TranslationKey::SectionDragList)
    } else if s.len() == 18 && s[0] == 'P' {
        Some(TranslationKey::SectionCommandPalette)
    } else if s.len() == 9 && s[0] == 'V' {
        Some(TranslationKey::LabelVariants)
    } else if s.len() == 7 && s[0] == 'T' {
        Some(TranslationKey::LabelSizes)
    } else if s.len() == 7 && s[1] == 's' {
        Some(TranslationKey::LabelStates)
    } else if s.len() == 13 && s[0] == 'I' {
        Some(TranslationKey::LabelToggles)
    } else if s.len() == 8 && s[3] == 'i' {
        Some(TranslationKey::LabelCheckboxes)
    } else if s.len() == 10 && s[0] == 'D' {
        Some(TranslationKey::LabelSlider)
    } else if s.len() == 7 && s[1] == 'n' {
        Some(TranslationKey::LabelInput)
    } else if s.len() == 7 && s[2] == 'q' {
        Some(TranslationKey::LabelSmall)
    } else if s.len() == 7 && s[0] == 'M' {
        Some(TranslationKey::LabelMedium)
    } else if s.len() == 6 && s[0] == 'G' {
        Some(TranslationKey::LabelLarge)
    } else if s.len() == 11 && s[3] == 'a' {
        Some(TranslationKey::LabelDisabled)
    } else if s.len() == 12 && s[0] == 'S' {
        Some(TranslationKey::LabelSelected)
    } else if s.len() == 8 && s[1] == 'r' {
        Some(TranslationKey::ButtonPrimary)
    } else if s.len() == 10 && s[0] == 'S' {
        Some(TranslationKey::ButtonSecondary)
    } else if s.len() == 11 && s[3] == 't' {
        Some(TranslationKey::ButtonDestructive)
    } else if s.len() == 8 && s[0] == 'F' {
        Some(TranslationKey::ButtonGhost)
    } else if s.len() == 8 && s[1] == 'o' {
        Some(TranslationKey::ButtonOutline)
    } else if s.len() == 8 && s[3] == 'c' {
        Some(TranslationKey::ButtonCancel)
    } else if s.len() == 7 && s[0] == 'G' {
        Some(TranslationKey::ButtonSave)
    } else if s.len() == 9 && s[2] == 'n' {
        Some(TranslationKey::ButtonConfirm)
    } else if s.len() == 16 && s[0] == 'C' {
        Some(TranslationKey::DialogConfirmTitle)
    } else if s.len() == 69 {
        Some(TranslationKey::DialogConfirmMessage)
    } else if s.len() == 11 && s[0] == 'I' {
        Some(TranslationKey::AlertInfo)
    } else if s.len() == 5 && s[1] == 'x' {
        Some(TranslationKey::AlertSuccess)
    } else if s.len() == 11 && s[0] == 'A' {
        Some(TranslationKey::AlertWarning)
    } else if s.len() == 5 && s[1] == 'r' {
        Some(TranslationKey::AlertError)
    } else if s.len() == 31 {
        Some(TranslationKey::AlertInfoMessage)
    } else if s.len() == 42 {
        Some(TranslationKey::AlertSuccessMessage)
    } else if s.len() == 53 {
        Some(TranslationKey::AlertWarningMessage)
    } else if s.len() == 45 {
        Some(TranslationKey::AlertErrorMessage)
    } else if s.len() == 14 && s[1] == 'r' {
        Some(TranslationKey::AccordionGettingStarted)
    } else if s.len() == 15 && s[0] == 'C' {
        Some(TranslationKey::AccordionFeatures)
    } else {
        None
    }
}

/// Each Spanish text leads back to its key (the one text shared by two keys, to the first of them).
proof fn lemma_spanish_key_of(key: TranslationKey)
    ensures
        spanish_key_of(spanish(key)) == Some(if key == TranslationKey::AccordionConfiguration { TranslationKey::MenuSettings } else { key }),
{
    match key {
        TranslationKey::AppTitle => {
            reveal_strlit("Galeria del UI Kit GPUI");
            assert("Galeria del UI Kit GPUI"@.len() == 23);
        },
        TranslationKey::AppSubtitle => {
            reveal_strlit("Una biblioteca completa de componentes UI reutilizables para aplicaciones GPUI.");
            assert("Una biblioteca completa de componentes UI reutilizables para aplicaciones GPUI."@.len() == 79);
        },
        TranslationKey::MenuFile => {
            reveal_strlit("Archivo");
            assert("Archivo"@.len() == 7);
        },
        TranslationKey::MenuEdit => {
            reveal_strlit("Editar");
            assert("Editar"@.len() == 6);
        },
        TranslationKey::MenuView => {
            reveal_strlit("Ver");
            assert("Ver"@.len() == 3);
        },
        TranslationKey::MenuHelp => {
            reveal_strlit("Ayuda");
            assert("Ayuda"@.len() == 5);
        },
        TranslationKey::MenuQuit => {
            reveal_strlit("Salir");
            assert("Salir"@.len() == 5);
        },
        TranslationKey::MenuTheme => {
            reveal_strlit("Tema");
            assert("Tema"@.len() == 4);
        },
        TranslationKey::MenuLanguage => {
            reveal_strlit("Idioma");
            assert("Idioma"@.len() == 6);
        },
        TranslationKey::MenuSettings => {
            reveal_strlit("Configuracion");
            assert("Configuracion"@.len() == 13);
        },
        TranslationKey::ThemeDark => {
            reveal_strlit("Oscuro");
            assert("Oscuro"@.len() == 6);
        },
        TranslationKey::ThemeLight => {
            reveal_strlit("Claro");
            assert("Claro"@.len() == 5);
        },
        TranslationKey::SectionButtons => {
            reveal_strlit("Botones");
            assert("Botones"@.len() == 7);
        },
        TranslationKey::SectionTypography => {
            reveal_strlit("Tipografia");
            assert("Tipografia"@.len() == 10);
        },
        TranslationKey::SectionBadges => {
            reveal_strlit("Insignias");
            assert("Insignias"@.len() == 9);
        },
        TranslationKey::SectionAvatars => {
            reveal_strlit("Avatares");
            assert("Avatares"@.len() == 8);
        },
        TranslationKey::SectionFormControls => {
            reveal_strlit("Controles de formulario");
            assert("Controles de formulario"@.len() == 23);
        },
        TranslationKey::SectionProgress => {
            reveal_strlit("Indicadores de progreso");
            assert("Indicadores de progreso"@.len() == 23);
        },
        TranslationKey::SectionAlerts => {
            reveal_strlit("Alertas");
            assert("Alertas"@.len() == 7);
        },
        TranslationKey::SectionTabs => {
            reveal_strlit("Pestanas");
            assert("Pestanas"@.len() == 8);
        },
        TranslationKey::SectionCards => {
            reveal_strlit("Tarjetas");
            assert("Tarjetas"@.len() == 8);
        },
        TranslationKey::SectionBreadcrumbs => {
            reveal_strlit("Migas de pan");
            assert("Migas de pan"@.len() == 12);
        },
        TranslationKey::SectionSpinners => {
            reveal_strlit("Indicadores de carga");
            assert("Indicadores de carga"@.len() == 20);
        },
        TranslationKey::SectionLayout => {
            reveal_strlit("Componentes de diseno");
            assert("Componentes de diseno"@.len() == 21);
        },
        TranslationKey::SectionIconButtons => {
            reveal_strlit("Botones de icono");
            assert("Botones de icono"@.len() == 16);
        },
        TranslationKey::SectionToasts => {
            reveal_strlit("Notificaciones");
            assert("Notificaciones"@.len() == 14);
        },
        TranslationKey::SectionDialogs => {
            reveal_strlit("Dialogos");
            assert("Dialogos"@.len() == 8);
        },
        TranslationKey::SectionMenus => {
            reveal_strlit("Menus");
            assert("Menus"@.len() == 5);
        },
        TranslationKey::SectionTooltips => {
            reveal_strlit("Sugerencias");
            assert("Sugerencias"@.len() == 11);
        },
        TranslationKey::SectionPotentiometers => {
            reveal_strlit("Potenciometros");
            assert("Potenciometros"@.len() == 14);
        },
        TranslationKey::SectionAccordion => {
            reveal_strlit("Acordeon");
            assert("Acordeon"@.len() == 8);
        },
        TranslationKey::SectionQrCode => {
            reveal_strlit("Codigo QR");
            assert("Codigo QR"@.len() == 9);
        },
        TranslationKey::SectionContextMenu => {
            reveal_strlit("Menu contextual");
            assert("Menu contextual"@.len() == 15);
        },
        TranslationKey::SectionPopover => {
            reveal_strlit("Popover");
            assert("Popover"@.len() == 7);
        },
        TranslationKey::SectionSidebar => {
            reveal_strlit("Barra lateral");
            assert("Barra lateral"@.len() == 13);
        },
        TranslationKey::SectionStatusBar => {
            reveal_strlit("Barra de estado");
            assert("Barra de estado"@.len() == 15);
        },
        TranslationKey::SectionSearchBar => {
            reveal_strlit("Barra de busqueda");
            assert("Barra de busqueda"@.len() == 17);
        },
        TranslationKey::SectionKeyboardShortcut => {
            reveal_strlit("Atajos de teclado");
            assert("Atajos de teclado"@.len() == 17);
        },
        TranslationKey::SectionEmptyState => {
            reveal_strlit("Estado vacio");
            assert("Estado vacio"@.len() == 12);
        },
        TranslationKey::SectionConfirmDialog => {
            reveal_strlit("Dialogo de confirmacion");
            assert("Dialogo de confirmacion"@.len() == 23);
        },
        TranslationKey::SectionSplitPane => {
            reveal_strlit("Panel dividido");
            assert("Panel dividido"@.len() == 14);
        },
        TranslationKey::SectionImageView => {
            reveal_strlit("Vista de imagen");
            assert("Vista de imagen"@.len() == 15);
        },
        TranslationKey::SectionSettingsForm => {
            reveal_strlit("Formulario de ajustes");
            assert("Formulario de ajustes"@.len() == 21);
        },
        TranslationKey::SectionStepIndicator => {
            reveal_strlit("Indicador de pasos");
            assert("Indicador de pasos"@.len() == 18);
        },
        TranslationKey::SectionLoadingOverlay => {
            reveal_strlit("Pantalla de carga");
            assert("Pantalla de carga"@.len() == 17);
        },
        TranslationKey::SectionTag => {
            reveal_strlit("Etiqueta");
            assert("Etiqueta"@.len() == 8);
        },
        TranslationKey::SectionToolbar => {
            reveal_strlit("Barra de herramientas");
            assert("Barra de herramientas"@.len() == 21);
        },
        TranslationKey::SectionNotification => {
            reveal_strlit("Notificacion");
            assert("Notificacion"@.len() == 12);
        },
        TranslationKey::SectionTreeView => {
            reveal_strlit("Vista de arbol");
            assert("Vista de arbol"@.len() == 14);
        },
        TranslationKey::SectionDragList => {
            reveal_strlit("Lista arrastrable");
            assert("Lista arrastrable"@.len() == 17);
        },
        TranslationKey::SectionCommandPalette => {
            reveal_strlit("Paleta de comandos");
            assert("Paleta de comandos"@.len() == 18);
        },
        TranslationKey::LabelVariants => {
            reveal_strlit("Variantes");
            assert("Variantes"@.len() == 9);
        },
        TranslationKey::LabelSizes => {
            reveal_strlit("Tamanos");
            assert("Tamanos"@.len() == 7);
        },
        TranslationKey::LabelStates => {
            reveal_strlit("Estados");
            assert("Estados"@.len() == 7);
        },
        TranslationKey::LabelToggles => {
            reveal_strlit("Interruptores");
            assert("Interruptores"@.len() == 13);
        },
        TranslationKey::LabelCheckboxes => {
            reveal_strlit("Casillas");
            assert("Casillas"@.len() == 8);
        },
        TranslationKey::LabelSlider => {
            reveal_strlit("Deslizador");
            assert("Deslizador"@.len() == 10);
        },
        TranslationKey::LabelInput => {
            reveal_strlit("Entrada");
            assert("Entrada"@.len() == 7);
        },
        TranslationKey::LabelSmall => {
            reveal_strlit("Pequeno");
            assert("Pequeno"@.len() == 7);
        },
        TranslationKey::LabelMedium => {
            reveal_strlit("Mediano");
            assert("Mediano"@.len() == 7);
        },
        TranslationKey::LabelLarge => {
            reveal_strlit("Grande");
            assert("Grande"@.len() == 6);
        },
        TranslationKey::LabelDisabled => {
            reveal_strlit("Desactivado");
            assert("Desactivado"@.len() == 11);
        },
        TranslationKey::LabelSelected => {
            reveal_strlit("Seleccionado");
            assert("Seleccionado"@.len() == 12);
        },
        TranslationKey::ButtonPrimary => {
            reveal_strlit("Primario");
            assert("Primario"@.len() == 8);
        },
        TranslationKey::ButtonSecondary => {
            reveal_strlit("Secundario");
            assert("Secundario"@.len() == 10);
        },
        TranslationKey::ButtonDestructive => {
            reveal_strlit("Destructivo");
            assert("Destructivo"@.len() == 11);
        },
        TranslationKey::ButtonGhost => {
            reveal_strlit("Fantasma");
            assert("Fantasma"@.len() == 8);
        },
        TranslationKey::ButtonOutline => {
            reveal_strlit("Contorno");
            assert("Contorno"@.len() == 8);
        },
        TranslationKey::ButtonCancel => {
            reveal_strlit("Cancelar");
            assert("Cancelar"@.len() == 8);
        },
        TranslationKey::ButtonSave => {
            reveal_strlit("Guardar");
            assert("Guardar"@.len() == 7);
        },
        TranslationKey::ButtonConfirm => {
            reveal_strlit("Confirmar");
            assert("Confirmar"@.len() == 9);
        },
        TranslationKey::DialogConfirmTitle => {
            reveal_strlit("Confirmar accion");
            assert("Confirmar accion"@.len() == 16);
        },
        TranslationKey::DialogConfirmMessage => {
            reveal_strlit("Esta seguro de que desea continuar? Esta accion no se puede deshacer.");
            assert("Esta seguro de que desea continuar? Esta accion no se puede deshacer."@.len() == 69);
        },
        TranslationKey::AlertInfo => {
            reveal_strlit("Informacion");
            assert("Informacion"@.len() == 11);
        },
        TranslationKey::AlertSuccess => {
            reveal_strlit("Exito");
            assert("Exito"@.len() == 5);
        },
        TranslationKey::AlertWarning => {
            reveal_strlit("Advertencia");
            assert("Advertencia"@.len() == 11);
        },
        TranslationKey::AlertError => {
            reveal_strlit("Error");
            assert("Error"@.len() == 5);
        },
        TranslationKey::AlertInfoMessage => {
            reveal_strlit("Este es un mensaje informativo.");
            assert("Este es un mensaje informativo."@.len() == 31);
        },
        TranslationKey::AlertSuccessMessage => {
            reveal_strlit("Sus cambios se han guardado correctamente.");
            assert("Sus cambios se han guardado correctamente."@.len() == 42);
        },
        TranslationKey::AlertWarningMessage => {
            reveal_strlit("Por favor revise su configuracion antes de continuar.");
            assert("Por favor revise su configuracion antes de continuar."@.len() == 53);
        },
        TranslationKey::AlertErrorMessage => {
            reveal_strlit("Se produjo un error al procesar su solicitud.");
            assert("Se produjo un error al procesar su solicitud."@.len() == 45);
        },
        TranslationKey::AccordionGettingStarted => {
            reveal_strlit("Primeros pasos");
            assert("Primeros pasos"@.len() == 14);
        },
        TranslationKey::AccordionFeatures => {
            reveal_strlit("Caracteristicas");
            assert("Caracteristicas"@.len() == 15);
        },
        TranslationKey::AccordionConfiguration => {
            reveal_strlit("Configuracion");
            assert("Configuracion"@.len() == 13);
        },
    }
}

/// The key whose Japanese text is `s`, told apart from the other Japanese texts by
/// its length and a few of its characters.
spec fn japanese_key_of(s: Seq<char>) -> Option<TranslationKey> {
    if s.len() == 20 {
        Some(TranslationKey::AppTitle)
    } else if s.len() == 40 {
        Some(TranslationKey::AppSubtitle)
    } else if s.len() == 4 && s[0] == '\u{30d5}' {
        Some(TranslationKey::MenuFile)
    } else if s.len() == 2 && s[0] == '\u{7de8}' {
        Some(TranslationKey::MenuEdit)
    } else if s.len() == 2 && s[0] == '\u{8868}' {
        Some(TranslationKey::MenuView)
    } else if s.len() == 3 && s[0] == '\u{30d8}' {
        Some(TranslationKey::MenuHelp)
    } else if s.len() == 2 && s[0] == '\u{7d42}' {
        Some(TranslationKey::MenuQuit)
    } else if s.len() == 3 && s[0] == '\u{30c6}' {
        Some(TranslationKey::MenuTheme)
    } else if s.len() == 2 && s[0] == '\u{8a00}' {
        Some(TranslationKey::MenuLanguage)
    } else if s.len() == 2 && s[0] == '\u{8a2d}' {
        Some(TranslationKey::MenuSettings)
    } else if s.len() == 3 && s[0] == '\u{30c0}' {
        Some(TranslationKey::ThemeDark)
    } else if s.len() == 3 && s[0] == '\u{30e9}' {
        Some(TranslationKey::ThemeLight)
    } else if s.len() == 3 && s[0] == '\u{30dc}' {
        Some(TranslationKey::SectionButtons)
    } else if s.len() == 7 && s[0] == '\u{30bf}' {
        Some(TranslationKey::SectionTypography)
    } else if s.len() == 3 && s[0] == '\u{30d0}' {
        Some(TranslationKey::SectionBadges)
    } else if s.len() == 4 && s[1] == '\u{30d0}' {
        Some(TranslationKey::SectionAvatars)
    } else if s.len() == 10 && s[0] == '\u{30d5}' {
        Some(TranslationKey::SectionFormControls)
    } else if s.len() == 9 && s[0] == '\u{9032}' {
        Some(TranslationKey::SectionProgress)
    } else if s.len() == 4 && s[1] == '\u{30e9}' {
        Some(TranslationKey::SectionAlerts)
    } else if s.len() == 2 && s[1] == '\u{30d6}' {
        Some(TranslationKey::SectionTabs)
    } else if s.len() == 3 && s[0] == '\u{30ab}' {
        Some(TranslationKey::SectionCards)
    } else if s.len() == 7 && s[0] == '\u{30d1}' {
        Some(TranslationKey::SectionBreadcrumbs)
    } else if s.len() == 11 && s[0] == '\u{8aad}' {
        Some(TranslationKey::SectionSpinners)
    } else if s.len() == 12 && s[0] == '\u{30ec}' {
        Some(TranslationKey::SectionLayout)
    } else if s.len() == 7 && s[2] == '\u{30b3}' {
        Some(TranslationKey::SectionIconButtons)
    } else if s.len() == 4 && s[0] == '\u{30c8}' {
        Some(TranslationKey::SectionToasts)
    } else if s.len() == 5 && s[0] == '\u{30c0}' {
        Some(TranslationKey::SectionDialogs)
    } else if s.len() == 4 && s[0] == '\u{30e1}' {
        Some(TranslationKey::SectionMenus)
    } else if s.len() == 6 && s[1] == '\u{30fc}' {
        Some(TranslationKey::SectionTooltips)
    } else if s.len() == 9 && s[0] == '\u{30dd}' {
        Some(TranslationKey::SectionPotentiometers)
    } else if s.len() == 7 && s[1] == '\u{30b3}' {
        Some(TranslationKey::SectionAccordion)
    } else if s.len() == 5 && s[0] == 'Q' {
        Some(TranslationKey::SectionQrCode)
    } else if s.len() == 10 && s[0] == '\u{30b3}' {
        Some(TranslationKey::SectionContextMenu)
    } else if s.len() == 7 && s[0] == '\u{30dd}' {
        Some(TranslationKey::SectionPopover)
    } else if s.len() == 5 && s[0] == '\u{30b5}' {
        Some(TranslationKey::SectionSidebar)
    } else if s.len() == 7 && s[0] == '\u{30b9}' {
        Some(TranslationKey::SectionStatusBar)
    } else if s.len() == 4 && s[0] == '\u{691c}' {
        Some(TranslationKey::SectionSearchBar)
    } else if s.len() == 12 && s[0] == '\u{30ad}' {
        Some(TranslationKey::SectionKeyboardShortcut)
    } else if s.len() == 4 && s[0] == '\u{7a7a}' {
        Some(TranslationKey::SectionEmptyState)
    } else if s.len() == 7 && s[0] == '\u{78ba}' {
        Some(TranslationKey::SectionConfirmDialog)
    } else if s.len() == 5 && s[0] == '\u{5206}' {
        Some(TranslationKey::SectionSplitPane)
    } else if s.len() == 5 && s[0] == '\u{753b}' {
        Some(TranslationKey::SectionImageView)
    } else if s.len() == 6 && s[0] == '\u{8a2d}' {
        Some(TranslationKey::SectionSettingsForm)
    } else if s.len() == 11 && s[0] == '\u{30b9}' {
        Some(TranslationKey::SectionStepIndicator)
    } else if s.len() == 12 && s[0] == '\u{30ed}' {
        Some(TranslationKey::SectionLoadingOverlay)
    } else if s.len() == 2 && s[1] == '\u{30b0}' {
        Some(TranslationKey::SectionTag)
    } else if s.len() == 5 && s[0] == '\u{30c4}' {
        Some(TranslationKey::SectionToolbar)
    } else if s.len() == 2 && s[0] == '\u{901a}' {
        Some(TranslationKey::SectionNotification)
    } else if s.len() == 6 && s[1] == '\u{30ea}' {
        Some(TranslationKey::SectionTreeView)
    } else if s.len() == 7 && s[0] == '\u{30c9}' {
        Some(TranslationKey::SectionDragList)
    } else if s.len() == 8 && s[0] == '\u{30b3}' {
        Some(TranslationKey::SectionCommandPalette)
    } else if s.len() == 7 && s[0] == '\u{30d0}' {
        Some(TranslationKey::LabelVariants)
    } else if s.len() == 3 && s[0] == '\u{30b5}' {
        Some(TranslationKey::LabelSizes)
    } else if s.len() == 2 && s[0] == '\u{72b6}' {
        Some(TranslationKey::LabelStates)
    } else if s.len() == 3 && s[0] == '\u{30c8}' {
        Some(TranslationKey::LabelToggles)
    } else if s.len() == 8 && s[0] == '\u{30c1}' {
        Some(TranslationKey::LabelCheckboxes)
    } else if s.len() == 5 && s[0] == '\u{30b9}' {
        Some(TranslationKey::LabelSlider)
    } else if s.len() == 2 && s[0] == '\u{5165}' {
        Some(TranslationKey::LabelInput)
    } else if s.len() == 1 && s[0] == '\u{5c0f}' {
        Some(TranslationKey::LabelSmall)
    } else if s.len() == 1 && s[0] == '\u{4e2d}' {
        Some(TranslationKey::LabelMedium)
    } else if s.len() == 1 && s[0] == '\u{5927}' {
        Some(TranslationKey::LabelLarge)
    } else if s.len() == 2 && s[0] == '\u{7121}' {
        Some(TranslationKey::LabelDisabled)
    } else if s.len() == 4 && s[0] == '\u{9078}' {
        Some(TranslationKey::LabelSelected)
    } else if s.len() == 5 && s[0] == '\u{30d7}' {
        Some(TranslationKey::ButtonPrimary)
    } else if s.len() == 5 && s[0] == '\u{30bb}' {
        Some(TranslationKey::ButtonSecondary)
    } else if s.len() == 3 && s[0] == '\u{7834}' {
        Some(TranslationKey::ButtonDestructive)
    } else if s.len() == 4 && s[0] == '\u{30b4}' {
        Some(TranslationKey::ButtonGhost)
    } else if s.len() == 6 && s[0] == '\u{30a2}' {
        Some(TranslationKey::ButtonOutline)
    } else if s.len() == 5 && s[0] == '\u{30ad}' {
        Some(TranslationKey::ButtonCancel)
    } else if s.len() == 2 && s[0] == '\u{4fdd}' {
        Some(TranslationKey::ButtonSave)
    } else if s.len() == 2 && s[0] == '\u{78ba}' {
        Some(TranslationKey::ButtonConfirm)
    } else if s.len() == 8 && s[0] == '\u{30a2}' {
        Some(TranslationKey::DialogConfirmTitle)
    } else if s.len() == 26 {
        Some(TranslationKey::DialogConfirmMessage)
    } else if s.len() == 2 && s[0] == '\u{60c5}' {
        Some(TranslationKey::AlertInfo)
    } else if s.len() == 2 && s[0] == '\u{6210}' {
        Some(TranslationKey::AlertSuccess)
    } else if s.len() == 2 && s[0] == '\u{8b66}' {
        Some(TranslationKey::AlertWarning)
    } else if s.len() == 3 && s[0] == '\u{30a8}' {
        Some(TranslationKey::AlertError)
    } else if s.len() == 13 {
        Some(TranslationKey::AlertInfoMessage)
    } else if s.len() == 14 {
        Some(TranslationKey::AlertSuccessMessage)
    } else if s.len() == 18 {
        Some(TranslationKey::AlertWarningMessage)
    } else if s.len() == 21 {
        Some(TranslationKey::AlertErrorMessage)
    } else if s.len() == 4 && s[0] == '\u{306f}' {
        Some(TranslationKey::AccordionGettingStarted)
    } else if s.len() == 2 && s[0] == '\u{6a5f}' {
        Some(TranslationKey::AccordionFeatures)
    } else {
        None
    }
}

/// Each Japanese text leads back to its key (the one text shared by two keys, to the first of them).
proof fn lemma_japanese_key_of(key: TranslationKey)
    ensures
        japanese_key_of(japanese(key)) == Some(if key == TranslationKey::AccordionConfiguration { TranslationKey::MenuSettings } else { key }),
{
    match key {
        TranslationKey::AppTitle => {
            reveal_strlit("GPUI UI Kit Showcase");
            assert("GPUI UI Kit Showcase"@.len() == 20);
        },
        TranslationKey::AppSubtitle => {
            reveal_strlit("GPUIアプリケーション用の再利用可能なUIコンポーネントの包括的なライブラリ。");
            assert("GPUIアプリケーション用の再利用可能なUIコンポーネントの包括的なライブラリ。"@.len() == 40);
        },
        TranslationKey::MenuFile => {
            reveal_strlit("ファイル");
            assert("ファイル"@.len() == 4);
        },
        TranslationKey::MenuEdit => {
            reveal_strlit("編集");
            assert("編集"@.len() == 2);
        },
        TranslationKey::MenuView => {
            reveal_strlit("表示");
            assert("表示"@.len() == 2);
        },
        TranslationKey::MenuHelp => {
            reveal_strlit("ヘルプ");
            assert("ヘルプ"@.len() == 3);
        },
        TranslationKey::MenuQuit => {
            reveal_strlit("終了");
            assert("終了"@.len() == 2);
        },
        TranslationKey::MenuTheme => {
            reveal_strlit("テーマ");
            assert("テーマ"@.len() == 3);
        },
        TranslationKey::MenuLanguage => {
            reveal_strlit("言語");
            assert("言語"@.len() == 2);
        },
        TranslationKey::MenuSettings => {
            reveal_strlit("設定");
            assert("設定"@.len() == 2);
        },
        TranslationKey::ThemeDark => {
            reveal_strlit("ダーク");
            assert("ダーク"@.len() == 3);
        },
        TranslationKey::ThemeLight => {
            reveal_strlit("ライト");
            assert("ライト"@.len() == 3);
        },
        TranslationKey::SectionButtons => {
            reveal_strlit("ボタン");
            assert("ボタン"@.len() == 3);
        },
        TranslationKey::SectionTypography => {
            reveal_strlit("タイポグラフィ");
            assert("タイポグラフィ"@.len() == 7);
        },
        TranslationKey::SectionBadges => {
            reveal_strlit("バッジ");
            assert("バッジ"@.len() == 3);
        },
        TranslationKey::SectionAvatars => {
            reveal_strlit("アバター");
            assert("アバター"@.len() == 4);
        },
        TranslationKey::SectionFormControls => {
            reveal_strlit("フォームコントロール");
            assert("フォームコントロール"@.len() == 10);
        },
        TranslationKey::SectionProgress => {
            reveal_strlit("進捗インジケーター");
            assert("進捗インジケーター"@.len() == 9);
        },
        TranslationKey::SectionAlerts => {
            reveal_strlit("アラート");
            assert("アラート"@.len() == 4);
        },
        TranslationKey::SectionTabs => {
            reveal_strlit("タブ");
            assert("タブ"@.len() == 2);
        },
        TranslationKey::SectionCards => {
            reveal_strlit("カード");
            assert("カード"@.len() == 3);
        },
        TranslationKey::SectionBreadcrumbs => {
            reveal_strlit("パンくずリスト");
            assert("パンくずリスト"@.len() == 7);
        },
        TranslationKey::SectionSpinners => {
            reveal_strlit("読み込みインジケーター");
            assert("読み込みインジケーター"@.len() == 11);
        },
        TranslationKey::SectionLayout => {
            reveal_strlit("レイアウトコンポーネント");
            assert("レイアウトコンポーネント"@.len() == 12);
        },
        TranslationKey::SectionIconButtons => {
            reveal_strlit("アイコンボタン");
            assert("アイコンボタン"@.len() == 7);
        },
        TranslationKey::SectionToasts => {
            reveal_strlit("トースト");
            assert("トースト"@.len() == 4);
        },
        TranslationKey::SectionDialogs => {
            reveal_strlit("ダイアログ");
            assert("ダイアログ"@.len() == 5);
        },
        TranslationKey::SectionMenus => {
            reveal_strlit("メニュー");
            assert("メニュー"@.len() == 4);
        },
        TranslationKey::SectionTooltips => {
            reveal_strlit("ツールチップ");
            assert("ツールチップ"@.len() == 6);
        },
        TranslationKey::SectionPotentiometers => {
            reveal_strlit("ポテンショメーター");
            assert("ポテンショメーター"@.len() == 9);
        },
        TranslationKey::SectionAccordion => {
            reveal_strlit("アコーディオン");
            assert("アコーディオン"@.len() == 7);
        },
        TranslationKey::SectionQrCode => {
            reveal_strlit("QRコード");
            assert("QRコード"@.len() == 5);
        },
        TranslationKey::SectionContextMenu => {
            reveal_strlit("コンテキストメニュー");
            assert("コンテキストメニュー"@.len() == 10);
        },
        TranslationKey::SectionPopover => {
            reveal_strlit("ポップオーバー");
            assert("ポップオーバー"@.len() == 7);
        },
        TranslationKey::SectionSidebar => {
            reveal_strlit("サイドバー");
            assert("サイドバー"@.len() == 5);
        },
        TranslationKey::SectionStatusBar => {
            reveal_strlit("ステータスバー");
            assert("ステータスバー"@.len() == 7);
        },
        TranslationKey::SectionSearchBar => {
            reveal_strlit("検索バー");
            assert("検索バー"@.len() == 4);
        },
        TranslationKey::SectionKeyboardShortcut => {
            reveal_strlit("キーボードショートカット");
            assert("キーボードショートカット"@.len() == 12);
        },
        TranslationKey::SectionEmptyState => {
            reveal_strlit("空の状態");
            assert("空の状態"@.len() == 4);
        },
        TranslationKey::SectionConfirmDialog => {
            reveal_strlit("確認ダイアログ");
            assert("確認ダイアログ"@.len() == 7);
        },
        TranslationKey::SectionSplitPane => {
            reveal_strlit("分割パネル");
            assert("分割パネル"@.len() == 5);
        },
        TranslationKey::SectionImageView => {
            reveal_strlit("画像ビュー");
            assert("画像ビュー"@.len() == 5);
        },
        TranslationKey::SectionSettingsForm => {
            reveal_strlit("設定フォーム");
            assert("設定フォーム"@.len() == 6);
        },
        TranslationKey::SectionStepIndicator => {
            reveal_strlit("ステップインジケーター");
            assert("ステップインジケーター"@.len() == 11);
        },
        TranslationKey::SectionLoadingOverlay => {
            reveal_strlit("ローディングオーバーレイ");
            assert("ローディングオーバーレイ"@.len() == 12);
        },
        TranslationKey::SectionTag => {
            reveal_strlit("タグ");
            assert("タグ"@.len() == 2);
        },
        TranslationKey::SectionToolbar => {
            reveal_strlit("ツールバー");
            assert("ツールバー"@.len() == 5);
        },
        TranslationKey::SectionNotification => {
            reveal_strlit("通知");
            assert("通知"@.len() == 2);
        },
        TranslationKey::SectionTreeView => {
            reveal_strlit("ツリービュー");
            assert("ツリービュー"@.len() == 6);
        },
        TranslationKey::SectionDragList => {
            reveal_strlit("ドラッグリスト");
            assert("ドラッグリスト"@.len() == 7);
        },
        TranslationKey::SectionCommandPalette => {
            reveal_strlit("コマンドパレット");
            assert("コマンドパレット"@.len() == 8);
        },
        TranslationKey::LabelVariants => {
            reveal_strlit("バリエーション");
            assert("バリエーション"@.len() == 7);
        },
        TranslationKey::LabelSizes => {
            reveal_strlit("サイズ");
            assert("サイズ"@.len() == 3);
        },
        TranslationKey::LabelStates => {
            reveal_strlit("状態");
            assert("状態"@.len() == 2);
        },
        TranslationKey::LabelToggles => {
            reveal_strlit("トグル");
            assert("トグル"@.len() == 3);
        },
        TranslationKey::LabelCheckboxes => {
            reveal_strlit("チェックボックス");
            assert("チェックボックス"@.len() == 8);
        },
        TranslationKey::LabelSlider => {
            reveal_strlit("スライダー");
            assert("スライダー"@.len() == 5);
        },
        TranslationKey::LabelInput => {
            reveal_strlit("入力");
            assert("入力"@.len() == 2);
        },
        TranslationKey::LabelSmall => {
            reveal_strlit("小");
            assert("小"@.len() == 1);
        },
        TranslationKey::LabelMedium => {
            reveal_strlit("中");
            assert("中"@.len() == 1);
        },
        TranslationKey::LabelLarge => {
            reveal_strlit("大");
            assert("大"@.len() == 1);
        },
        TranslationKey::LabelDisabled => {
            reveal_strlit("無効");
            assert("無効"@.len() == 2);
        },
        TranslationKey::LabelSelected => {
            reveal_strlit("選択済み");
            assert("選択済み"@.len() == 4);
        },
        TranslationKey::ButtonPrimary => {
            reveal_strlit("プライマリ");
            assert("プライマリ"@.len() == 5);
        },
        TranslationKey::ButtonSecondary => {
            reveal_strlit("セカンダリ");
            assert("セカンダリ"@.len() == 5);
        },
        TranslationKey::ButtonDestructive => {
            reveal_strlit("破壊的");
            assert("破壊的"@.len() == 3);
        },
        TranslationKey::ButtonGhost => {
            reveal_strlit("ゴースト");
            assert("ゴースト"@.len() == 4);
        },
        TranslationKey::ButtonOutline => {
            reveal_strlit("アウトライン");
            assert("アウトライン"@.len() == 6);
        },
        TranslationKey::ButtonCancel => {
            reveal_strlit("キャンセル");
            assert("キャンセル"@.len() == 5);
        },
        TranslationKey::ButtonSave => {
            reveal_strlit("保存");
            assert("保存"@.len() == 2);
        },
        TranslationKey::ButtonConfirm => {
            reveal_strlit("確認");
            assert("確認"@.len() == 2);
        },
        TranslationKey::DialogConfirmTitle => {
            reveal_strlit("アクションの確認");
            assert("アクションの確認"@.len() == 8);
        },
        TranslationKey::DialogConfirmMessage => {
            reveal_strlit("続行してもよろしいですか？この操作は元に戻せません。");
            assert("続行してもよろしいですか？この操作は元に戻せません。"@.len() == 26);
        },
        TranslationKey::AlertInfo => {
            reveal_strlit("情報");
            assert("情報"@.len() == 2);
        },
        TranslationKey::AlertSuccess => {
            reveal_strlit("成功");
            assert("成功"@.len() == 2);
        },
        TranslationKey::AlertWarning => {
            reveal_strlit("警告");
            assert("警告"@.len() == 2);
        },
        TranslationKey::AlertError => {
            reveal_strlit("エラー");
            assert("エラー"@.len() == 3);
        },
        TranslationKey::AlertInfoMessage => {
            reveal_strlit("これは情報メッセージです。");
            assert("これは情報メッセージです。"@.len() == 13);
        },
        TranslationKey::AlertSuccessMessage => {
            reveal_strlit("変更が正常に保存されました。");
            assert("変更が正常に保存されました。"@.len() == 14);
        },
        TranslationKey::AlertWarningMessage => {
            reveal_strlit("続行する前に設定を確認してください。");
            assert("続行する前に設定を確認してください。"@.len() == 18);
        },
        TranslationKey::AlertErrorMessage => {
            reveal_strlit("リクエストの処理中にエラーが発生しました。");
            assert("リクエストの処理中にエラーが発生しました。"@.len() == 21);
        },
        TranslationKey::AccordionGettingStarted => {
            reveal_strlit("はじめに");
            assert("はじめに"@.len() == 4);
        },
        TranslationKey::AccordionFeatures => {
            reveal_strlit("機能");
            assert("機能"@.len() == 2);
        },
        TranslationKey::AccordionConfiguration => {
            reveal_strlit("設定");
            assert("設定"@.len() == 2);
        },
    }
}

/// Whether `k1` and `k2` are the two keys that one word serves in `lang`:
/// Spanish and Japanese name the settings menu and the configuration section
/// alike.
pub open spec fn shared_text_keys(lang: Language, k1: TranslationKey, k2: TranslationKey) -> bool {
    &&& (lang == Language::Spanish || lang == Language::Japanese)
    &&& ((k1 == TranslationKey::MenuSettings && k2 == TranslationKey::AccordionConfiguration) || (k1
        == TranslationKey::AccordionConfiguration && k2 == TranslationKey::MenuSettings))
}

/// Law: within one language, different keys have different built-in texts
/// (so no key shows another key's text), except the two keys that share one
/// word in Spanish and Japanese.
pub proof fn lemma_texts_distinct(lang: Language, k1: TranslationKey, k2: TranslationKey)
    requires
        k1 != k2,
        !shared_text_keys(lang, k1, k2),
    ensures
        translation(lang, k1) != translation(lang, k2),
{
    match lang {
        Language::English => {
            lemma_english_key_of(k1);
            lemma_english_key_of(k2);
        },
        Language::French => {
            lemma_french_key_of(k1);
            lemma_french_key_of(k2);
        },
        Language::German => {
            lemma_german_key_of(k1);
            lemma_german_key_of(k2);
        },
        Language::Spanish => {
            lemma_spanish_key_of(k1);
            lemma_spanish_key_of(k2);
        },
        Language::Japanese => {
            lemma_japanese_key_of(k1);
            lemma_japanese_key_of(k2);
        },
    }
}

/// The language in use and the texts.
pub struct I18nState {
    /// The language texts are looked up in.
    pub language: Language,
    /// The stored texts.
    pub translations: Translations,
}

impl I18nState {
    /// English, with the built-in texts.
    pub fn new() -> (s: I18nState)
        ensures
            s.language == Language::English,
            s.translations.complete(),
    {
        I18nState { language: Language::English, translations: Translations::new() }
    }

    /// Switches the language; the texts stay.
    pub fn set_language(&mut self, language: Language)
        ensures
            final(self).language == language,
            final(self).translations == old(self).translations,
    {
        self.language = language;
    }

    /// The text for `key` in the current language.
    pub fn t(&self, key: TranslationKey) -> (s: &'static str)
        ensures
            s@ == lookup(self.translations.translations@, self.language, key),
    {
        self.translations.get(self.language, key)
    }
}

impl Default for I18nState {
    /// English, with the built-in texts.
    fn default() -> (s: I18nState)
        ensures
            s.language == Language::English,
            s.translations.complete(),
    {
        I18nState::new()
    }
}

} // verus!
