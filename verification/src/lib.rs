//! Verified core logic of a GPUI component kit: colors, animation timing,
//! keyboard navigation, text editing, translations and the other decisions
//! the widgets make.

pub mod text;
pub mod size;
pub mod scale;
pub mod color;
pub mod color_picker;
pub mod animation;
pub mod i18n;
pub mod accordion;
pub mod alert;
pub mod avatar;
pub mod badge;
pub mod breadcrumbs;
pub mod button;
pub mod button_set;
pub mod checkbox;
pub mod command_palette;
pub mod control_sizes;
pub mod dialog;
pub mod icon_button;
pub mod interactions;
pub mod menu;
pub mod number_edit;
pub mod overlays;
pub mod param_label;
pub mod qr;
pub mod search_bar;
pub mod select;
pub mod shortcut;
pub mod step_indicator;
pub mod table;
pub mod tabs;
