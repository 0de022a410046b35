//! A terminal rendering toolkit with a verified core.
//!
//! Each frame the application draws into a [`buffer::Buffer`], a grid of
//! [`cell::Cell`]s. The [`diff`] engine finds the cells that differ from the
//! frame before and joins them into runs; [`diff_strategy`] decides, from
//! how the costs of the strategies compare, whether to scan everything, to
//! scan the dirty rows, or to redraw.
//!
//! Around that core stand the widgets that draw into a frame
//! ([`widgets`], [`panel`], [`history_panel`], [`modal`]), colour
//! downgrading ([`color`]), message catalogs with plural rules
//! ([`catalog`], [`plural`], [`locale`]), the help index ([`help_index`]),
//! saved widget state ([`stateful`]), the modes of a terminal session
//! ([`terminal_session`]) and the availability of the GPU backend
//! ([`gpu_backend`]).

pub mod borders;
pub mod buffer;
pub mod catalog;
pub mod cell;
pub mod color;
pub mod diff;
pub mod diff_strategy;
pub mod event;
pub mod frame;
pub mod geometry;
pub mod glyph;
pub mod gpu_backend;
pub mod help_index;
pub mod help_registry;
pub mod history_panel;
pub mod hit_grid;
pub mod locale;
pub mod modal;
pub mod panel;
pub mod plural;
pub mod stateful;
pub mod strmap;
pub mod style;
pub mod terminal_session;
pub mod text;
pub mod widgets;
