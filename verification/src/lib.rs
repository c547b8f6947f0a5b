//! Verified core of the Flipper Zero bindings: raw firmware values, the
//! conversions between them and their typed counterparts, bitfield storage,
//! and the bookkeeping of the GUI objects (views, dispatchers, menus, lists).
#![allow(non_camel_case_types, non_upper_case_globals, non_snake_case)]

pub mod bitfield;
pub mod sys;
pub mod view_port;
pub mod canvas;
pub mod gui_layer;
pub mod view_dispatcher_type;
pub mod input;
pub mod io;
pub mod path;
pub mod firmware;
pub mod view;
pub mod view_dispatcher;
pub mod submenu;
pub mod variable_item_list;
pub mod bluetooth;
pub mod tagged;
pub mod text;
