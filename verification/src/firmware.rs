//! A model of the firmware's GUI services: the state each service keeps and
//! how it reacts to calls and input events.

pub mod view;
pub mod view_dispatcher;
pub mod widget;
pub mod gui;
pub mod submenu;
pub mod variable_item_list;
pub mod bt;
pub mod text_input;
