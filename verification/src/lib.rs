//! Gateway logic of a smart home alarm: the security state machine, the
//! register protocol spoken with the Arduino acquisition unit, the RFID badge
//! registry, and the key-driven menus of the LCD and terminal interfaces.

pub mod arduino_consts;
pub mod text;
pub mod datetime;
pub mod badges;
pub mod rows;
pub mod arduino;
pub mod controller;
pub mod grovepi;
pub mod lcd_controller;
pub mod keys;
pub mod badge_menu;
pub mod menu;
pub mod lcd;
pub mod tui_logger;
pub mod log_menu;
pub mod monitor;
pub mod screens;
pub mod tab_bar;
pub mod laws;
