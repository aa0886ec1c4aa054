//! Verified core of the HW Tools hardware diagnostic application.

pub mod text;
pub mod storage;
pub mod gpio_tab;
pub mod uart_tab;
pub mod ui;
pub mod system_tab;
pub mod app;
pub mod control;
