//! The applications of the system: the shell, its commands and the WLAN
//! task, reduced to the decisions they take.
pub mod text;
pub mod shell;
pub mod wlan;
pub mod builtin_shell;
pub mod gpio_irq;
pub mod net_test;
pub mod memory;
