pub mod rp235x_interrupt;
