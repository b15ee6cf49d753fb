pub mod cyw43;
