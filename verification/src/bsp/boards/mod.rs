pub mod pico2w;
