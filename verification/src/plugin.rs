pub mod audio;
pub mod main_thread;
pub mod params;
pub mod shared;
