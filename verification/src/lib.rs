pub mod bits;
pub mod clock;
pub mod traits;
pub mod rom;
pub mod ram;
pub mod roms;
pub mod cpc_x64;
pub mod cpc6128;
pub mod debug_view;
pub mod any_memory;
pub mod test_memory;
pub mod laws;
