pub mod text;
pub mod app_state;
pub mod color;
pub mod focus;
pub mod overview;
pub mod overview_laws;
pub mod shell;
pub mod shell_laws;
pub mod launch;
pub mod launch_laws;
pub mod bluetooth;
pub mod system_status;
pub mod app_grid;
pub mod app_grid_laws;
pub mod app_tile;
pub mod dock;
pub mod home;
pub mod model;
pub mod bluetooth_laws;
pub mod home_laws;
