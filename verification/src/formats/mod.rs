pub mod dxgi;
pub mod surface;
