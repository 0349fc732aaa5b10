//! Client devices: laptops, phones and tablets in the mesh.
pub mod client_device;
