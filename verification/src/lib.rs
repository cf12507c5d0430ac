pub mod device;
pub mod instance;
pub mod layers;
pub mod queue_families;
pub mod version;
pub mod window;
