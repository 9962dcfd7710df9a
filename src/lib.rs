//! Navigation state fusion for a handheld compass: GNSS fix extraction,
//! magnetometer sampling, landmark selection and a single-slot snapshot store
//! shared between producer and consumer tasks.
pub mod fix;
pub mod landmark;
pub mod magnetometer;
pub mod screen;
pub mod store;
pub mod user_interface;
