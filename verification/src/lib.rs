//! A multi-scale weighing simulator: the scales, their selection and
//! edit forms, the key bindings that drive them, and the MQTT topic rules
//! by which readings go out and remote commands come in.
pub mod text;
pub mod state;
pub mod input;
pub mod mqtt;
pub mod ui;
pub mod laws;
