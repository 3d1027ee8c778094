//! Metering contract between a bytecode interpreter and a pluggable cost policy.
//!
//! The interpreter reports every chargeable step to a [`gas::GasMeter`]; the policy decides
//! what the step costs and whether the session may go on.
pub mod instr;
pub mod views;
pub mod gas;
pub mod budget;
pub mod session;
