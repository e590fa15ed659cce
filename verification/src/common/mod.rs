//! Pieces shared by every service: metric names and labels, and the gRPC
//! metrics layer.
pub mod telemetry;
