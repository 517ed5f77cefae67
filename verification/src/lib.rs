//! Core logic of a local TCP relay that load-balances client connections
//! across a pool of anonymizing proxy backends: port-range validation,
//! local port discovery, backend-pool construction and round-robin
//! selection, the identity-rotation control protocol, and the
//! per-connection relay state machine.

pub mod pool;
pub mod relay;
pub mod rotate;
pub mod scan;

pub use pool::PoolError;
pub use pool::TorProxyManager;
pub use pool::TorProxyPort;
pub use relay::RelayAction;
pub use relay::RelayConn;
pub use relay::RelayPhase;
pub use rotate::auth_line;
pub use rotate::rotation_step;
pub use rotate::signal_line;
pub use rotate::RotationAction;
pub use rotate::RotationEvent;
pub use rotate::RotationState;
