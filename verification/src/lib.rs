//! Role-parameterised composition layer of a peer-to-peer overlay node.
//!
//! A node plays one [`role::Role`]; the role alone decides which protocol
//! modules are active, how module events fold into one envelope, and how the
//! listener book-keeping moves the node through its lifecycle.
pub mod address;
pub mod composite;
pub mod error;
pub mod event;
pub mod hub;
pub mod identity;
pub mod lifecycle;
pub mod node;
pub mod role;

pub use event::Logic;
pub use node::Node;
pub use role::Role;
