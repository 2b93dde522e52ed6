//! A minimal graph-of-typed-state model.
//!
//! Nodes hold typed values, handovers carry a typed mapping from one state
//! type to another together with a declared preservation protocol, and a
//! hypergraph collects nodes by id. The one non-trivial operation is
//! categorical composition of handovers: the composed mapping applies the
//! first handover's mapper and then the second's, the composed id is the
//! two ids joined by an underscore, and the composed protocol is always
//! `Transmutative`.

pub mod handover;
pub mod hypergraph;
pub mod mappers;
pub mod node;
pub mod score;

pub use handover::compose_handovers;
pub use handover::ComposedMapper;
pub use handover::Handover;
pub use handover::Mapper;
pub use handover::PreservationProtocol;
pub use hypergraph::Hypergraph;
pub use mappers::DoubleMapper;
pub use mappers::ToDecimalMapper;
pub use node::Node;
pub use node::StateSpace;
pub use score::Score;
