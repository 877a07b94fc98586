//! Loader for a robot kinematics configuration written as a structured
//! markup document.
//!
//! The document text is handed to a markup parser; the first document tree
//! it yields is walked by a schema-driven extractor that checks every one
//! of the sixteen required fields for presence, type and shape, and
//! materializes an immutable [`RobotKinematicsConfig`]. A record can be
//! serialized back to the same schema with [`config_to_doc`]; reading that
//! tree again yields the identical record, which is proved once for every
//! record by [`lemma_round_trip`].
//!
//! Numeric values are carried as the decimal literals that stood in the
//! document, so nothing is rounded on the way in or out; turning a literal
//! into machine floating point is the consumer's step, outside this crate.

pub mod config;
pub mod doc;
pub mod emit;
pub mod error;
pub mod extract;
pub mod laws;
pub mod schema;
pub mod text;
pub mod validate;
pub mod yaml;

pub use config::JointLimit;
pub use config::Real;
pub use config::RobotKinematicsConfig;
pub use config::Vec3;
pub use doc::DocNode;
pub use emit::config_to_doc;
pub use error::LoadError;
pub use error::SchemaError;
pub use error::Shape;
pub use extract::extract_config;
pub use laws::lemma_round_trip;
pub use text::config_to_yaml;
pub use validate::check_shapes;
pub use yaml::config_from_str;
