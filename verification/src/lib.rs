//! A two-stage generator for operator-overload implementations.
//!
//! A user writes one canonical function body for a binary, unary, or
//! compound-assignment operation. The combinator stage fans one
//! permutation-agnostic function descriptor out into sibling descriptors, one
//! per ownership permutation (owned vs. borrowed operands). The installer
//! stage turns one fully resolved sibling into the contract binding that
//! implements the host language's operator interface for that permutation.
//!
//! Parsing raw source text into descriptors and printing bindings back out are
//! jobs for the surrounding toolchain; this crate works on plain values only.

pub mod combinator;
pub mod descriptor;
pub mod installer;
pub mod laws;
pub mod splitter;

pub use descriptor::Annotation;
pub use descriptor::AnnotationModel;
pub use descriptor::FunctionDescriptor;
pub use descriptor::DescriptorModel;
pub use descriptor::Operand;
pub use descriptor::OperandModel;
pub use descriptor::ShapeError;
pub use combinator::InstallerKind;
pub use combinator::RequestModel;
pub use combinator::SiblingRequest;
pub use combinator::impl_ops;
pub use combinator::impl_ops_assign;
pub use combinator::impl_ops_lprim;
pub use combinator::impl_ops_rprim;
pub use combinator::impl_uni_ops;
pub use installer::BindingModel;
pub use installer::ContractBinding;
pub use installer::impl_op;
pub use installer::impl_op_assign;
pub use installer::impl_uni_op;
pub use splitter::extract_comments;
