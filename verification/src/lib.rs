//! A polymorphic attribute model for virtual-DOM construction.
//!
//! A single DOM/XML attribute can carry one of three payloads: a static
//! [`value::Value`], a value applied through an imperative function call, or an
//! event [`callback::Callback`].  The [`attribute::Attribute`] type pairs such
//! a payload with a name and an optional namespace qualifier, and offers
//! combinators that let a parent component adopt a child's attributes while
//! changing the event and message types they are stated over.

pub mod attribute;
pub mod callback;
pub mod value;

pub use attribute::Attribute;
pub use attribute::AttribValue;
pub use attribute::ToText;
pub use callback::Callback;
pub use callback::Composed;
pub use callback::FnHandler;
pub use callback::Handler;
pub use callback::NoCallback;
pub use value::Value;
