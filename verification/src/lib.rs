//! A safe, verified model of a Zend-style dynamic-language runtime binding
//! layer: tagged-union value cells, insertion-ordered array cells, the
//! native-call dispatch shim with its arity checking and exception
//! marshalling, and the class/function registration builders with their
//! state-bearing object allocator.

pub mod arrays;
pub mod classes;
pub mod constants;
pub mod errors;
pub mod functions;
pub mod ini;
pub mod modules;
pub mod objects;
pub mod resources;
pub mod smart_str;
pub mod strings;
pub mod values;
pub mod zend;
pub mod zend_result;
