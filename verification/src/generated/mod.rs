//! Dialect tables: identifier case rules, function argument rules, function
//! classification and signatures, and the canonical type system.

pub mod case_sensitivity;
pub mod function_rules;
pub mod functions;
pub mod type_system;

pub use case_sensitivity::NormalizationStrategy;
pub use function_rules::{is_value_table_function, skip_args_for_function, NullOrdering};
pub use type_system::{can_implicitly_cast, dialect_type_name, normalize_type_name, CanonicalType};


pub use functions::{
    all_function_signatures, get_function_signature, infer_function_return_type,
    is_aggregate_function, is_udtf_function, is_window_function, FunctionCategory, FunctionParam,
    FunctionSignature, ReturnTypeRule,
};
