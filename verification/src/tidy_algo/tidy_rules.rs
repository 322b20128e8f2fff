//! The rules that score a file from its own record and the rule's parameters.
pub mod duplicated;
pub mod misnamed;
pub mod missnamed;
pub mod perished;
