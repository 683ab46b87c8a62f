pub use crate::interpreter::method::{CodeType, CommonImplAttrFlagInfo, ImplAttrFlagInfo, Managed};
