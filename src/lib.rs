//! A style lint that flags `&place as *const T` and `&mut place as *mut T`
//! and suggests `ptr::addr_of!(place)` or `ptr::addr_of_mut!(place)` instead.
pub mod ast;
pub mod lint;
